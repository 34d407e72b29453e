use vstd::prelude::*;
use crate::address::{Address, REGISTER_COUNT};
use crate::alu::{and_of, low_byte_of, not_of, or_of, product_of, remainder_of, sum_of};
use crate::error::VmError;
use crate::instruction::{decode, Instruction};

verus! {

/// Memory always covers the whole literal address space.
pub const MEMORY_MIN: usize = 32768;

/// What the host has to do after the machine has taken a step.
#[derive(Debug, Clone, Copy, PartialEq, Eq)]
pub enum Action {
    /// Nothing; the next step can be taken.
    Continue,
    /// Write this byte to the console. It is already in the output log.
    Write(u8),
    /// Read one line from the input source and hand it to the machine. The
    /// instruction that asked for input has not been executed yet.
    ReadLine,
    /// Stop: the program has halted.
    Halt,
}

/// The mathematical state of a machine.
#[verifier::ext_equal]
pub struct MachineState {
    /// The words of memory; the program image starts at position 0.
    pub memory: Seq<u16>,
    /// The eight registers.
    pub registers: Seq<u16>,
    /// The stack, its top last.
    pub stack: Seq<u16>,
    /// Input bytes that no instruction has consumed yet, the oldest first.
    pub input: Seq<u8>,
    /// Every byte written so far, the oldest first.
    pub output: Seq<u8>,
    /// Position in memory of the next instruction.
    pub pc: nat,
}

impl MachineState {
    /// Memory covers every literal address and there are eight registers.
    pub open spec fn wf(self) -> bool {
        self.memory.len() >= MEMORY_MIN && self.registers.len() == REGISTER_COUNT
    }

    /// The state of a machine that was just loaded with `image`: the image
    /// at position 0, followed by zeros up to the end of the literal address
    /// space where the image is shorter than that; everything else cleared.
    pub open spec fn boot(image: Seq<u16>) -> MachineState {
        MachineState {
            memory: if image.len() >= MEMORY_MIN {
                image
            } else {
                image + Seq::new((MEMORY_MIN - image.len()) as nat, |i: int| 0u16)
            },
            registers: Seq::new(REGISTER_COUNT as nat, |i: int| 0u16),
            stack: Seq::empty(),
            input: Seq::empty(),
            output: Seq::empty(),
            pc: 0,
        }
    }

    /// The value that an operand stands for: a literal itself, or what the
    /// register holds.
    pub open spec fn value(self, addr: Address) -> u16 {
        match addr {
            Address::Literal(value) => value,
            Address::Register(index) => self.registers[index as int],
        }
    }

    /// The word held at the place that `addr` names: in the register, or in
    /// memory at the literal's position.
    pub open spec fn content(self, addr: Address) -> u16 {
        match addr {
            Address::Register(index) => self.registers[index as int],
            Address::Literal(position) => self.memory[position as int],
        }
    }

    /// The state after `val` was written to the place that `addr` names: the
    /// register, or the word of memory at the literal's position.
    pub open spec fn store(self, addr: Address, val: u16) -> MachineState {
        match addr {
            Address::Register(index) => MachineState {
                registers: self.registers.update(index as int, val),
                ..self
            },
            Address::Literal(position) => MachineState {
                memory: self.memory.update(position as int, val),
                ..self
            },
        }
    }

    /// The state with the program counter moved to `target`.
    pub open spec fn goto(self, target: nat) -> MachineState {
        MachineState { pc: target, ..self }
    }

    /// The state with `val` on top of the stack.
    pub open spec fn pushed(self, val: u16) -> MachineState {
        MachineState { stack: self.stack.push(val), ..self }
    }

    /// The state without the top of the stack.
    pub open spec fn popped(self) -> MachineState {
        MachineState { stack: self.stack.drop_last(), ..self }
    }

    /// The state with `bytes` queued behind the pending input.
    pub open spec fn fed(self, bytes: Seq<u8>) -> MachineState {
        MachineState { input: self.input + bytes, ..self }
    }

    /// The effect of one instruction on a state whose program counter already
    /// points behind that instruction: the next state, and the action for the
    /// host or the error.
    ///
    /// An instruction that fails leaves the state as it found it. `In` on an
    /// empty input queue changes nothing and asks for a line. `Call` pushes
    /// the program counter as a word, that is modulo 65536. `Rmem` and `Wmem`
    /// fail with `InvalidAddress` on a position beyond the end of memory.
    pub open spec fn execute(self, instruction: Instruction) -> (
        MachineState,
        Result<Action, VmError>,
    ) {
        match instruction {
            Instruction::Halt => (self, Ok(Action::Halt)),
            Instruction::SetReg { op1, op2 } => match op1 {
                Address::Register(_) => (self.store(op1, self.value(op2)), Ok(Action::Continue)),
                Address::Literal(_) => (self, Err(VmError::InvalidRegisterTarget)),
            },
            Instruction::Push { op1 } => (self.pushed(self.value(op1)), Ok(Action::Continue)),
            Instruction::Pop { op1 } => if self.stack.len() == 0 {
                (self, Err(VmError::StackUnderflow))
            } else {
                (self.popped().store(op1, self.stack.last()), Ok(Action::Continue))
            },
            Instruction::Eq { op1, op2, op3 } => (
                self.store(
                    op1,
                    if self.value(op2) == self.value(op3) {
                        1
                    } else {
                        0
                    },
                ),
                Ok(Action::Continue),
            ),
            Instruction::Gt { op1, op2, op3 } => (
                self.store(
                    op1,
                    if self.value(op2) > self.value(op3) {
                        1
                    } else {
                        0
                    },
                ),
                Ok(Action::Continue),
            ),
            Instruction::Jmp { op1 } => (self.goto(self.value(op1) as nat), Ok(Action::Continue)),
            Instruction::Jt { op1, op2 } => (
                if self.value(op1) != 0 {
                    self.goto(self.value(op2) as nat)
                } else {
                    self
                },
                Ok(Action::Continue),
            ),
            Instruction::Jf { op1, op2 } => (
                if self.value(op1) == 0 {
                    self.goto(self.value(op2) as nat)
                } else {
                    self
                },
                Ok(Action::Continue),
            ),
            Instruction::Add { op1, op2, op3 } => (
                self.store(op1, sum_of(self.value(op2), self.value(op3))),
                Ok(Action::Continue),
            ),
            Instruction::Mult { op1, op2, op3 } => (
                self.store(op1, product_of(self.value(op2), self.value(op3))),
                Ok(Action::Continue),
            ),
            Instruction::Mod { op1, op2, op3 } => if self.value(op3) == 0 {
                (self, Err(VmError::DivisionByZero))
            } else {
                (
                    self.store(op1, remainder_of(self.value(op2), self.value(op3))),
                    Ok(Action::Continue),
                )
            },
            Instruction::And { op1, op2, op3 } => (
                self.store(op1, and_of(self.value(op2), self.value(op3))),
                Ok(Action::Continue),
            ),
            Instruction::Or { op1, op2, op3 } => (
                self.store(op1, or_of(self.value(op2), self.value(op3))),
                Ok(Action::Continue),
            ),
            Instruction::Not { op1, op2 } => (
                self.store(op1, not_of(self.value(op2))),
                Ok(Action::Continue),
            ),
            Instruction::Rmem { op1, op2 } => if self.value(op2) < self.memory.len() {
                (self.store(op1, self.memory[self.value(op2) as int]), Ok(Action::Continue))
            } else {
                (self, Err(VmError::InvalidAddress))
            },
            Instruction::Wmem { op1, op2 } => if self.value(op1) < self.memory.len() {
                (
                    MachineState {
                        memory: self.memory.update(self.value(op1) as int, self.value(op2)),
                        ..self
                    },
                    Ok(Action::Continue),
                )
            } else {
                (self, Err(VmError::InvalidAddress))
            },
            Instruction::Call { op1 } => (
                self.pushed((self.pc % 65536) as u16).goto(self.value(op1) as nat),
                Ok(Action::Continue),
            ),
            Instruction::Ret => if self.stack.len() == 0 {
                (self, Err(VmError::StackUnderflow))
            } else {
                (self.popped().goto(self.stack.last() as nat), Ok(Action::Continue))
            },
            Instruction::Out { op1 } => (
                MachineState { output: self.output.push(low_byte_of(self.value(op1))), ..self },
                Ok(Action::Write(low_byte_of(self.value(op1)))),
            ),
            Instruction::In { op1 } => if self.input.len() == 0 {
                (self, Ok(Action::ReadLine))
            } else {
                (
                    MachineState { input: self.input.remove(0), ..self }.store(
                        op1,
                        self.input[0] as u16,
                    ),
                    Ok(Action::Continue),
                )
            },
            Instruction::Noop => (self, Ok(Action::Continue)),
        }
    }

    /// One turn of the fetch-decode-execute cycle.
    ///
    /// Where nothing can be decoded at the program counter the state stays as
    /// it is and the decoder's error is the result. Where `In` is decoded and
    /// no input is pending the state also stays as it is, so that the same
    /// instruction is decoded again once a line has arrived. Otherwise the
    /// program counter is moved behind the instruction first, and then the
    /// instruction takes effect.
    pub open spec fn step(self) -> (MachineState, Result<Action, VmError>) {
        match decode(self.memory, self.pc as int) {
            Err(error) => (self, Err(error)),
            Ok((instruction, length)) => if instruction is In && self.input.len() == 0 {
                (self, Ok(Action::ReadLine))
            } else {
                self.goto(self.pc + length).execute(instruction)
            },
        }
    }

    /// Up to `fuel` steps in a row. The run goes on while steps end in
    /// `Continue` or `Write`, and stops at the first step that halts, asks
    /// for input or fails; that step's result is then the result of the run.
    /// A run that uses up its fuel ends in `Continue`.
    pub open spec fn run(self, fuel: nat) -> (MachineState, Result<Action, VmError>)
        decreases fuel,
    {
        if fuel == 0 {
            (self, Ok(Action::Continue))
        } else {
            let (next, result) = self.step();
            match result {
                Ok(Action::Continue) | Ok(Action::Write(_)) => next.run((fuel - 1) as nat),
                _ => (next, result),
            }
        }
    }
}

} // verus!
