use vstd::prelude::*;
use crate::address::{Address, REGISTER_COUNT};
use crate::alu::{
    add_words, and_words, low_byte, low_byte_of, mod_words, mult_words, not_word, or_words,
};
use crate::error::VmError;
use crate::instruction::{decode, Instruction};
use crate::laws::lemma_execute_preserves_wf;
use crate::state::{Action, MachineState, MEMORY_MIN};

verus! {

/// What addresses refer to: memory and registers.
#[derive(Debug)]
struct Storage {
    memory: Vec<u16>,
    registers: Vec<u16>,
}

impl Storage {
    #[verifier::type_invariant]
    spec fn inv(self) -> bool {
        self.memory.len() >= MEMORY_MIN && self.registers.len() == REGISTER_COUNT
    }
}

/// A machine: memory, registers, stack, program counter and the two I/O
/// buffers. Its view is the [`MachineState`] that the contracts speak of.
#[derive(Debug)]
pub struct VirtualMachine {
    storage: Storage,
    stack: Vec<u16>,
    stdin: Vec<u8>,
    stdout: Vec<u8>,
    pc: usize,
}

impl View for VirtualMachine {
    type V = MachineState;

    closed spec fn view(&self) -> MachineState {
        MachineState {
            memory: self.storage.memory@,
            registers: self.storage.registers@,
            stack: self.stack@,
            input: self.stdin@,
            output: self.stdout@,
            pc: self.pc as nat,
        }
    }
}

impl VirtualMachine {
    /// Loads a program image into a fresh machine. An image shorter than the
    /// literal address space is followed by zeros, so that every literal
    /// address names a word of memory.
    pub fn new(data: Vec<u16>) -> (vm: Self)
        ensures
            vm@ == MachineState::boot(data@),
            vm@.wf(),
    {
        let mut memory = data;
        if memory.len() < MEMORY_MIN {
            memory.resize(MEMORY_MIN, 0);
        }
        let registers: Vec<u16> = vec![0; REGISTER_COUNT];
        let vm = Self {
            storage: Storage { memory, registers },
            stack: Vec::new(),
            stdin: Vec::new(),
            stdout: Vec::new(),
            pc: 0,
        };
        proof {
            let booted = MachineState::boot(data@);
            assert(vm@.memory =~= booted.memory);
            assert(vm@.registers =~= booted.registers);
            assert(vm@.stack =~= booted.stack);
            assert(vm@.input =~= booted.input);
            assert(vm@.output =~= booted.output);
        }
        vm
    }

    /// Appends the low eight bits of `val` to the output log and returns
    /// them, for the host to write.
    fn out(&mut self, val: u16) -> (byte: u8)
        ensures
            byte == low_byte_of(val),
            final(self)@ == (MachineState { output: old(self)@.output.push(byte), ..old(self)@ }),
    {
        let byte = low_byte(val);
        self.stdout.push(byte);
        byte
    }

    /// A copy of the output log: every byte written so far, in order.
    pub fn stdout(&self) -> (log: Vec<u8>)
        ensures
            log@ == self@.output,
    {
        self.stdout.clone()
    }

    /// Position in memory of the next instruction.
    pub fn pc(&self) -> (pc: usize)
        ensures
            pc == self@.pc,
    {
        self.pc
    }

    /// A copy of the eight registers.
    pub fn registers(&self) -> (registers: Vec<u16>)
        ensures
            registers@ == self@.registers,
            registers@.len() == 8,
    {
        proof {
            use_type_invariant(&self.storage);
        }
        self.storage.registers.clone()
    }

    /// A copy of the stack, its top last.
    pub fn stack(&self) -> (stack: Vec<u16>)
        ensures
            stack@ == self@.stack,
    {
        self.stack.clone()
    }

    /// The word of memory at `position`, or `None` beyond the end of memory.
    pub fn peek(&self, position: usize) -> (word: Option<u16>)
        ensures
            word == if position < self@.memory.len() {
                Some(self@.memory[position as int])
            } else {
                None
            },
            position < 32768 ==> word is Some,
    {
        proof {
            use_type_invariant(&self.storage);
        }
        if position < self.storage.memory.len() {
            Some(self.storage.memory[position])
        } else {
            None
        }
    }

    /// The value that an operand stands for.
    pub fn get(&self, addr: Address) -> (val: u16)
        requires
            addr.wf(),
        ensures
            val == self@.value(addr),
    {
        proof {
            use_type_invariant(&self.storage);
        }
        match addr {
            Address::Register(idx) => self.storage.registers[idx as usize],
            Address::Literal(mem) => mem,
        }
    }

    /// The index of the register that `addr` names; a literal is rejected.
    pub fn getreg(&self, addr: Address) -> (result: Result<usize, VmError>)
        ensures
            result == match addr {
                Address::Register(index) => Ok::<usize, VmError>(index as usize),
                Address::Literal(_) => Err::<usize, VmError>(VmError::InvalidRegisterTarget),
            },
    {
        match addr {
            Address::Register(idx) => Ok(idx as usize),
            Address::Literal(_) => Err(VmError::InvalidRegisterTarget),
        }
    }

    /// Writes `val` to the register that `addr` names, or to memory at the
    /// position that it names.
    pub fn set(&mut self, addr: Address, val: u16)
        requires
            addr.wf(),
        ensures
            final(self)@ == old(self)@.store(addr, val),
            final(self)@.wf(),
    {
        proof {
            use_type_invariant(&self.storage);
        }
        match addr {
            Address::Register(idx) => {
                self.storage.registers[idx as usize] = val;
            },
            Address::Literal(mem) => {
                self.storage.memory[mem as usize] = val;
            },
        }
    }

    /// Applies one instruction to the machine as it stands; the program
    /// counter is taken to point behind the instruction already.
    pub fn execute(&mut self, instruction: Instruction) -> (result: Result<Action, VmError>)
        requires
            instruction.wf(),
        ensures
            (final(self)@, result) == old(self)@.execute(instruction),
            final(self)@.wf(),
    {
        proof {
            use_type_invariant(&self.storage);
            lemma_execute_preserves_wf(self@, instruction);
        }
        match instruction {
            Instruction::Halt => Ok(Action::Halt),
            Instruction::SetReg { op1, op2 } => {
                match self.getreg(op1) {
                    Ok(_) => {
                        let val = self.get(op2);
                        self.set(op1, val);
                        Ok(Action::Continue)
                    },
                    Err(error) => Err(error),
                }
            },
            Instruction::Push { op1 } => {
                let val = self.get(op1);
                self.stack.push(val);
                Ok(Action::Continue)
            },
            Instruction::Pop { op1 } => {
                match self.stack.pop() {
                    Some(val) => {
                        self.set(op1, val);
                        Ok(Action::Continue)
                    },
                    None => Err(VmError::StackUnderflow),
                }
            },
            Instruction::Eq { op1, op2, op3 } => {
                let val1 = self.get(op2);
                let val2 = self.get(op3);
                if val1 == val2 {
                    self.set(op1, 1);
                } else {
                    self.set(op1, 0);
                }
                Ok(Action::Continue)
            },
            Instruction::Gt { op1, op2, op3 } => {
                let val1 = self.get(op2);
                let val2 = self.get(op3);
                if val1 > val2 {
                    self.set(op1, 1);
                } else {
                    self.set(op1, 0);
                }
                Ok(Action::Continue)
            },
            Instruction::Jmp { op1 } => {
                let addr = self.get(op1);
                self.pc = addr as usize;
                Ok(Action::Continue)
            },
            Instruction::Jt { op1, op2 } => {
                let val = self.get(op1);
                let addr = self.get(op2);
                if val != 0 {
                    self.pc = addr as usize;
                }
                Ok(Action::Continue)
            },
            Instruction::Jf { op1, op2 } => {
                let val = self.get(op1);
                let addr = self.get(op2);
                if val == 0 {
                    self.pc = addr as usize;
                }
                Ok(Action::Continue)
            },
            Instruction::Add { op1, op2, op3 } => {
                let val1 = self.get(op2);
                let val2 = self.get(op3);
                self.set(op1, add_words(val1, val2));
                Ok(Action::Continue)
            },
            Instruction::Mult { op1, op2, op3 } => {
                let val1 = self.get(op2);
                let val2 = self.get(op3);
                self.set(op1, mult_words(val1, val2));
                Ok(Action::Continue)
            },
            Instruction::Mod { op1, op2, op3 } => {
                let val1 = self.get(op2);
                let val2 = self.get(op3);
                match mod_words(val1, val2) {
                    Some(rest) => {
                        self.set(op1, rest);
                        Ok(Action::Continue)
                    },
                    None => Err(VmError::DivisionByZero),
                }
            },
            Instruction::And { op1, op2, op3 } => {
                let val1 = self.get(op2);
                let val2 = self.get(op3);
                self.set(op1, and_words(val1, val2));
                Ok(Action::Continue)
            },
            Instruction::Or { op1, op2, op3 } => {
                let val1 = self.get(op2);
                let val2 = self.get(op3);
                self.set(op1, or_words(val1, val2));
                Ok(Action::Continue)
            },
            Instruction::Not { op1, op2 } => {
                let val1 = self.get(op2);
                self.set(op1, not_word(val1));
                Ok(Action::Continue)
            },
            Instruction::Rmem { op1, op2 } => {
                let addr = self.get(op2) as usize;
                if addr < self.storage.memory.len() {
                    let val = self.storage.memory[addr];
                    self.set(op1, val);
                    Ok(Action::Continue)
                } else {
                    Err(VmError::InvalidAddress)
                }
            },
            Instruction::Wmem { op1, op2 } => {
                let addr = self.get(op1) as usize;
                let val = self.get(op2);
                if addr < self.storage.memory.len() {
                    self.storage.memory[addr] = val;
                    Ok(Action::Continue)
                } else {
                    Err(VmError::InvalidAddress)
                }
            },
            Instruction::Call { op1 } => {
                let addr = self.get(op1);
                self.stack.push((self.pc % 65536) as u16);
                self.pc = addr as usize;
                Ok(Action::Continue)
            },
            Instruction::Ret => {
                match self.stack.pop() {
                    Some(addr) => {
                        self.pc = addr as usize;
                        Ok(Action::Continue)
                    },
                    None => Err(VmError::StackUnderflow),
                }
            },
            Instruction::Out { op1 } => {
                let val = self.get(op1);
                let byte = self.out(val);
                Ok(Action::Write(byte))
            },
            Instruction::In { op1 } => {
                if self.stdin.len() == 0 {
                    Ok(Action::ReadLine)
                } else {
                    let val = self.stdin.remove(0) as u16;
                    self.set(op1, val);
                    Ok(Action::Continue)
                }
            },
            Instruction::Noop => Ok(Action::Continue),
        }
    }

    /// Decodes the instruction at the program counter without executing it.
    pub fn fetch(&self) -> (result: Result<(Instruction, usize), VmError>)
        ensures
            match result {
                Ok((instruction, length)) => decode(self@.memory, self@.pc as int) == Ok::<
                    (Instruction, nat),
                    VmError,
                >((instruction, length as nat)) && instruction.wf() && self@.pc + length
                    <= self@.memory.len(),
                Err(error) => decode(self@.memory, self@.pc as int) == Err::<
                    (Instruction, nat),
                    VmError,
                >(error),
            },
    {
        Instruction::decoder(&self.storage.memory, self.pc)
    }

    /// Takes one step: decodes the instruction at the program counter, moves
    /// the program counter behind it, and executes it.
    ///
    /// An error leaves the machine where the failing step left it, open to
    /// inspection. `ReadLine` means that the machine has not moved and waits
    /// for [`VirtualMachine::receive_line`].
    pub fn step(&mut self) -> (result: Result<Action, VmError>)
        ensures
            (final(self)@, result) == old(self)@.step(),
            final(self)@.wf(),
    {
        proof {
            use_type_invariant(&self.storage);
        }
        let (instruction, length) = match self.fetch() {
            Ok(decoded) => decoded,
            Err(error) => { return Err(error); },
        };
        if let Instruction::In { .. } = instruction {
            if self.stdin.len() == 0 {
                return Ok(Action::ReadLine);
            }
        }
        assert(self.pc + length <= self.storage.memory.len());
        self.pc = self.pc + length;
        self.execute(instruction)
    }

    /// Takes steps until the program halts, asks for input or fails, but at
    /// most `max_steps` of them. Bytes written on the way are in the output
    /// log. The result is `Continue` when the steps were used up.
    pub fn run(&mut self, max_steps: u64) -> (result: Result<Action, VmError>)
        ensures
            (final(self)@, result) == old(self)@.run(max_steps as nat),
            final(self)@.wf(),
    {
        proof {
            use_type_invariant(&self.storage);
        }
        let mut remaining: u64 = max_steps;
        while remaining > 0
            invariant
                self@.run(remaining as nat) == old(self)@.run(max_steps as nat),
                self@.wf(),
            decreases remaining,
        {
            match self.step() {
                Ok(Action::Continue) | Ok(Action::Write(_)) => {
                    remaining = remaining - 1;
                },
                other => {
                    return other;
                },
            }
        }
        Ok(Action::Continue)
    }

    /// Takes what the host read from the input source: `Some` line with its
    /// terminator, or `None` when reading failed. A line is queued behind the
    /// pending input. A failed read, or a line without a single byte (the
    /// source is exhausted), is an `IOFailure` and changes nothing.
    pub fn receive_line(&mut self, line: Option<Vec<u8>>) -> (result: Result<(), VmError>)
        ensures
            match line {
                Some(bytes) if bytes@.len() > 0 => result == Ok::<(), VmError>(()) && final(self)@
                    == old(self)@.fed(bytes@),
                _ => result == Err::<(), VmError>(VmError::IOFailure) && final(self)@ == old(
                    self,
                )@,
            },
            final(self)@.wf(),
    {
        proof {
            use_type_invariant(&self.storage);
        }
        match line {
            Some(bytes) => {
                if bytes.len() > 0 {
                    let mut bytes = bytes;
                    self.stdin.append(&mut bytes);
                    Ok(())
                } else {
                    Err(VmError::IOFailure)
                }
            },
            None => Err(VmError::IOFailure),
        }
    }
}

} // verus!
