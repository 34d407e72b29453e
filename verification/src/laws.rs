use vstd::prelude::*;
use crate::address::Address;
use crate::alu::{
    and_of, lemma_results_fit_15_bits, not_of, or_of, product_of, remainder_of, sum_of,
};
use crate::error::VmError;
use crate::instruction::{decode, operand_count, Instruction};
use crate::state::{Action, MachineState};

verus! {

/// Whatever decodes is an instruction with well-formed operands that
/// occupies between one and four words, all of them inside memory.
pub proof fn lemma_decoded_instruction_wf(memory: Seq<u16>, pc: int)
    ensures
        decode(memory, pc) matches Ok((instruction, length)) ==> instruction.wf() && 1 <= length
            <= 4 && 0 <= pc && pc + length <= memory.len() && operand_count(memory[pc]) == Some(
            (length - 1) as nat,
        ),
{
    Address::lemma_resolve_wf(memory[pc + 1]);
    Address::lemma_resolve_wf(memory[pc + 2]);
    Address::lemma_resolve_wf(memory[pc + 3]);
}

/// Decoding fails with `InvalidOpcode` exactly where the word at `pc` is no
/// opcode, and the error names that word and `pc`.
pub proof fn lemma_invalid_opcode_iff(memory: Seq<u16>, pc: int)
    requires
        0 <= pc < memory.len(),
    ensures
        operand_count(memory[pc]) is None <==> decode(memory, pc) is Err && decode(
            memory,
            pc,
        )->Err_0 is InvalidOpcode,
        operand_count(memory[pc]) is None ==> decode(memory, pc) == Err::<
            (Instruction, nat),
            VmError,
        >(VmError::InvalidOpcode { opcode: memory[pc], position: pc as usize }),
{
}

/// A word that is no opcode is rejected without a look at the words behind
/// it: two memories that hold the same such word at `pc` decode alike there,
/// whatever else they hold and wherever they end.
pub proof fn lemma_unknown_opcode_reads_no_operand(memory: Seq<u16>, other: Seq<u16>, pc: int)
    requires
        0 <= pc < memory.len(),
        pc < other.len(),
        other[pc] == memory[pc],
        operand_count(memory[pc]) is None,
    ensures
        decode(other, pc) == decode(memory, pc),
        decode(memory, pc) == Err::<(Instruction, nat), VmError>(
            VmError::InvalidOpcode { opcode: memory[pc], position: pc as usize },
        ),
{
}

/// A machine whose program counter stands on a word that is no opcode fails
/// its step with `InvalidOpcode` and does not move.
pub proof fn lemma_unknown_opcode_stops_machine(state: MachineState)
    requires
        state.pc < state.memory.len(),
        operand_count(state.memory[state.pc as int]) is None,
    ensures
        state.step() == (
            state,
            Err::<Action, VmError>(
                VmError::InvalidOpcode {
                    opcode: state.memory[state.pc as int],
                    position: state.pc as usize,
                },
            ),
        ),
{
}

/// Writing to a place and then looking at it gives back what was written,
/// and no other register or word of memory changes.
pub proof fn lemma_store_then_content(state: MachineState, addr: Address, val: u16)
    requires
        state.wf(),
        addr.wf(),
    ensures
        state.store(addr, val).content(addr) == val,
        state.store(addr, val).wf(),
        forall|other: Address|
            other.wf() && other != addr ==> #[trigger] state.store(addr, val).content(other)
                == state.content(other),
{
}

/// `Add`, `Mult`, `And`, `Or` and `Not` leave a value of at most 15 bits at
/// their destination, whatever their operands hold.
pub proof fn lemma_arithmetic_stores_15_bits(state: MachineState, instruction: Instruction)
    requires
        state.wf(),
        instruction.wf(),
        instruction is Add || instruction is Mult || instruction is And || instruction is Or
            || instruction is Not,
    ensures
        state.execute(instruction).1 == Ok::<Action, VmError>(Action::Continue),
        instruction matches Instruction::Add { op1, .. } ==> state.execute(instruction).0.content(
            op1,
        ) <= 32767,
        instruction matches Instruction::Mult { op1, .. } ==> state.execute(
            instruction,
        ).0.content(op1) <= 32767,
        instruction matches Instruction::And { op1, .. } ==> state.execute(instruction).0.content(
            op1,
        ) <= 32767,
        instruction matches Instruction::Or { op1, .. } ==> state.execute(instruction).0.content(
            op1,
        ) <= 32767,
        instruction matches Instruction::Not { op1, .. } ==> state.execute(instruction).0.content(
            op1,
        ) <= 32767,
{
    match instruction {
        Instruction::Add { op1, op2, op3 } => {
            lemma_results_fit_15_bits(state.value(op2), state.value(op3));
        },
        Instruction::Mult { op1, op2, op3 } => {
            lemma_results_fit_15_bits(state.value(op2), state.value(op3));
        },
        Instruction::And { op1, op2, op3 } => {
            lemma_results_fit_15_bits(state.value(op2), state.value(op3));
        },
        Instruction::Or { op1, op2, op3 } => {
            lemma_results_fit_15_bits(state.value(op2), state.value(op3));
        },
        Instruction::Not { op1, op2 } => {
            lemma_results_fit_15_bits(state.value(op2), 0);
        },
        _ => {},
    }
}

/// `Add` stores the sum and `Mult` the product of its operands' values,
/// each reduced modulo 32768.
pub proof fn lemma_add_mult_wrap(
    state: MachineState,
    op1: Address,
    op2: Address,
    op3: Address,
)
    requires
        state.wf(),
        op1.wf(),
    ensures
        state.execute(Instruction::Add { op1, op2, op3 }).0.content(op1) == (state.value(op2)
            + state.value(op3)) % 32768,
        state.execute(Instruction::Mult { op1, op2, op3 }).0.content(op1) == (state.value(op2)
            * state.value(op3)) % 32768,
{
    lemma_results_fit_15_bits(state.value(op2), state.value(op3));
}

/// `Pop` and `Ret` on an empty stack fail with `StackUnderflow` and change
/// nothing.
pub proof fn lemma_empty_stack_underflows(state: MachineState, op1: Address)
    requires
        state.stack.len() == 0,
    ensures
        state.execute(Instruction::Pop { op1 }) == (
            state,
            Err::<Action, VmError>(VmError::StackUnderflow),
        ),
        state.execute(Instruction::Ret) == (
            state,
            Err::<Action, VmError>(VmError::StackUnderflow),
        ),
{
}

/// `Push` followed by `Pop` moves the pushed value to the destination of
/// the `Pop` and leaves the stack as it was before the `Push`.
pub proof fn lemma_push_pop_round_trip(state: MachineState, source: Address, target: Address)
    ensures
        ({
            let (pushed, first) = state.execute(Instruction::Push { op1: source });
            let (popped, second) = pushed.execute(Instruction::Pop { op1: target });
            &&& first == Ok::<Action, VmError>(Action::Continue)
            &&& second == Ok::<Action, VmError>(Action::Continue)
            &&& pushed.stack.last() == state.value(source)
            &&& popped == state.store(target, state.value(source))
            &&& popped.stack == state.stack
            &&& state.wf() && target.wf() ==> popped.content(target) == state.value(source)
        }),
{
    let (pushed, first) = state.execute(Instruction::Push { op1: source });
    let (popped, second) = pushed.execute(Instruction::Pop { op1: target });
    assert(pushed.stack.drop_last() =~= state.stack);
    assert(popped =~= state.store(target, state.value(source)));
}

/// `Call` followed by `Ret` comes back behind the `Call` with the stack as
/// it was, as long as the program counter fits in a word.
pub proof fn lemma_call_ret_round_trip(state: MachineState, target: Address)
    requires
        state.pc < 65536,
    ensures
        ({
            let (called, first) = state.execute(Instruction::Call { op1: target });
            let (returned, second) = called.execute(Instruction::Ret);
            &&& first == Ok::<Action, VmError>(Action::Continue)
            &&& second == Ok::<Action, VmError>(Action::Continue)
            &&& called.pc == state.value(target)
            &&& returned == state
        }),
{
    let (called, first) = state.execute(Instruction::Call { op1: target });
    let (returned, second) = called.execute(Instruction::Ret);
    assert(called.stack.drop_last() =~= state.stack);
    assert(returned =~= state);
}

/// `Jt` moves the program counter to its target exactly when its first
/// operand is not zero, and `Jf` exactly when it is zero. Nothing else
/// changes, and without a transfer the state stays as it is.
pub proof fn lemma_conditional_jumps(state: MachineState, op1: Address, op2: Address)
    ensures
        state.execute(Instruction::Jt { op1, op2 }).1 == Ok::<Action, VmError>(Action::Continue),
        state.execute(Instruction::Jf { op1, op2 }).1 == Ok::<Action, VmError>(Action::Continue),
        state.value(op1) != 0 ==> state.execute(Instruction::Jt { op1, op2 }).0 == state.goto(
            state.value(op2) as nat,
        ) && state.execute(Instruction::Jf { op1, op2 }).0 == state,
        state.value(op1) == 0 ==> state.execute(Instruction::Jt { op1, op2 }).0 == state
            && state.execute(Instruction::Jf { op1, op2 }).0 == state.goto(
            state.value(op2) as nat,
        ),
{
}

/// A step over a `Jt` ends at the target where the first operand is not
/// zero, and behind the three words of the instruction where it is zero.
pub proof fn lemma_step_over_jt(state: MachineState, op1: Address, op2: Address)
    requires
        decode(state.memory, state.pc as int) == Ok::<(Instruction, nat), VmError>(
            (Instruction::Jt { op1, op2 }, 3),
        ),
    ensures
        state.step().1 == Ok::<Action, VmError>(Action::Continue),
        state.step().0 == state.goto(
            if state.value(op1) != 0 {
                state.value(op2) as nat
            } else {
                state.pc + 3
            },
        ),
{
}

/// `SetReg` with a literal as its first operand fails with
/// `InvalidRegisterTarget` and changes nothing; with a register there it
/// makes the register hold the second operand's value.
pub proof fn lemma_set_needs_register(state: MachineState, op1: Address, op2: Address)
    ensures
        op1 is Literal ==> state.execute(Instruction::SetReg { op1, op2 }) == (
            state,
            Err::<Action, VmError>(VmError::InvalidRegisterTarget),
        ),
        op1 is Register ==> state.execute(Instruction::SetReg { op1, op2 }) == (
            state.store(op1, state.value(op2)),
            Ok::<Action, VmError>(Action::Continue),
        ),
{
}

/// `In` takes the oldest pending byte: it lands at the destination, and the
/// bytes behind it stay queued in their order.
pub proof fn lemma_in_takes_oldest_byte(state: MachineState, op1: Address)
    requires
        state.wf(),
        op1.wf(),
        state.input.len() > 0,
    ensures
        state.execute(Instruction::In { op1 }).1 == Ok::<Action, VmError>(Action::Continue),
        state.execute(Instruction::In { op1 }).0.content(op1) == state.input[0],
        state.execute(Instruction::In { op1 }).0.input == state.input.subrange(
            1,
            state.input.len() as int,
        ),
{
    assert(state.input.remove(0) =~= state.input.subrange(1, state.input.len() as int));
}

/// A line received by a machine that waits for input lets the `In` go
/// ahead with the line's first byte.
pub proof fn lemma_in_after_line(state: MachineState, line: Seq<u8>, op1: Address)
    requires
        state.wf(),
        op1.wf(),
        state.input.len() == 0,
        line.len() > 0,
    ensures
        state.execute(Instruction::In { op1 }) == (
            state,
            Ok::<Action, VmError>(Action::ReadLine),
        ),
        state.fed(line).execute(Instruction::In { op1 }).1 == Ok::<Action, VmError>(
            Action::Continue,
        ),
        state.fed(line).execute(Instruction::In { op1 }).0.content(op1) == line[0],
{
    lemma_in_takes_oldest_byte(state.fed(line), op1);
}

/// `Mod` fails with `DivisionByZero` exactly when its divisor is zero.
pub proof fn lemma_mod_by_zero(state: MachineState, op1: Address, op2: Address, op3: Address)
    ensures
        state.value(op3) == 0 <==> state.execute(Instruction::Mod { op1, op2, op3 }).1 == Err::<
            Action,
            VmError,
        >(VmError::DivisionByZero),
        state.value(op3) == 0 ==> state.execute(Instruction::Mod { op1, op2, op3 }).0 == state,
{
}

/// An instruction that fails, and an `In` that has to wait for input, leave
/// the state as they found it.
pub proof fn lemma_failure_changes_nothing(state: MachineState, instruction: Instruction)
    ensures
        state.execute(instruction).1 is Err ==> state.execute(instruction).0 == state,
        state.execute(instruction).1 == Ok::<Action, VmError>(Action::ReadLine) ==> state.execute(
            instruction,
        ).0 == state,
{
}

/// A step that fails to decode, or that has to wait for input, leaves the
/// state as it found it.
pub proof fn lemma_step_without_progress(state: MachineState)
    ensures
        decode(state.memory, state.pc as int) is Err ==> state.step().0 == state,
        state.step().1 == Ok::<Action, VmError>(Action::ReadLine) ==> state.step().0 == state,
{
    lemma_failure_changes_nothing(
        state.goto(state.pc + decode(state.memory, state.pc as int)->Ok_0.1),
        decode(state.memory, state.pc as int)->Ok_0.0,
    );
}

/// No instruction with well-formed operands takes a well-formed state to
/// one that is not.
pub proof fn lemma_execute_preserves_wf(state: MachineState, instruction: Instruction)
    requires
        state.wf(),
        instruction.wf(),
    ensures
        state.execute(instruction).0.wf(),
{
    match instruction {
        Instruction::SetReg { op1, op2 } => {
            lemma_store_then_content(state, op1, state.value(op2));
        },
        Instruction::Pop { op1 } => {
            lemma_store_then_content(state.popped(), op1, state.stack.last());
        },
        Instruction::Eq { op1, .. } | Instruction::Gt { op1, .. } => {
            lemma_store_then_content(state, op1, 0);
            lemma_store_then_content(state, op1, 1);
        },
        Instruction::Add { op1, op2, op3 } => {
            lemma_store_then_content(state, op1, sum_of(state.value(op2), state.value(op3)));
        },
        Instruction::Mult { op1, op2, op3 } => {
            lemma_store_then_content(state, op1, product_of(state.value(op2), state.value(op3)));
        },
        Instruction::Mod { op1, op2, op3 } => {
            lemma_store_then_content(state, op1, remainder_of(state.value(op2), state.value(op3)));
        },
        Instruction::And { op1, op2, op3 } => {
            lemma_store_then_content(state, op1, and_of(state.value(op2), state.value(op3)));
        },
        Instruction::Or { op1, op2, op3 } => {
            lemma_store_then_content(state, op1, or_of(state.value(op2), state.value(op3)));
        },
        Instruction::Not { op1, op2 } => {
            lemma_store_then_content(state, op1, not_of(state.value(op2)));
        },
        Instruction::Rmem { op1, op2 } => {
            lemma_store_then_content(state, op1, state.memory[state.value(op2) as int]);
        },
        Instruction::In { op1 } => {
            if state.input.len() > 0 {
                lemma_store_then_content(
                    MachineState { input: state.input.remove(0), ..state },
                    op1,
                    state.input[0] as u16,
                );
            }
        },
        _ => {},
    }
}

/// A step takes a well-formed state to a well-formed state.
pub proof fn lemma_step_preserves_wf(state: MachineState)
    requires
        state.wf(),
    ensures
        state.step().0.wf(),
{
    lemma_decoded_instruction_wf(state.memory, state.pc as int);
    match decode(state.memory, state.pc as int) {
        Ok((instruction, length)) => {
            lemma_execute_preserves_wf(state.goto(state.pc + length), instruction);
        },
        Err(_) => {},
    }
}

/// A run of any length takes a well-formed state to a well-formed state.
pub proof fn lemma_run_preserves_wf(state: MachineState, fuel: nat)
    requires
        state.wf(),
    ensures
        state.run(fuel).0.wf(),
    decreases fuel,
{
    if fuel > 0 {
        lemma_step_preserves_wf(state);
        lemma_run_preserves_wf(state.step().0, (fuel - 1) as nat);
    }
}

/// A run may be taken in two parts: where the first part uses up its fuel,
/// the second goes on from where it ended; where the first part stops
/// short, more fuel changes nothing.
pub proof fn lemma_run_resumes(state: MachineState, first: nat, second: nat)
    ensures
        state.run(first + second) == if state.run(first).1 == Ok::<Action, VmError>(
            Action::Continue,
        ) {
            state.run(first).0.run(second)
        } else {
            state.run(first)
        },
    decreases first,
{
    if first > 0 {
        let (next, result) = state.step();
        match result {
            Ok(Action::Continue) | Ok(Action::Write(_)) => {
                lemma_run_resumes(next, (first - 1) as nat, second);
                assert(state.run(first + second) == next.run((first + second - 1) as nat));
            },
            _ => {},
        }
    }
}

/// The output log only grows: a step appends at most the byte that it
/// asks the host to write, and nothing that was logged changes.
pub proof fn lemma_step_extends_output(state: MachineState)
    ensures
        state.step().1 matches Ok(Action::Write(byte)) ==> state.step().0.output
            == state.output.push(byte),
        !(state.step().1 matches Ok(Action::Write(_))) ==> state.step().0.output == state.output,
{
}

} // verus!
