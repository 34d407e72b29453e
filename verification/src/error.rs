use vstd::prelude::*;

verus! {

/// Why decoding or executing an instruction failed.
#[derive(Debug, Clone, Copy, PartialEq, Eq)]
pub enum VmError {
    /// An operand word lies above the register range, or a position in memory
    /// that had to be read or written lies outside memory.
    InvalidAddress,
    /// The word at `position` is not the opcode of any instruction.
    InvalidOpcode { opcode: u16, position: usize },
    /// An instruction that writes a register was given a literal destination.
    InvalidRegisterTarget,
    /// A value was taken from the empty stack.
    StackUnderflow,
    /// The divisor of a remainder was zero.
    DivisionByZero,
    /// The input source could not deliver a line.
    IOFailure,
}

} // verus!
