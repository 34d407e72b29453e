use vstd::prelude::*;
use crate::error::VmError;

verus! {

/// The largest word that stands for itself.
pub const MAX_LITERAL: u16 = 32767;

/// The word that selects register 0; the following words select registers 1 to 7.
pub const REGISTER_BASE: u16 = 32768;

/// Number of registers of the machine.
pub const REGISTER_COUNT: usize = 8;

/// What an operand word refers to: a value that stands for itself, or a register.
#[derive(Debug, Clone, Copy, PartialEq, Eq)]
pub enum Address {
    /// A 15-bit value, which is also a position in memory.
    Literal(u16),
    /// The index of one of the eight registers.
    Register(u16),
}

impl Address {
    /// A literal fits in 15 bits and a register index is below eight.
    pub open spec fn wf(self) -> bool {
        match self {
            Address::Literal(value) => value <= MAX_LITERAL,
            Address::Register(index) => index < REGISTER_COUNT,
        }
    }

    /// The address that an operand word resolves to, if any.
    pub open spec fn resolve(word: u16) -> Option<Address> {
        if word <= MAX_LITERAL {
            Some(Address::Literal(word))
        } else if word < REGISTER_BASE + REGISTER_COUNT {
            Some(Address::Register((word - REGISTER_BASE) as u16))
        } else {
            None
        }
    }

    /// Every resolved address is well formed.
    pub proof fn lemma_resolve_wf(word: u16)
        ensures
            Address::resolve(word) matches Some(addr) ==> addr.wf(),
    {
    }

    /// Classifies an operand word: words up to 32767 are literals, the next
    /// eight words name the registers, and every larger word is rejected.
    pub fn from(val: u16) -> (result: Result<Address, VmError>)
        ensures
            val <= 32767 ==> result == Ok::<Address, VmError>(Address::Literal(val)),
            32768 <= val <= 32775 ==> result == Ok::<Address, VmError>(
                Address::Register((val - 32768) as u16),
            ),
            val > 32775 ==> result == Err::<Address, VmError>(VmError::InvalidAddress),
            result == match Address::resolve(val) {
                Some(addr) => Ok::<Address, VmError>(addr),
                None => Err::<Address, VmError>(VmError::InvalidAddress),
            },
            result matches Ok(addr) ==> addr.wf(),
    {
        if val <= MAX_LITERAL {
            Ok(Address::Literal(val))
        } else if val <= 32775 {
            Ok(Address::Register(val - REGISTER_BASE))
        } else {
            Err(VmError::InvalidAddress)
        }
    }
}

} // verus!
