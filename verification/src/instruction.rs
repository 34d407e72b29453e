use vstd::prelude::*;
use crate::address::Address;
use crate::error::VmError;

verus! {

/// One decoded instruction with its resolved operands.
#[derive(Debug, Clone, Copy, PartialEq, Eq)]
pub enum Instruction {
    Halt,
    SetReg { op1: Address, op2: Address },
    Push { op1: Address },
    Pop { op1: Address },
    Eq { op1: Address, op2: Address, op3: Address },
    Gt { op1: Address, op2: Address, op3: Address },
    Jmp { op1: Address },
    Jt { op1: Address, op2: Address },
    Jf { op1: Address, op2: Address },
    Add { op1: Address, op2: Address, op3: Address },
    Mult { op1: Address, op2: Address, op3: Address },
    Mod { op1: Address, op2: Address, op3: Address },
    And { op1: Address, op2: Address, op3: Address },
    Or { op1: Address, op2: Address, op3: Address },
    Not { op1: Address, op2: Address },
    Rmem { op1: Address, op2: Address },
    Wmem { op1: Address, op2: Address },
    Call { op1: Address },
    Ret,
    Out { op1: Address },
    In { op1: Address },
    Noop,
}

/// Number of operand words that follow an opcode, or `None` for a word that
/// is no opcode.
pub open spec fn operand_count(opcode: u16) -> Option<nat> {
    if opcode == 0 || opcode == 18 || opcode == 21 {
        Some(0)
    } else if opcode == 2 || opcode == 3 || opcode == 6 || opcode == 17 || opcode == 19 || opcode
        == 20 {
        Some(1)
    } else if opcode == 1 || opcode == 7 || opcode == 8 || opcode == 14 || opcode == 15 || opcode
        == 16 {
        Some(2)
    } else if opcode == 4 || opcode == 5 || 9 <= opcode <= 13 {
        Some(3)
    } else {
        None
    }
}

/// The instruction that a known opcode forms with its operands. Operands
/// beyond the opcode's count are ignored.
pub open spec fn assemble(opcode: u16, op1: Address, op2: Address, op3: Address) -> Instruction {
    match opcode {
        0 => Instruction::Halt,
        1 => Instruction::SetReg { op1, op2 },
        2 => Instruction::Push { op1 },
        3 => Instruction::Pop { op1 },
        4 => Instruction::Eq { op1, op2, op3 },
        5 => Instruction::Gt { op1, op2, op3 },
        6 => Instruction::Jmp { op1 },
        7 => Instruction::Jt { op1, op2 },
        8 => Instruction::Jf { op1, op2 },
        9 => Instruction::Add { op1, op2, op3 },
        10 => Instruction::Mult { op1, op2, op3 },
        11 => Instruction::Mod { op1, op2, op3 },
        12 => Instruction::And { op1, op2, op3 },
        13 => Instruction::Or { op1, op2, op3 },
        14 => Instruction::Not { op1, op2 },
        15 => Instruction::Rmem { op1, op2 },
        16 => Instruction::Wmem { op1, op2 },
        17 => Instruction::Call { op1 },
        18 => Instruction::Ret,
        19 => Instruction::Out { op1 },
        20 => Instruction::In { op1 },
        _ => Instruction::Noop,
    }
}

/// The `k`-th operand of the instruction at `pc`: the word `k` places after
/// the opcode, resolved. `None` when that place lies outside memory or the
/// word there is no address.
pub open spec fn operand(memory: Seq<u16>, pc: int, k: int) -> Option<Address> {
    if 0 <= pc + k < memory.len() {
        Address::resolve(memory[pc + k])
    } else {
        None
    }
}

/// What decoding at `pc` yields: the instruction and the number of words it
/// occupies, or the reason why there is no instruction there.
///
/// The opcode is judged first, so a word that is no opcode is reported as
/// such whatever follows it. Then the operands are read in order.
pub open spec fn decode(memory: Seq<u16>, pc: int) -> Result<(Instruction, nat), VmError> {
    if !(0 <= pc < memory.len()) {
        Err(VmError::InvalidAddress)
    } else {
        match operand_count(memory[pc]) {
            None => Err(VmError::InvalidOpcode { opcode: memory[pc], position: pc as usize }),
            Some(count) => {
                let op1 = operand(memory, pc, 1);
                let op2 = operand(memory, pc, 2);
                let op3 = operand(memory, pc, 3);
                if (count >= 1 && op1 is None) || (count >= 2 && op2 is None) || (count >= 3 && op3
                    is None) {
                    Err(VmError::InvalidAddress)
                } else {
                    Ok(
                        (
                            assemble(memory[pc], op1.unwrap(), op2.unwrap(), op3.unwrap()),
                            count + 1,
                        ),
                    )
                }
            },
        }
    }
}

impl Instruction {
    /// Every operand is a well-formed address.
    pub open spec fn wf(self) -> bool {
        match self {
            Instruction::Halt | Instruction::Ret | Instruction::Noop => true,
            Instruction::Push { op1 }
            | Instruction::Pop { op1 }
            | Instruction::Jmp { op1 }
            | Instruction::Call { op1 }
            | Instruction::Out { op1 }
            | Instruction::In { op1 } => op1.wf(),
            Instruction::SetReg { op1, op2 }
            | Instruction::Jt { op1, op2 }
            | Instruction::Jf { op1, op2 }
            | Instruction::Not { op1, op2 }
            | Instruction::Rmem { op1, op2 }
            | Instruction::Wmem { op1, op2 } => op1.wf() && op2.wf(),
            Instruction::Eq { op1, op2, op3 }
            | Instruction::Gt { op1, op2, op3 }
            | Instruction::Add { op1, op2, op3 }
            | Instruction::Mult { op1, op2, op3 }
            | Instruction::Mod { op1, op2, op3 }
            | Instruction::And { op1, op2, op3 }
            | Instruction::Or { op1, op2, op3 } => op1.wf() && op2.wf() && op3.wf(),
        }
    }

    /// Reads the operand `k` places after the opcode at `index`.
    fn operand_at(data: &Vec<u16>, index: usize, k: usize) -> (result: Result<Address, VmError>)
        requires
            index < data.len(),
            1 <= k <= 3,
        ensures
            result == match operand(data@, index as int, k as int) {
                Some(addr) => Ok::<Address, VmError>(addr),
                None => Err::<Address, VmError>(VmError::InvalidAddress),
            },
    {
        if data.len() - index > k {
            Address::from(data[index + k])
        } else {
            Err(VmError::InvalidAddress)
        }
    }

    /// Decodes the instruction whose opcode stands at `index`, and tells how
    /// many words it occupies.
    ///
    /// Fails with `InvalidOpcode` when the word at `index` is no opcode, and
    /// with `InvalidAddress` when `index` or an operand lies outside `data`, or
    /// an operand word is no address.
    pub fn decoder(data: &Vec<u16>, index: usize) -> (result: Result<(Instruction, usize), VmError>)
        ensures
            match result {
                Ok((instruction, length)) => decode(data@, index as int) == Ok::<
                    (Instruction, nat),
                    VmError,
                >((instruction, length as nat)) && instruction.wf() && 1 <= length <= 4 && index
                    + length <= data.len(),
                Err(error) => decode(data@, index as int) == Err::<(Instruction, nat), VmError>(
                    error,
                ),
            },
            index < data.len() && operand_count(data[index as int]) is None ==> result == Err::<
                (Instruction, usize),
                VmError,
            >(VmError::InvalidOpcode { opcode: data[index as int], position: index }),
            index >= data.len() ==> result == Err::<(Instruction, usize), VmError>(
                VmError::InvalidAddress,
            ),
    {
        if index >= data.len() {
            return Err(VmError::InvalidAddress);
        }
        let opcode = data[index];
        match opcode {
            0 => Ok((Instruction::Halt, 1)),
            18 => Ok((Instruction::Ret, 1)),
            21 => Ok((Instruction::Noop, 1)),
            2 | 3 | 6 | 17 | 19 | 20 => {
                let op1 = match Instruction::operand_at(data, index, 1) {
                    Ok(addr) => addr,
                    Err(error) => { return Err(error); },
                };
                let instruction = match opcode {
                    2 => Instruction::Push { op1 },
                    3 => Instruction::Pop { op1 },
                    6 => Instruction::Jmp { op1 },
                    17 => Instruction::Call { op1 },
                    19 => Instruction::Out { op1 },
                    _ => Instruction::In { op1 },
                };
                Ok((instruction, 2))
            },
            1 | 7 | 8 | 14 | 15 | 16 => {
                let op1 = match Instruction::operand_at(data, index, 1) {
                    Ok(addr) => addr,
                    Err(error) => { return Err(error); },
                };
                let op2 = match Instruction::operand_at(data, index, 2) {
                    Ok(addr) => addr,
                    Err(error) => { return Err(error); },
                };
                let instruction = match opcode {
                    1 => Instruction::SetReg { op1, op2 },
                    7 => Instruction::Jt { op1, op2 },
                    8 => Instruction::Jf { op1, op2 },
                    14 => Instruction::Not { op1, op2 },
                    15 => Instruction::Rmem { op1, op2 },
                    _ => Instruction::Wmem { op1, op2 },
                };
                Ok((instruction, 3))
            },
            4 | 5 | 9 | 10 | 11 | 12 | 13 => {
                let op1 = match Instruction::operand_at(data, index, 1) {
                    Ok(addr) => addr,
                    Err(error) => { return Err(error); },
                };
                let op2 = match Instruction::operand_at(data, index, 2) {
                    Ok(addr) => addr,
                    Err(error) => { return Err(error); },
                };
                let op3 = match Instruction::operand_at(data, index, 3) {
                    Ok(addr) => addr,
                    Err(error) => { return Err(error); },
                };
                let instruction = match opcode {
                    4 => Instruction::Eq { op1, op2, op3 },
                    5 => Instruction::Gt { op1, op2, op3 },
                    9 => Instruction::Add { op1, op2, op3 },
                    10 => Instruction::Mult { op1, op2, op3 },
                    11 => Instruction::Mod { op1, op2, op3 },
                    12 => Instruction::And { op1, op2, op3 },
                    _ => Instruction::Or { op1, op2, op3 },
                };
                Ok((instruction, 4))
            },
            _ => Err(VmError::InvalidOpcode { opcode, position: index }),
        }
    }
}

} // verus!
