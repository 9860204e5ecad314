use vstd::prelude::*;

verus! {

/// The nine instruction kinds, in the order of their numeric codes 0 to 8.
#[derive(Debug, Clone, Copy, PartialEq, Eq, Structural)]
pub enum Opcode {
    Halt,
    SetRegImm,
    SetRegReg,
    AddRegReg,
    AddRegImm,
    CmpRegImm,
    JumpEq,
    JumpNotEq,
    DebugRegs,
}

/// The ways in which decoding or executing a program can fail.
#[derive(Debug, Clone, Copy, PartialEq, Eq, Structural)]
pub enum VmError {
    /// The word at the program counter names no opcode.
    UnknownOpcode(u64),
    /// An opcode or operand word would be read from outside the program.
    AddressOutOfRange(u64),
    /// An instruction names a register index outside `0..8`.
    RegisterOutOfRange(u64),
    /// The opcode is part of the encoding but has no execution semantics.
    UnsupportedInstruction(Opcode),
    /// The step budget of a bounded run was used up before a halt.
    StepLimit,
}

/// The numeric code of an opcode.
pub open spec fn code_of(op: Opcode) -> u64 {
    match op {
        Opcode::Halt => 0,
        Opcode::SetRegImm => 1,
        Opcode::SetRegReg => 2,
        Opcode::AddRegReg => 3,
        Opcode::AddRegImm => 4,
        Opcode::CmpRegImm => 5,
        Opcode::JumpEq => 6,
        Opcode::JumpNotEq => 7,
        Opcode::DebugRegs => 8,
    }
}

/// How many operand words follow the opcode word in the encoding.
pub open spec fn operand_count(op: Opcode) -> nat {
    match op {
        Opcode::Halt | Opcode::DebugRegs => 0,
        Opcode::JumpEq | Opcode::JumpNotEq => 1,
        _ => 2,
    }
}

/// The opcode that a raw word names, if any.
pub open spec fn opcode_of(w: u64) -> Option<Opcode> {
    if w == 0 {
        Some(Opcode::Halt)
    } else if w == 1 {
        Some(Opcode::SetRegImm)
    } else if w == 2 {
        Some(Opcode::SetRegReg)
    } else if w == 3 {
        Some(Opcode::AddRegReg)
    } else if w == 4 {
        Some(Opcode::AddRegImm)
    } else if w == 5 {
        Some(Opcode::CmpRegImm)
    } else if w == 6 {
        Some(Opcode::JumpEq)
    } else if w == 7 {
        Some(Opcode::JumpNotEq)
    } else if w == 8 {
        Some(Opcode::DebugRegs)
    } else {
        None
    }
}

impl Opcode {
    /// Resolves a raw word to its opcode, or fails with the word itself.
    pub fn from_u64(input: u64) -> (r: Result<Opcode, VmError>)
        ensures
            input <= 8 ==> r is Ok && code_of(r->Ok_0) == input,
            input > 8 ==> r == Err::<Opcode, VmError>(VmError::UnknownOpcode(input)),
            r == match opcode_of(input) {
                Some(op) => Ok::<Opcode, VmError>(op),
                None => Err(VmError::UnknownOpcode(input)),
            },
    {
        match input {
            0 => Ok(Opcode::Halt),
            1 => Ok(Opcode::SetRegImm),
            2 => Ok(Opcode::SetRegReg),
            3 => Ok(Opcode::AddRegReg),
            4 => Ok(Opcode::AddRegImm),
            5 => Ok(Opcode::CmpRegImm),
            6 => Ok(Opcode::JumpEq),
            7 => Ok(Opcode::JumpNotEq),
            8 => Ok(Opcode::DebugRegs),
            _ => Err(VmError::UnknownOpcode(input)),
        }
    }

    /// How many operand words follow this opcode's word in a program.
    pub fn operand_count(&self) -> (r: u64)
        ensures
            r == operand_count(*self),
    {
        match self {
            Opcode::Halt | Opcode::DebugRegs => 0,
            Opcode::JumpEq | Opcode::JumpNotEq => 1,
            _ => 2,
        }
    }

    /// The numeric code of this opcode.
    pub fn code(&self) -> (r: u64)
        ensures
            r == code_of(*self),
    {
        match self {
            Opcode::Halt => 0,
            Opcode::SetRegImm => 1,
            Opcode::SetRegReg => 2,
            Opcode::AddRegReg => 3,
            Opcode::AddRegImm => 4,
            Opcode::CmpRegImm => 5,
            Opcode::JumpEq => 6,
            Opcode::JumpNotEq => 7,
            Opcode::DebugRegs => 8,
        }
    }
}

/// Decoding a word yields exactly the opcode whose code it is, for every code
/// from 0 to 8, and nothing for any larger word.
pub proof fn lemma_decode_opcode(w: u64)
    ensures
        w <= 8 ==> opcode_of(w) is Some && code_of(opcode_of(w)->Some_0) == w,
        w > 8 ==> opcode_of(w) is None,
{
}

/// Every opcode's code decodes back to that opcode.
pub proof fn lemma_code_round_trip(op: Opcode)
    ensures
        code_of(op) <= 8,
        opcode_of(code_of(op)) == Some(op),
{
}

} // verus!
