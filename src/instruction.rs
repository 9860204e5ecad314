use vstd::prelude::*;

use crate::machine::{VM, AC, PC, REGISTER_COUNT};
use crate::opcode::{opcode_of, operand_count, Opcode, VmError};

verus! {

/// One decoded instruction with its operands.
#[derive(Debug, Clone, Copy, PartialEq, Eq, Structural)]
pub enum Instruction {
    Halt,
    /// `reg[dst] = imm`
    SetRegImm(u64, u64),
    /// `reg[dst] = reg[src]`
    SetRegReg(u64, u64),
    /// `reg[AC] = reg[a] + reg[b]`, wrapping
    AddRegReg(u64, u64),
    /// `reg[AC] = reg[a] + imm`, wrapping
    AddRegImm(u64, u64),
    /// `reg[AC] = 0 / 1 / 2` as `reg[r]` is greater than, equal to or less than `imm`
    CmpRegImm(u64, u64),
    /// Encoded, but without execution semantics.
    JumpEq(u64),
    /// `PC = addr` unless `reg[AC] == 1`
    JumpNotEq(u64),
    /// Marks a point at which the register file is to be shown.
    DebugRegs,
}

/// 64-bit addition modulo 2^64.
pub open spec fn wrap_add(x: u64, y: u64) -> u64 {
    ((x as int + y as int) % 0x1_0000_0000_0000_0000) as u64
}

/// The condition code of comparing `v` with `imm`: 0 greater, 1 equal, 2 less.
pub open spec fn compare_code(v: u64, imm: u64) -> u64 {
    if v > imm {
        0
    } else if v == imm {
        1
    } else {
        2
    }
}

/// The instruction of kind `op` whose first and second operands are `a` and `b`
/// (operands beyond the kind's count are ignored).
pub open spec fn assemble(op: Opcode, a: u64, b: u64) -> Instruction {
    match op {
        Opcode::Halt => Instruction::Halt,
        Opcode::SetRegImm => Instruction::SetRegImm(a, b),
        Opcode::SetRegReg => Instruction::SetRegReg(a, b),
        Opcode::AddRegReg => Instruction::AddRegReg(a, b),
        Opcode::AddRegImm => Instruction::AddRegImm(a, b),
        Opcode::CmpRegImm => Instruction::CmpRegImm(a, b),
        Opcode::JumpEq => Instruction::JumpEq(a),
        Opcode::JumpNotEq => Instruction::JumpNotEq(a),
        Opcode::DebugRegs => Instruction::DebugRegs,
    }
}

/// The kind of an instruction.
pub open spec fn kind_of(ins: Instruction) -> Opcode {
    match ins {
        Instruction::Halt => Opcode::Halt,
        Instruction::SetRegImm(..) => Opcode::SetRegImm,
        Instruction::SetRegReg(..) => Opcode::SetRegReg,
        Instruction::AddRegReg(..) => Opcode::AddRegReg,
        Instruction::AddRegImm(..) => Opcode::AddRegImm,
        Instruction::CmpRegImm(..) => Opcode::CmpRegImm,
        Instruction::JumpEq(..) => Opcode::JumpEq,
        Instruction::JumpNotEq(..) => Opcode::JumpNotEq,
        Instruction::DebugRegs => Opcode::DebugRegs,
    }
}

/// The word at address `i`, or 0 where the program has none.
pub open spec fn word_or_zero(prog: Seq<u64>, i: int) -> u64 {
    if 0 <= i < prog.len() {
        prog[i]
    } else {
        0
    }
}

/// Decoding the instruction whose opcode word is at `pc`: the instruction and
/// the address just past its last operand word.
pub open spec fn decode_spec(prog: Seq<u64>, pc: u64) -> Result<(Instruction, u64), VmError> {
    if pc >= prog.len() {
        Err(VmError::AddressOutOfRange(pc))
    } else {
        match opcode_of(prog[pc as int]) {
            None => Err(VmError::UnknownOpcode(prog[pc as int])),
            Some(op) => if pc + 1 + operand_count(op) > prog.len() {
                Err(VmError::AddressOutOfRange(prog.len() as u64))
            } else {
                Ok(
                    (
                        assemble(op, word_or_zero(prog, pc + 1), word_or_zero(prog, pc + 2)),
                        (pc + 1 + operand_count(op)) as u64,
                    ),
                )
            },
        }
    }
}

/// Whether `i` names one of the registers.
pub open spec fn valid_reg(i: u64) -> bool {
    i < REGISTER_COUNT
}

/// The effect of one instruction on a register file: the new register file
/// and whether the machine goes on running.
pub open spec fn exec_spec(ins: Instruction, regs: Seq<u64>) -> Result<(Seq<u64>, bool), VmError> {
    match ins {
        Instruction::Halt => Ok((regs, false)),
        Instruction::SetRegImm(dst, imm) => if !valid_reg(dst) {
            Err(VmError::RegisterOutOfRange(dst))
        } else {
            Ok((regs.update(dst as int, imm), true))
        },
        Instruction::SetRegReg(dst, src) => if !valid_reg(dst) {
            Err(VmError::RegisterOutOfRange(dst))
        } else if !valid_reg(src) {
            Err(VmError::RegisterOutOfRange(src))
        } else {
            Ok((regs.update(dst as int, regs[src as int]), true))
        },
        Instruction::AddRegReg(a, b) => if !valid_reg(a) {
            Err(VmError::RegisterOutOfRange(a))
        } else if !valid_reg(b) {
            Err(VmError::RegisterOutOfRange(b))
        } else {
            Ok((regs.update(AC as int, wrap_add(regs[a as int], regs[b as int])), true))
        },
        Instruction::AddRegImm(a, imm) => if !valid_reg(a) {
            Err(VmError::RegisterOutOfRange(a))
        } else {
            Ok((regs.update(AC as int, wrap_add(regs[a as int], imm)), true))
        },
        Instruction::CmpRegImm(r, imm) => if !valid_reg(r) {
            Err(VmError::RegisterOutOfRange(r))
        } else {
            Ok((regs.update(AC as int, compare_code(regs[r as int], imm)), true))
        },
        Instruction::JumpEq(_) => Err(VmError::UnsupportedInstruction(Opcode::JumpEq)),
        Instruction::JumpNotEq(addr) => if regs[AC as int] != 1 {
            Ok((regs.update(PC as int, addr), true))
        } else {
            Ok((regs, true))
        },
        Instruction::DebugRegs => Ok((regs, true)),
    }
}

/// Decoding advances the program counter past the opcode word and its
/// operands: the next address is the opcode's address plus one plus the
/// opcode's operand count, whatever the instruction will go on to do.
pub proof fn lemma_decode_advances_pc(prog: Seq<u64>, pc: u64)
    requires
        prog.len() <= u64::MAX,
        decode_spec(prog, pc) is Ok,
    ensures
        opcode_of(prog[pc as int]) is Some,
        decode_spec(prog, pc)->Ok_0.1 == pc + 1 + operand_count(opcode_of(prog[pc as int])->Some_0),
        kind_of(decode_spec(prog, pc)->Ok_0.0) == opcode_of(prog[pc as int])->Some_0,
{
}

/// After `SetRegImm(d, v)` on any valid register `d`, register `d` holds `v`.
pub proof fn lemma_set_imm_then_read(regs: Seq<u64>, d: u64, v: u64)
    requires
        regs.len() == REGISTER_COUNT,
        valid_reg(d),
    ensures
        exec_spec(Instruction::SetRegImm(d, v), regs) is Ok,
        exec_spec(Instruction::SetRegImm(d, v), regs)->Ok_0.0[d as int] == v,
        exec_spec(Instruction::SetRegImm(d, v), regs)->Ok_0.1,
{
}

/// `AddRegReg(a, b)` puts `reg[a] + reg[b]`, wrapped to 64 bits, in the
/// accumulator and leaves every other register as it was, the operand
/// registers included unless one of them is the accumulator itself.
pub proof fn lemma_add_reg_reg(regs: Seq<u64>, a: u64, b: u64)
    requires
        regs.len() == REGISTER_COUNT,
        valid_reg(a),
        valid_reg(b),
    ensures
        ({
            let r = exec_spec(Instruction::AddRegReg(a, b), regs);
            &&& r is Ok
            &&& r->Ok_0.0[AC as int] == wrap_add(regs[a as int], regs[b as int])
            &&& regs[a as int] + regs[b as int] <= u64::MAX ==> r->Ok_0.0[AC as int] == regs[a as int]
                + regs[b as int]
            &&& regs[a as int] + regs[b as int] > u64::MAX ==> r->Ok_0.0[AC as int] == regs[a as int]
                + regs[b as int] - 0x1_0000_0000_0000_0000
            &&& a != AC ==> r->Ok_0.0[a as int] == regs[a as int]
            &&& b != AC ==> r->Ok_0.0[b as int] == regs[b as int]
            &&& forall|i: int| 0 <= i < REGISTER_COUNT && i != AC ==> r->Ok_0.0[i] == regs[i]
        }),
{
}

/// `CmpRegImm(r, imm)` leaves 0 in the accumulator when `reg[r] > imm`, 1 when
/// they are equal and 2 when `reg[r] < imm`.
pub proof fn lemma_compare(regs: Seq<u64>, r: u64, imm: u64)
    requires
        regs.len() == REGISTER_COUNT,
        valid_reg(r),
    ensures
        ({
            let res = exec_spec(Instruction::CmpRegImm(r, imm), regs);
            &&& res is Ok
            &&& regs[r as int] > imm ==> res->Ok_0.0[AC as int] == 0
            &&& regs[r as int] == imm ==> res->Ok_0.0[AC as int] == 1
            &&& regs[r as int] < imm ==> res->Ok_0.0[AC as int] == 2
        }),
{
}

/// `JumpNotEq(addr)` sets the program counter to `addr` when the accumulator
/// is not 1, and changes nothing when it is 1.
pub proof fn lemma_jump_not_eq(regs: Seq<u64>, addr: u64)
    requires
        regs.len() == REGISTER_COUNT,
    ensures
        ({
            let res = exec_spec(Instruction::JumpNotEq(addr), regs);
            &&& res is Ok
            &&& res->Ok_0.1
            &&& regs[AC as int] != 1 ==> res->Ok_0.0 == regs.update(PC as int, addr)
            &&& regs[AC as int] == 1 ==> res->Ok_0.0 == regs
        }),
{
}

/// Reads a register of `regs`, failing on an index outside the register file.
fn read_reg(regs: &[u64; 8], i: u64) -> (r: Result<u64, VmError>)
    ensures
        valid_reg(i) ==> r == Ok::<u64, VmError>(regs@[i as int]),
        !valid_reg(i) ==> r == Err::<u64, VmError>(VmError::RegisterOutOfRange(i)),
{
    if i < REGISTER_COUNT {
        Ok(regs[i as usize])
    } else {
        Err(VmError::RegisterOutOfRange(i))
    }
}

/// Decodes the instruction whose opcode word is at `pc`, returning it together
/// with the address of the next instruction.
pub fn decode(program: &Vec<u64>, pc: u64) -> (r: Result<(Instruction, u64), VmError>)
    ensures
        r == decode_spec(program@, pc),
        r is Ok ==> r->Ok_0.1 == pc + 1 + operand_count(kind_of(r->Ok_0.0)),
        r is Ok ==> kind_of(r->Ok_0.0) == opcode_of(program@[pc as int])->Some_0,
{
    let len = program.len() as u64;
    if pc >= len {
        return Err(VmError::AddressOutOfRange(pc));
    }
    let op = match Opcode::from_u64(program[pc as usize]) {
        Ok(op) => op,
        Err(e) => return Err(e),
    };
    let n = op.operand_count();
    if n >= len - pc {
        return Err(VmError::AddressOutOfRange(len));
    }
    let a = if n >= 1 { program[(pc + 1) as usize] } else { 0 };
    let b = if n >= 2 { program[(pc + 2) as usize] } else { 0 };
    Ok((Instruction::assemble(op, a, b), pc + 1 + n))
}

impl Instruction {
    /// The instruction of kind `op` with operands `a` and `b`.
    pub fn assemble(op: Opcode, a: u64, b: u64) -> (r: Instruction)
        ensures
            r == assemble(op, a, b),
    {
        match op {
            Opcode::Halt => Instruction::Halt,
            Opcode::SetRegImm => Instruction::SetRegImm(a, b),
            Opcode::SetRegReg => Instruction::SetRegReg(a, b),
            Opcode::AddRegReg => Instruction::AddRegReg(a, b),
            Opcode::AddRegImm => Instruction::AddRegImm(a, b),
            Opcode::CmpRegImm => Instruction::CmpRegImm(a, b),
            Opcode::JumpEq => Instruction::JumpEq(a),
            Opcode::JumpNotEq => Instruction::JumpNotEq(a),
            Opcode::DebugRegs => Instruction::DebugRegs,
        }
    }

    /// Applies this instruction to the machine's registers. Returns whether
    /// the machine goes on running; on an error the registers are unchanged.
    pub fn execute(self, vm: &mut VM) -> (r: Result<bool, VmError>)
        ensures
            final(vm).stack == old(vm).stack,
            match exec_spec(self, old(vm).registers@) {
                Ok((regs, running)) => r == Ok::<bool, VmError>(running) && final(vm).registers@
                    == regs,
                Err(e) => r == Err::<bool, VmError>(e) && final(vm).registers@ == old(
                    vm,
                ).registers@,
            },
    {
        match self {
            Instruction::SetRegImm(dst, imm) => {
                if dst >= REGISTER_COUNT {
                    return Err(VmError::RegisterOutOfRange(dst));
                }
                vm.registers[dst as usize] = imm;
            },
            Instruction::SetRegReg(dst, src) => {
                if dst >= REGISTER_COUNT {
                    return Err(VmError::RegisterOutOfRange(dst));
                }
                let v = match read_reg(&vm.registers, src) {
                    Ok(v) => v,
                    Err(e) => return Err(e),
                };
                vm.registers[dst as usize] = v;
            },
            Instruction::AddRegReg(a, b) => {
                let x = match read_reg(&vm.registers, a) {
                    Ok(v) => v,
                    Err(e) => return Err(e),
                };
                let y = match read_reg(&vm.registers, b) {
                    Ok(v) => v,
                    Err(e) => return Err(e),
                };
                vm.registers[AC as usize] = x.wrapping_add(y);
            },
            Instruction::AddRegImm(a, imm) => {
                let x = match read_reg(&vm.registers, a) {
                    Ok(v) => v,
                    Err(e) => return Err(e),
                };
                vm.registers[AC as usize] = x.wrapping_add(imm);
            },
            Instruction::CmpRegImm(reg, imm) => {
                let v = match read_reg(&vm.registers, reg) {
                    Ok(v) => v,
                    Err(e) => return Err(e),
                };
                vm.registers[AC as usize] = if v > imm {
                    0
                } else if v == imm {
                    1
                } else {
                    2
                };
            },
            Instruction::JumpEq(_) => {
                return Err(VmError::UnsupportedInstruction(Opcode::JumpEq));
            },
            Instruction::JumpNotEq(addr) => {
                if vm.registers[AC as usize] != 1 {
                    vm.registers[PC as usize] = addr;
                }
            },
            Instruction::DebugRegs => {},
            Instruction::Halt => {
                return Ok(false);
            },
        }
        Ok(true)
    }
}

} // verus!
