use regvm::instruction::Instruction;
use regvm::machine::{AC, PC, R1, R2, R3, R4};
use regvm::{decode, Event, Opcode, VmError, VM};

fn fibonacci_program() -> Vec<u64> {
    vec![
        Opcode::SetRegImm.code(), R1, 0,
        Opcode::SetRegImm.code(), R2, 1,
        Opcode::SetRegImm.code(), R3, 0,
        // loop:
        Opcode::AddRegReg.code(), R1, R2,
        Opcode::SetRegReg.code(), R1, R2,
        Opcode::SetRegReg.code(), R2, AC,
        Opcode::AddRegImm.code(), R3, 1,
        Opcode::SetRegReg.code(), R3, AC,
        Opcode::CmpRegImm.code(), R3, 55,
        Opcode::JumpNotEq.code(), 9,
        Opcode::DebugRegs.code(),
        Opcode::Halt.code(),
    ]
}

fn vm_with(regs: [u64; 8]) -> VM {
    let mut vm = VM::new();
    vm.registers = regs;
    vm
}

#[test]
fn opcode_words_zero_to_eight_decode_in_order() {
    let expected = [
        Opcode::Halt,
        Opcode::SetRegImm,
        Opcode::SetRegReg,
        Opcode::AddRegReg,
        Opcode::AddRegImm,
        Opcode::CmpRegImm,
        Opcode::JumpEq,
        Opcode::JumpNotEq,
        Opcode::DebugRegs,
    ];
    for (w, op) in expected.iter().enumerate() {
        assert_eq!(Opcode::from_u64(w as u64), Ok(*op));
        assert_eq!(op.code(), w as u64);
    }
}

#[test]
fn other_words_are_unknown_opcodes() {
    for w in [9u64, 10, 99, 1 << 40, u64::MAX] {
        assert_eq!(Opcode::from_u64(w), Err(VmError::UnknownOpcode(w)));
    }
}

#[test]
fn operand_counts() {
    assert_eq!(Opcode::Halt.operand_count(), 0);
    assert_eq!(Opcode::DebugRegs.operand_count(), 0);
    assert_eq!(Opcode::JumpEq.operand_count(), 1);
    assert_eq!(Opcode::JumpNotEq.operand_count(), 1);
    assert_eq!(Opcode::SetRegImm.operand_count(), 2);
    assert_eq!(Opcode::CmpRegImm.operand_count(), 2);
}

#[test]
fn decode_advances_past_operands() {
    let prog = vec![1, 4, 7, 7, 3, 8, 0, 6, 12];
    assert_eq!(decode(&prog, 0), Ok((Instruction::SetRegImm(4, 7), 3)));
    assert_eq!(decode(&prog, 3), Ok((Instruction::JumpNotEq(3), 5)));
    assert_eq!(decode(&prog, 5), Ok((Instruction::DebugRegs, 6)));
    assert_eq!(decode(&prog, 6), Ok((Instruction::Halt, 7)));
    assert_eq!(decode(&prog, 7), Ok((Instruction::JumpEq(12), 9)));
}

#[test]
fn decode_out_of_range() {
    let prog = vec![1, 4];
    assert_eq!(decode(&prog, 0), Err(VmError::AddressOutOfRange(2)));
    assert_eq!(decode(&prog, 5), Err(VmError::AddressOutOfRange(5)));
    assert_eq!(decode(&vec![], 0), Err(VmError::AddressOutOfRange(0)));
}

#[test]
fn step_leaves_pc_after_instruction() {
    let prog = vec![4, 5, 1, 0];
    let mut vm = VM::new();
    assert_eq!(vm.step(&prog), Ok(Event::Continue));
    assert_eq!(vm.pc(), 3);
    assert_eq!(vm.step(&prog), Ok(Event::Halt));
    assert_eq!(vm.pc(), 4);
}

#[test]
fn set_reg_imm_then_read() {
    for d in 0u64..8 {
        for v in [0u64, 1, 42, u64::MAX] {
            let mut vm = VM::new();
            assert_eq!(Instruction::SetRegImm(d, v).execute(&mut vm), Ok(true));
            assert_eq!(vm.reg(d), Ok(v));
        }
    }
}

#[test]
fn set_reg_reg_copies() {
    let mut vm = vm_with([0, 0, 17, 0, 0, 0, 0, 0]);
    assert_eq!(Instruction::SetRegReg(R4, AC).execute(&mut vm), Ok(true));
    assert_eq!(vm.registers, [0, 0, 17, 0, 0, 0, 0, 17]);
}

#[test]
fn add_reg_reg_writes_accumulator() {
    let mut vm = vm_with([0, 0, 0, 0, 20, 22, 0, 0]);
    assert_eq!(Instruction::AddRegReg(R1, R2).execute(&mut vm), Ok(true));
    assert_eq!(vm.registers, [0, 0, 42, 0, 20, 22, 0, 0]);
}

#[test]
fn add_reg_reg_wraps() {
    let mut vm = vm_with([0, 0, 0, 0, u64::MAX, 3, 0, 0]);
    assert_eq!(Instruction::AddRegReg(R1, R2).execute(&mut vm), Ok(true));
    assert_eq!(vm.ac(), 2);
    assert_eq!(vm.reg(R1), Ok(u64::MAX));
    assert_eq!(vm.reg(R2), Ok(3));
}

#[test]
fn add_reg_imm_writes_accumulator() {
    let mut vm = vm_with([0, 0, 0, 0, 0, 0, 9, 0]);
    assert_eq!(Instruction::AddRegImm(R3, 1).execute(&mut vm), Ok(true));
    assert_eq!(vm.registers, [0, 0, 10, 0, 0, 0, 9, 0]);
    let mut vm = vm_with([0, 0, 0, 0, 0, 0, u64::MAX, 0]);
    assert_eq!(Instruction::AddRegImm(R3, 1).execute(&mut vm), Ok(true));
    assert_eq!(vm.ac(), 0);
}

#[test]
fn compare_greater_equal_less() {
    for (v, expected) in [(5u64, 0u64), (3, 1), (1, 2)] {
        let mut vm = vm_with([0, 0, 9, 0, v, 0, 0, 0]);
        assert_eq!(Instruction::CmpRegImm(R1, 3).execute(&mut vm), Ok(true));
        assert_eq!(vm.ac(), expected);
        assert_eq!(vm.reg(R1), Ok(v));
    }
}

#[test]
fn jump_not_eq_taken_unless_equal() {
    for ac in [0u64, 2] {
        let mut vm = vm_with([11, 0, ac, 0, 0, 0, 0, 0]);
        assert_eq!(Instruction::JumpNotEq(4).execute(&mut vm), Ok(true));
        assert_eq!(vm.pc(), 4);
    }
    let mut vm = vm_with([11, 0, 1, 0, 0, 0, 0, 0]);
    assert_eq!(Instruction::JumpNotEq(4).execute(&mut vm), Ok(true));
    assert_eq!(vm.pc(), 11);
}

#[test]
fn halt_and_debug_leave_registers() {
    let regs = [3, 1, 4, 1, 5, 9, 2, 6];
    let mut vm = vm_with(regs);
    assert_eq!(Instruction::Halt.execute(&mut vm), Ok(false));
    assert_eq!(Instruction::DebugRegs.execute(&mut vm), Ok(true));
    assert_eq!(vm.registers, regs);
}

#[test]
fn register_index_out_of_range() {
    let mut vm = VM::new();
    assert_eq!(Instruction::SetRegImm(8, 1).execute(&mut vm), Err(VmError::RegisterOutOfRange(8)));
    assert_eq!(Instruction::SetRegReg(0, 9).execute(&mut vm), Err(VmError::RegisterOutOfRange(9)));
    assert_eq!(Instruction::AddRegReg(4, 100).execute(&mut vm), Err(VmError::RegisterOutOfRange(100)));
    assert_eq!(Instruction::CmpRegImm(u64::MAX, 0).execute(&mut vm), Err(VmError::RegisterOutOfRange(u64::MAX)));
    assert_eq!(vm.registers, [0; 8]);
    assert_eq!(vm.reg(8), Err(VmError::RegisterOutOfRange(8)));
}

#[test]
fn jump_eq_is_unsupported() {
    let mut vm = VM::new();
    assert_eq!(vm.execute(vec![6, 0]), Err(VmError::UnsupportedInstruction(Opcode::JumpEq)));
    assert_eq!(vm.pc(), 2);
}

#[test]
fn fibonacci_program_reports_at_debug() {
    let prog = fibonacci_program();
    let mut vm = VM::new();
    let mut events = Vec::new();
    loop {
        let event = vm.step(&prog).unwrap();
        if event == Event::Debug {
            assert_eq!(vm.registers, [30, 0, 1, 0, 139583862445, 225851433717, 55, 0]);
        }
        events.push(event);
        if event == Event::Halt {
            break;
        }
    }
    assert_eq!(events.iter().filter(|e| **e == Event::Debug).count(), 1);
    assert_eq!(vm.registers, [31, 0, 1, 0, 139583862445, 225851433717, 55, 0]);
}

#[test]
fn fibonacci_program_executes_to_halt() {
    let mut vm = VM::new();
    assert_eq!(vm.execute(fibonacci_program()), Ok(()));
    assert_eq!(vm.reg(R1), Ok(139583862445));
    assert_eq!(vm.reg(R2), Ok(225851433717));
    assert_eq!(vm.reg(R3), Ok(55));
}

#[test]
fn halt_only_program() {
    let mut vm = VM::new();
    assert_eq!(vm.execute(vec![0]), Ok(()));
    assert_eq!(vm.registers, [1, 0, 0, 0, 0, 0, 0, 0]);
    assert!(vm.stack.iter().all(|b| *b == 0));
}

#[test]
fn unknown_first_word() {
    let mut vm = VM::new();
    assert_eq!(vm.execute(vec![99]), Err(VmError::UnknownOpcode(99)));
    assert_eq!(vm.registers, [0; 8]);
}

#[test]
fn jump_past_end_is_out_of_range() {
    let mut vm = VM::new();
    assert_eq!(vm.execute(vec![7, 40]), Err(VmError::AddressOutOfRange(40)));
    assert_eq!(vm.pc(), 40);
}

#[test]
fn missing_operand_is_out_of_range() {
    let mut vm = VM::new();
    assert_eq!(vm.execute(vec![8, 1, 4]), Err(VmError::AddressOutOfRange(3)));
    assert_eq!(vm.pc(), 1);
}

#[test]
fn bounded_run_stops_an_endless_loop() {
    let mut vm = VM::new();
    assert_eq!(vm.run(&vec![7, 0], 1000), Err(VmError::StepLimit));
    assert_eq!(vm.pc(), 0);
    let mut vm = VM::new();
    assert_eq!(vm.run(&vec![0], 0), Err(VmError::StepLimit));
    assert_eq!(vm.pc(), 0);
    assert_eq!(vm.run(&vec![0], 1), Ok(()));
    assert_eq!(vm.pc(), 1);
}
