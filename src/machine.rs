use vstd::prelude::*;

use crate::instruction::{decode, decode_spec, exec_spec, valid_reg, Instruction};
use crate::opcode::VmError;

verus! {

/// Number of slots in the register file.
pub const REGISTER_COUNT: u64 = 8;

/// Program counter: address of the next instruction to fetch.
pub const PC: u64 = 0;

/// Stack pointer (reserved).
pub const SP: u64 = 1;

/// Accumulator and condition code.
pub const AC: u64 = 2;

/// Flags (reserved).
pub const FL: u64 = 3;

/// General-purpose register 1.
pub const R1: u64 = 4;

/// General-purpose register 2.
pub const R2: u64 = 5;

/// General-purpose register 3.
pub const R3: u64 = 6;

/// General-purpose register 4.
pub const R4: u64 = 7;

/// Size of the stack memory in bytes.
pub const STACK_SIZE: usize = 4096;

/// A machine: eight 64-bit registers and a byte stack.
pub struct VM {
    pub registers: [u64; 8],
    pub stack: [u8; STACK_SIZE],
}

/// What a step of the machine reports to whoever drives it.
#[derive(Debug, Clone, Copy, PartialEq, Eq, Structural)]
pub enum Event {
    /// An ordinary instruction ran; the machine goes on.
    Continue,
    /// A `DebugRegs` instruction ran; the register file is to be shown now.
    Debug,
    /// A `Halt` instruction ran; the machine stops.
    Halt,
}

/// One fetch-decode-execute cycle on a register file: the register file after
/// it and what the cycle reports. Once decoding succeeds the program counter
/// stays advanced, even where executing the instruction then fails.
pub open spec fn step_spec(prog: Seq<u64>, regs: Seq<u64>) -> (Seq<u64>, Result<Event, VmError>) {
    match decode_spec(prog, regs[PC as int]) {
        Err(e) => (regs, Err(e)),
        Ok((ins, next)) => {
            let advanced = regs.update(PC as int, next);
            match exec_spec(ins, advanced) {
                Err(e) => (advanced, Err(e)),
                Ok((after, running)) => (
                    after,
                    Ok(
                        if !running {
                            Event::Halt
                        } else if ins is DebugRegs {
                            Event::Debug
                        } else {
                            Event::Continue
                        },
                    ),
                ),
            }
        },
    }
}

/// Running a program from a register file for at most `fuel` cycles: the final
/// register file, and success where a `Halt` was reached.
pub open spec fn run_spec(prog: Seq<u64>, regs: Seq<u64>, fuel: nat) -> (Seq<u64>, Result<(), VmError>)
    decreases fuel,
{
    if fuel == 0 {
        (regs, Err(VmError::StepLimit))
    } else {
        let (after, outcome) = step_spec(prog, regs);
        match outcome {
            Err(e) => (after, Err(e)),
            Ok(Event::Halt) => (after, Ok(())),
            Ok(_) => run_spec(prog, after, (fuel - 1) as nat),
        }
    }
}

impl VM {
    /// A machine with every register and every stack byte zero.
    pub fn new() -> (vm: VM)
        ensures
            forall|i: int| 0 <= i < 8 ==> vm.registers@[i] == 0,
            forall|i: int| 0 <= i < STACK_SIZE ==> vm.stack@[i] == 0,
    {
        VM { registers: [0u64; 8], stack: [0u8; STACK_SIZE] }
    }

    /// The value of register `index`, or an error for an index outside the
    /// register file.
    pub fn reg(&self, index: u64) -> (r: Result<u64, VmError>)
        ensures
            valid_reg(index) ==> r == Ok::<u64, VmError>(self.registers@[index as int]),
            !valid_reg(index) ==> r == Err::<u64, VmError>(VmError::RegisterOutOfRange(index)),
    {
        if index < REGISTER_COUNT {
            Ok(self.registers[index as usize])
        } else {
            Err(VmError::RegisterOutOfRange(index))
        }
    }

    /// The program counter.
    pub fn pc(&self) -> (r: u64)
        ensures
            r == self.registers@[PC as int],
    {
        self.registers[PC as usize]
    }

    /// The accumulator.
    pub fn ac(&self) -> (r: u64)
        ensures
            r == self.registers@[AC as int],
    {
        self.registers[AC as usize]
    }

    /// Runs one fetch-decode-execute cycle of `program`.
    pub fn step(&mut self, program: &Vec<u64>) -> (r: Result<Event, VmError>)
        ensures
            (final(self).registers@, r) == step_spec(program@, old(self).registers@),
            final(self).stack == old(self).stack,
    {
        let (ins, next) = match decode(program, self.registers[PC as usize]) {
            Ok(d) => d,
            Err(e) => return Err(e),
        };
        self.registers[PC as usize] = next;
        let is_debug = match ins {
            Instruction::DebugRegs => true,
            _ => false,
        };
        match ins.execute(self) {
            Err(e) => Err(e),
            Ok(false) => Ok(Event::Halt),
            Ok(true) => Ok(
                if is_debug {
                    Event::Debug
                } else {
                    Event::Continue
                },
            ),
        }
    }

    /// Runs `program` until it halts, fails, or has run `max_steps` cycles
    /// without halting (then `StepLimit`). Registers changed before a failure
    /// keep their values.
    pub fn run(&mut self, program: &Vec<u64>, max_steps: u64) -> (r: Result<(), VmError>)
        ensures
            (final(self).registers@, r) == run_spec(program@, old(self).registers@, max_steps as nat),
            final(self).stack == old(self).stack,
    {
        let ghost start = self.registers@;
        let ghost stack0 = self.stack;
        let mut remaining: u64 = max_steps;
        loop
            invariant
                run_spec(program@, self.registers@, remaining as nat) == run_spec(
                    program@,
                    start,
                    max_steps as nat,
                ),
                self.stack == stack0,
                start == old(self).registers@,
                stack0 == old(self).stack,
            decreases remaining,
        {
            if remaining == 0 {
                return Err(VmError::StepLimit);
            }
            match self.step(program) {
                Err(e) => return Err(e),
                Ok(Event::Halt) => return Ok(()),
                Ok(_) => {},
            }
            remaining = remaining - 1;
        }
    }

    /// Runs `program` from the current registers until a `Halt` or a failure.
    /// The run is bounded by `u64::MAX` cycles, after which it reports
    /// `StepLimit`.
    pub fn execute(&mut self, bytecode: Vec<u64>) -> (r: Result<(), VmError>)
        ensures
            (final(self).registers@, r) == run_spec(bytecode@, old(self).registers@, u64::MAX as nat),
            final(self).stack == old(self).stack,
    {
        self.run(&bytecode, u64::MAX)
    }
}

} // verus!
