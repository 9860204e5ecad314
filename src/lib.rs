//! A small register machine: a decoder from 64-bit words to instructions, an
//! executor that applies one instruction to an eight-slot register file, and a
//! fetch-decode-execute loop that runs a program until it halts.

pub mod instruction;
pub mod machine;
pub mod opcode;

pub use instruction::{decode, Instruction};
pub use machine::{Event, VM};
pub use opcode::{Opcode, VmError};
