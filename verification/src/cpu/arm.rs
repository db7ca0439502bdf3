//! The ARM (32-bit) instruction set: ALU operations with the barrel shifter,
//! and the instruction decoder.

pub mod alu_instruction;
pub mod instructions;
pub mod mode;
pub mod operations;
pub mod psr_transfer;
pub mod block_transfer;
