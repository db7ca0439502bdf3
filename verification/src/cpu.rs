//! The second-generation processor core: condition codes, modes, instruction
//! fields, ALU helpers and the ARM instruction decoder.

pub mod alu_instruction;
pub mod arm;
pub mod arm7tdmi;
pub mod condition;
pub mod cpu_modes;
pub mod hardware;
pub mod flags;
pub mod psr;
pub mod register_bank;
pub mod registers;
pub mod text;
pub mod swi;
pub mod execution;
