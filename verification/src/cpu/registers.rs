//! The register file of the processor core, and the numbers of its special
//! registers.
pub use crate::arm7tdmi::Registers;
use vstd::prelude::*;

verus! {

/// The stack pointer, R13.
pub const REG_SP: usize = 13;

/// The link register, R14.
pub const REG_LR: usize = 14;

/// The program counter, R15.
pub const REG_PC: u32 = 15;

} // verus!
