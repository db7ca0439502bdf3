//! Verified core of a Game Boy Advance emulator: bit helpers, the ARM status
//! register, instruction decoding, the barrel shifter and the cartridge header.

pub mod bitwise;
pub mod arm;
pub mod cpsr;
pub mod arm7tdmi;
pub mod cpu;
pub mod bus;
pub mod cartridge_header;
