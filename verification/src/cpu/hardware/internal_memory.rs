//! The memories inside the console and on the game pak: BIOS, work RAMs,
//! cartridge ROM and cartridge save RAM.
use crate::cpu::hardware::{all_zero, zeroed};
use vstd::prelude::*;

verus! {

/// BIOS (16 KB at 0x0000_0000), on-board work RAM (256 KB, repeated through
/// 0x0200_0000 ..= 0x02FF_FFFF), in-chip work RAM (32 KB, repeated through
/// 0x0300_0000 ..= 0x03FF_FFFF), the game pak ROM (up to 32 MB, seen at
/// 0x0800_0000, 0x0A00_0000 and 0x0C00_0000) and the game pak save RAM
/// (64 KB at 0x0E00_0000). BIOS and ROM ignore writes.
pub struct InternalMemory {
    pub bios: Vec<u8>,
    pub working_ram: Vec<u8>,
    pub working_iram: Vec<u8>,
    pub rom: Vec<u8>,
    pub sram: Vec<u8>,
}

/// Where the game pak ROM's byte for `address` lies in the ROM image.
pub open spec fn rom_offset(address: usize) -> int {
    (address - 0x0800_0000) % 0x200_0000
}

impl InternalMemory {
    /// Each memory has its hardware size; the ROM at most 32 MB.
    pub open spec fn wf(&self) -> bool {
        &&& self.bios.len() == 0x4000
        &&& self.working_ram.len() == 0x4_0000
        &&& self.working_iram.len() == 0x8000
        &&& self.rom.len() <= 0x200_0000
        &&& self.sram.len() == 0x1_0000
    }

    /// The byte at `address`: zero past the end of the ROM and outside the
    /// memories.
    pub open spec fn byte_at(self, address: usize) -> u8 {
        if address <= 0x3FFF {
            self.bios@[address as int]
        } else if 0x0200_0000 <= address <= 0x02FF_FFFF {
            self.working_ram@[(address % 0x4_0000) as int]
        } else if 0x0300_0000 <= address <= 0x03FF_FFFF {
            self.working_iram@[(address % 0x8000) as int]
        } else if 0x0800_0000 <= address <= 0x0DFF_FFFF {
            if rom_offset(address) < self.rom.len() {
                self.rom@[rom_offset(address)]
            } else {
                0
            }
        } else if 0x0E00_0000 <= address <= 0x0E00_FFFF {
            self.sram@[address - 0x0E00_0000]
        } else {
            0
        }
    }

    /// `new` is `self` after writing `value` at `address`: the work RAMs and
    /// the save RAM store it, and nothing else changes.
    pub open spec fn stores(self, new: Self, address: usize, value: u8) -> bool {
        &&& new.bios == self.bios
        &&& new.rom == self.rom
        &&& new.working_ram@ == if 0x0200_0000 <= address <= 0x02FF_FFFF {
            self.working_ram@.update((address % 0x4_0000) as int, value)
        } else {
            self.working_ram@
        }
        &&& new.working_iram@ == if 0x0300_0000 <= address <= 0x03FF_FFFF {
            self.working_iram@.update((address % 0x8000) as int, value)
        } else {
            self.working_iram@
        }
        &&& new.sram@ == if 0x0E00_0000 <= address <= 0x0E00_FFFF {
            self.sram@.update(address - 0x0E00_0000, value)
        } else {
            self.sram@
        }
    }

    /// A console with the given BIOS image and game pak ROM, and cleared RAMs.
    pub fn new(bios: Vec<u8>, rom: Vec<u8>) -> (r: Self)
        requires
            bios.len() == 0x4000,
            rom.len() <= 0x200_0000,
        ensures
            r.wf(),
            r.bios == bios,
            r.rom == rom,
            all_zero(r.working_ram@),
            all_zero(r.working_iram@),
            all_zero(r.sram@),
    {
        InternalMemory {
            bios,
            working_ram: zeroed(0x4_0000),
            working_iram: zeroed(0x8000),
            rom,
            sram: zeroed(0x1_0000),
        }
    }

    /// The byte at `address`.
    pub fn read_at(&self, address: usize) -> (r: u8)
        requires
            self.wf(),
        ensures
            r == self.byte_at(address),
    {
        if address <= 0x3FFF {
            self.bios[address]
        } else if 0x0200_0000 <= address && address <= 0x02FF_FFFF {
            self.working_ram[address % 0x4_0000]
        } else if 0x0300_0000 <= address && address <= 0x03FF_FFFF {
            self.working_iram[address % 0x8000]
        } else if 0x0800_0000 <= address && address <= 0x0DFF_FFFF {
            let offset = (address - 0x0800_0000) % 0x200_0000;
            if offset < self.rom.len() {
                self.rom[offset]
            } else {
                0
            }
        } else if 0x0E00_0000 <= address && address <= 0x0E00_FFFF {
            self.sram[address - 0x0E00_0000]
        } else {
            0
        }
    }

    /// Writes `value` at `address` where a RAM lies there.
    pub fn write_at(&mut self, address: usize, value: u8)
        requires
            old(self).wf(),
        ensures
            final(self).wf(),
            old(self).stores(*final(self), address, value),
    {
        if 0x0200_0000 <= address && address <= 0x02FF_FFFF {
            self.working_ram[address % 0x4_0000] = value;
        } else if 0x0300_0000 <= address && address <= 0x03FF_FFFF {
            self.working_iram[address % 0x8000] = value;
        } else if 0x0E00_0000 <= address && address <= 0x0E00_FFFF {
            self.sram[address - 0x0E00_0000] = value;
        }
    }
}

impl Default for InternalMemory {
    /// A zero-filled BIOS, no game pak ROM and cleared RAMs.
    fn default() -> (r: Self)
        ensures
            r.wf(),
            all_zero(r.bios@),
            r.rom@.len() == 0,
            all_zero(r.working_ram@),
            all_zero(r.working_iram@),
            all_zero(r.sram@),
    {
        InternalMemory {
            bios: zeroed(0x4000),
            working_ram: zeroed(0x4_0000),
            working_iram: zeroed(0x8000),
            rom: Vec::new(),
            sram: zeroed(0x1_0000),
        }
    }
}

} // verus!
