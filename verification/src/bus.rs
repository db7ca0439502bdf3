//! The memory bus between the processor and every memory and I/O block.
//!
//! The bus decodes a 32-bit address and routes a byte access to the block
//! that lies there:
//!
//! | Address range             | Block                                   |
//! |---------------------------|-----------------------------------------|
//! | `0x0000_0000-0x0000_3FFF` | BIOS, readable only while running in it |
//! | `0x0200_0000-0x03FF_FFFF` | work RAMs                               |
//! | `0x0400_0000-0x0400_005F` | LCD registers                           |
//! | `0x0400_0060-0x0400_00AF` | sound registers and wave RAM            |
//! | `0x0400_00B0-0x0400_00FF` | DMA registers                           |
//! | `0x0400_0100-0x0400_011F` | timer registers                         |
//! | `0x0400_0120-0x0400_01FF` | serial and keypad registers             |
//! | `0x0400_0200-0x04FF_FFFF` | interrupt and system control            |
//! | `0x0500_0000-0x05FF_FFFF` | palette RAM, repeated every 1 KB        |
//! | `0x0600_0000-0x06FF_FFFF` | video RAM, repeated every 128 KB        |
//! | `0x0700_0000-0x07FF_FFFF` | object attributes, repeated every 1 KB  |
//! | `0x0800_0000-0x0E00_FFFF` | game pak ROM and save RAM               |
//!
//! An I/O address with no register, and every address outside these
//! blocks, keeps the last byte written to it and reads zero before that.
use std::collections::HashMap;

use crate::bitwise::{
    byte_of, lemma_byte_change_fits, lemma_byte_write_reads, low_mask, with_bit, Bits,
};
use crate::cpu::hardware::dma::{channel_base, Dma, Registers};
use crate::cpu::hardware::internal_memory::{rom_offset, InternalMemory};
use crate::cpu::hardware::interrupt_control::InterruptControl;
use crate::cpu::hardware::keypad::Keypad;
use crate::cpu::hardware::lcd::Lcd;
use crate::cpu::hardware::serial::Serial;
use crate::cpu::hardware::sound::Sound;
use crate::cpu::hardware::timers::Timers;
use crate::cpu::hardware::{all_zero, get_unmasked_address, lemma_fold_128k, lemma_fold_1k};
use vstd::prelude::*;

verus! {

broadcast use vstd::std_specs::hash::group_hash_axioms;

/// The block that a 32-bit address falls in.
pub enum Region {
    Bios,
    Memory,
    LcdIo,
    SoundIo,
    WaveRam,
    DmaIo,
    TimerIo,
    KeypadIo,
    SerialIo,
    InterruptIo,
    Palette,
    Vram,
    Oam,
    Unmapped,
}

/// The block that the 32-bit address `a` falls in.
pub open spec fn region_of(a: usize) -> Region {
    if a <= 0x3FFF {
        Region::Bios
    } else if 0x0200_0000 <= a <= 0x03FF_FFFF || 0x0800_0000 <= a <= 0x0E00_FFFF {
        Region::Memory
    } else if 0x0400_0000 <= a <= 0x0400_005F {
        Region::LcdIo
    } else if 0x0400_0090 <= a <= 0x0400_009F {
        Region::WaveRam
    } else if 0x0400_0060 <= a <= 0x0400_00AF {
        Region::SoundIo
    } else if 0x0400_00B0 <= a <= 0x0400_00FF {
        Region::DmaIo
    } else if 0x0400_0100 <= a <= 0x0400_011F {
        Region::TimerIo
    } else if 0x0400_0130 <= a <= 0x0400_0133 {
        Region::KeypadIo
    } else if 0x0400_0120 <= a <= 0x0400_01FF {
        Region::SerialIo
    } else if 0x0400_0200 <= a <= 0x04FF_FFFF {
        Region::InterruptIo
    } else if 0x0500_0000 <= a <= 0x05FF_FFFF {
        Region::Palette
    } else if 0x0600_0000 <= a <= 0x06FF_FFFF {
        Region::Vram
    } else if 0x0700_0000 <= a <= 0x07FF_FFFF {
        Region::Oam
    } else {
        Region::Unmapped
    }
}

/// Where a video RAM address lies in the 96 KB of video RAM: the region
/// repeats every 128 KB, and in each copy the last 32 KB repeat the 32 KB
/// before them.
pub open spec fn vram_index(a: usize) -> int {
    let o = a % 0x2_0000;
    if o < 0x1_8000 {
        o as int
    } else {
        o - 0x8000
    }
}

/// The address of the word that holds the byte at `address`.
pub open spec fn word_aligned(address: usize) -> usize {
    (address - address % 4) as usize
}

/// The address of the halfword that holds the byte at `address`.
pub open spec fn half_word_aligned(address: usize) -> usize {
    (address - address % 2) as usize
}

/// A 32-bit address: `address` reduced modulo 2^32.
pub open spec fn bus_address(address: usize) -> usize {
    address & 0xFFFF_FFFF
}

/// The little-endian word made of four bytes.
pub open spec fn word_of(b0: u8, b1: u8, b2: u8, b3: u8) -> u32 {
    (b0 + 0x100 * b1 + 0x1_0000 * b2 + 0x100_0000 * b3) as u32
}

/// The little-endian halfword made of two bytes.
pub open spec fn half_word_of(b0: u8, b1: u8) -> u16 {
    (b0 + 0x100 * b1) as u16
}

/// The interrupt sources, in the order of their bits in the request flags.
#[derive(PartialEq, Eq, Structural, Clone, Copy)]
pub enum IrqType {
    VBlank,
    HBlank,
    VCount,
    Timer0,
    Timer1,
    Timer2,
    Timer3,
    Serial,
    Dma0,
    Dma1,
    Dma2,
    Dma3,
    Keypad,
    Gamepak,
}

/// The bit of the request flags that an interrupt source sets.
pub open spec fn irq_bit(irq: IrqType) -> u8 {
    match irq {
        IrqType::VBlank => 0,
        IrqType::HBlank => 1,
        IrqType::VCount => 2,
        IrqType::Timer0 => 3,
        IrqType::Timer1 => 4,
        IrqType::Timer2 => 5,
        IrqType::Timer3 => 6,
        IrqType::Serial => 7,
        IrqType::Dma0 => 8,
        IrqType::Dma1 => 9,
        IrqType::Dma2 => 10,
        IrqType::Dma3 => 11,
        IrqType::Keypad => 12,
        IrqType::Gamepak => 13,
    }
}

impl IrqType {
    /// The index of the source's bit in the Interrupt Request Flags register.
    pub fn get_idx_in_if(self) -> (r: u8)
        ensures
            r == irq_bit(self),
    {
        match self {
            Self::VBlank => 0,
            Self::HBlank => 1,
            Self::VCount => 2,
            Self::Timer0 => 3,
            Self::Timer1 => 4,
            Self::Timer2 => 5,
            Self::Timer3 => 6,
            Self::Serial => 7,
            Self::Dma0 => 8,
            Self::Dma1 => 9,
            Self::Dma2 => 10,
            Self::Dma3 => 11,
            Self::Keypad => 12,
            Self::Gamepak => 13,
        }
    }
}

/// The memory bus and the blocks behind it.
pub struct Bus {
    pub internal_memory: InternalMemory,
    pub lcd: Lcd,
    pub sound: Sound,
    pub dma: Dma,
    pub timers: Timers,
    pub serial: Serial,
    pub keypad: Keypad,
    pub interrupt_control: InterruptControl,
    pub cycles_count: u128,
    pub last_used_address: usize,
    pub unused_region: HashMap<usize, u8>,
    /// The last opcode fetched from BIOS, which BIOS reads give once the
    /// program counter has left BIOS.
    pub last_bios_opcode: u32,
    /// The program counter, for the BIOS read protection.
    pub current_pc: usize,
}

impl Bus {
    /// The bytes written to addresses with no storage of their own.
    pub open spec fn unused(self) -> Map<usize, u8> {
        self.unused_region@
    }

    /// The number of accesses made through the bus.
    pub open spec fn cycles(self) -> u128 {
        self.cycles_count
    }

    /// The address of the last access.
    pub open spec fn last_address(self) -> usize {
        self.last_used_address
    }

    /// The last opcode fetched from BIOS.
    pub open spec fn bios_opcode(self) -> u32 {
        self.last_bios_opcode
    }

    /// The program counter that the BIOS read protection looks at.
    pub open spec fn pc(self) -> usize {
        self.current_pc
    }

    /// Every memory has its hardware size.
    pub open spec fn wf(self) -> bool {
        &&& self.internal_memory.wf()
        &&& self.lcd.memory.wf()
        &&& self.sound.wf()
        &&& self.dma.wf()
    }

    /// The byte at an address with no storage of its own: the last one
    /// written there, zero before that.
    pub open spec fn unused_byte(self, a: usize) -> u8 {
        if self.unused().contains_key(a) {
            self.unused()[a]
        } else {
            0
        }
    }

    /// A register's byte where a register lies, else the unused byte.
    pub open spec fn or_unused(self, register: Option<u8>, a: usize) -> u8 {
        match register {
            Some(b) => b,
            None => self.unused_byte(a),
        }
    }

    /// The byte that a read at the 32-bit address `a` gives.
    pub open spec fn byte_at(self, a: usize) -> u8 {
        match region_of(a) {
            Region::Bios => if self.pc() >= 0x4000 {
                byte_of(self.bios_opcode() as u128, (a % 4) as u128)
            } else {
                self.internal_memory.byte_at(a)
            },
            Region::Memory => self.internal_memory.byte_at(a),
            Region::LcdIo => self.or_unused(self.lcd.registers.byte_at(a), a),
            Region::WaveRam => self.sound.channel3_wave_pattern_ram@[a - 0x0400_0090],
            Region::SoundIo => self.or_unused(self.sound.byte_at(a), a),
            Region::DmaIo => self.or_unused(self.dma.byte_at(a), a),
            Region::TimerIo => self.or_unused(self.timers.byte_at(a), a),
            Region::KeypadIo => self.or_unused(self.keypad.byte_at(a), a),
            Region::SerialIo => self.or_unused(self.serial.byte_at(a), a),
            Region::InterruptIo => self.or_unused(self.interrupt_control.byte_at(a), a),
            Region::Palette => if a % 0x400 < 0x200 {
                self.lcd.memory.bg_palette_ram@[(a % 0x400) as int]
            } else {
                self.lcd.memory.obj_palette_ram@[a % 0x400 - 0x200]
            },
            Region::Vram => self.lcd.memory.video_ram@[vram_index(a)],
            Region::Oam => self.lcd.memory.obj_attributes@[(a % 0x400) as int],
            Region::Unmapped => self.unused_byte(a),
        }
    }

    /// Whether a write at the 32-bit address `a` lands among the unused
    /// bytes: an I/O address where no register lies, or an unmapped address.
    pub open spec fn writes_unused(self, a: usize) -> bool {
        match region_of(a) {
            Region::LcdIo => self.lcd.registers.byte_at(a) is None,
            Region::SoundIo => self.sound.byte_at(a) is None,
            Region::DmaIo => self.dma.byte_at(a) is None,
            Region::TimerIo => a > 0x0400_010F,
            Region::SerialIo => self.serial.byte_at(a) is None,
            Region::InterruptIo => self.interrupt_control.byte_at(a) is None,
            Region::Unmapped => true,
            _ => false,
        }
    }

    /// `new` is `self` after a byte write of `value` at the 32-bit address
    /// `a`; the access count and last address are left out.
    ///
    /// The work RAMs and save RAM store the byte, BIOS and ROM ignore it. A
    /// register stores it, except that the interrupt request flags clear the
    /// bits that are one in it, a timer's counter address sets the timer's
    /// reload value, and a timer's control address sets its control register
    /// (starting the timer loads the counter). The palettes, video RAM and
    /// object attributes store it in the cell that the address folds onto.
    pub open spec fn stores(self, new: Self, a: usize, value: u8) -> bool {
        let r = region_of(a);
        &&& new.wf()
        &&& new.pc() == self.pc()
        &&& new.bios_opcode() == self.bios_opcode()
        &&& if r is Bios || r is Memory {
            self.internal_memory.stores(new.internal_memory, a, value)
        } else {
            new.internal_memory == self.internal_memory
        }
        &&& forall|b: usize|
            #[trigger] new.lcd.registers.byte_at(b) == if b == a && self.lcd.registers.byte_at(
                a,
            ) is Some {
                Some(value)
            } else {
                self.lcd.registers.byte_at(b)
            }
        &&& new.lcd.memory.bg_palette_ram@ == if r is Palette && a % 0x400 < 0x200 {
            self.lcd.memory.bg_palette_ram@.update((a % 0x400) as int, value)
        } else {
            self.lcd.memory.bg_palette_ram@
        }
        &&& new.lcd.memory.obj_palette_ram@ == if r is Palette && a % 0x400 >= 0x200 {
            self.lcd.memory.obj_palette_ram@.update(a % 0x400 - 0x200, value)
        } else {
            self.lcd.memory.obj_palette_ram@
        }
        &&& new.lcd.memory.video_ram@ == if r is Vram {
            self.lcd.memory.video_ram@.update(vram_index(a), value)
        } else {
            self.lcd.memory.video_ram@
        }
        &&& new.lcd.memory.obj_attributes@ == if r is Oam {
            self.lcd.memory.obj_attributes@.update((a % 0x400) as int, value)
        } else {
            self.lcd.memory.obj_attributes@
        }
        &&& forall|b: usize|
            #[trigger] new.sound.byte_at(b) == if b == a && self.sound.byte_at(a) is Some {
                Some(value)
            } else {
                self.sound.byte_at(b)
            }
        &&& new.sound.channel3_wave_pattern_ram@ == if r is WaveRam {
            self.sound.channel3_wave_pattern_ram@.update(a - 0x0400_0090, value)
        } else {
            self.sound.channel3_wave_pattern_ram@
        }
        &&& forall|b: usize|
            #[trigger] new.dma.byte_at(b) == if b == a && self.dma.byte_at(a) is Some {
                Some(value)
            } else {
                self.dma.byte_at(b)
            }
        &&& if r is TimerIo && a <= 0x0400_010F {
            let idx = (a - 0x0400_0100) / 4;
            let k = (a - 0x0400_0100) % 4;
            if k < 2 {
                self.timers.reload_stored(
                    new.timers,
                    idx,
                    byte_of_written(self.timers.reload(idx), k, value),
                )
            } else {
                self.timers.control_stored(
                    new.timers,
                    idx,
                    byte_of_written(self.timers.control(idx), k - 2, value),
                )
            }
        } else {
            new.timers == self.timers
        }
        &&& forall|b: usize|
            #[trigger] new.keypad.byte_at(b) == if b == a && self.keypad.byte_at(a) is Some {
                Some(value)
            } else {
                self.keypad.byte_at(b)
            }
        &&& forall|b: usize|
            #[trigger] new.serial.byte_at(b) == if b == a && self.serial.byte_at(a) is Some {
                Some(value)
            } else {
                self.serial.byte_at(b)
            }
        &&& forall|b: usize|
            !InterruptControl::is_acknowledge(b) ==> #[trigger] new.interrupt_control.byte_at(b)
                == if b == a && self.interrupt_control.byte_at(a) is Some {
                Some(value)
            } else {
                self.interrupt_control.byte_at(b)
            }
        &&& new.interrupt_control.interrupt_request == if a == 0x0400_0202 {
            InterruptControl::acknowledged(self.interrupt_control.interrupt_request, 0, value)
        } else if a == 0x0400_0203 {
            InterruptControl::acknowledged(self.interrupt_control.interrupt_request, 1, value)
        } else {
            self.interrupt_control.interrupt_request
        }
        &&& new.unused() == if self.writes_unused(a) {
            self.unused().insert(a, value)
        } else {
            self.unused()
        }
    }
}

impl Bus {
    /// The byte last written at an address with no storage of its own.
    fn read_unused(&self, address: usize) -> (r: u8)
        ensures
            r == self.unused_byte(address),
    {
        match self.unused_region.get(&address) {
            Some(v) => *v,
            None => 0,
        }
    }

    fn read_interrupt_control_raw(&self, address: usize) -> (r: u8)
        requires
            region_of(address) is InterruptIo,
        ensures
            r == self.byte_at(address),
    {
        match self.interrupt_control.read(address) {
            Some(b) => b,
            None => self.read_unused(address),
        }
    }

    fn write_interrupt_control_raw(&mut self, address: usize, value: u8)
        requires
            old(self).wf(),
            region_of(address) is InterruptIo,
        ensures
            final(self).wf(),
            old(self).stores(*final(self), address, value),
            final(self).cycles() == old(self).cycles(),
            final(self).last_address() == old(self).last_address(),
    {
        if !self.interrupt_control.write(address, value) {
            self.unused_region.insert(address, value);
        }
    }

    fn read_keypad_raw(&self, address: usize) -> (r: u8)
        requires
            region_of(address) is KeypadIo,
        ensures
            r == self.byte_at(address),
    {
        match self.keypad.read(address) {
            Some(b) => b,
            None => self.read_unused(address),
        }
    }

    fn write_keypad_raw(&mut self, address: usize, value: u8)
        requires
            old(self).wf(),
            region_of(address) is KeypadIo,
        ensures
            final(self).wf(),
            old(self).stores(*final(self), address, value),
            final(self).cycles() == old(self).cycles(),
            final(self).last_address() == old(self).last_address(),
    {
        // The key input register is read-only on the console, but BIOS writes it.
        self.keypad.write(address, value);
    }

    fn read_serial_raw(&self, address: usize) -> (r: u8)
        requires
            region_of(address) is SerialIo,
        ensures
            r == self.byte_at(address),
    {
        match self.serial.read(address) {
            Some(b) => b,
            None => self.read_unused(address),
        }
    }

    fn write_serial_raw(&mut self, address: usize, value: u8)
        requires
            old(self).wf(),
            region_of(address) is SerialIo,
        ensures
            final(self).wf(),
            old(self).stores(*final(self), address, value),
            final(self).cycles() == old(self).cycles(),
            final(self).last_address() == old(self).last_address(),
    {
        if !self.serial.write(address, value) {
            self.unused_region.insert(address, value);
        }
    }

    fn read_timers_raw(&self, address: usize) -> (r: u8)
        requires
            region_of(address) is TimerIo,
        ensures
            r == self.byte_at(address),
    {
        match address {
            0x0400_0100 => self.timers.tm0cnt_l.get_byte(0),
            0x0400_0101 => self.timers.tm0cnt_l.get_byte(1),
            0x0400_0102 => self.timers.tm0cnt_h.get_byte(0),
            0x0400_0103 => self.timers.tm0cnt_h.get_byte(1),
            0x0400_0104 => self.timers.tm1cnt_l.get_byte(0),
            0x0400_0105 => self.timers.tm1cnt_l.get_byte(1),
            0x0400_0106 => self.timers.tm1cnt_h.get_byte(0),
            0x0400_0107 => self.timers.tm1cnt_h.get_byte(1),
            0x0400_0108 => self.timers.tm2cnt_l.get_byte(0),
            0x0400_0109 => self.timers.tm2cnt_l.get_byte(1),
            0x0400_010A => self.timers.tm2cnt_h.get_byte(0),
            0x0400_010B => self.timers.tm2cnt_h.get_byte(1),
            0x0400_010C => self.timers.tm3cnt_l.get_byte(0),
            0x0400_010D => self.timers.tm3cnt_l.get_byte(1),
            0x0400_010E => self.timers.tm3cnt_h.get_byte(0),
            0x0400_010F => self.timers.tm3cnt_h.get_byte(1),
            _ => self.read_unused(address),
        }
    }

    fn write_timers_raw(&mut self, address: usize, value: u8)
        requires
            old(self).wf(),
            region_of(address) is TimerIo,
        ensures
            final(self).wf(),
            old(self).stores(*final(self), address, value),
            final(self).cycles() == old(self).cycles(),
            final(self).last_address() == old(self).last_address(),
    {
        match address {
            // A write to a counter's address sets the reload value; a write to
            // a control register may start the timer.
            0x0400_0100 => {
                let mut reload = self.timers.tm0_reload;
                reload.set_byte(0, value);
                self.timers.set_reload(0, reload);
            },
            0x0400_0101 => {
                let mut reload = self.timers.tm0_reload;
                reload.set_byte(1, value);
                self.timers.set_reload(0, reload);
            },
            0x0400_0102 => {
                let mut control = self.timers.tm0cnt_h;
                control.set_byte(0, value);
                self.timers.set_control(0, control);
            },
            0x0400_0103 => {
                let mut control = self.timers.tm0cnt_h;
                control.set_byte(1, value);
                self.timers.set_control(0, control);
            },
            0x0400_0104 => {
                let mut reload = self.timers.tm1_reload;
                reload.set_byte(0, value);
                self.timers.set_reload(1, reload);
            },
            0x0400_0105 => {
                let mut reload = self.timers.tm1_reload;
                reload.set_byte(1, value);
                self.timers.set_reload(1, reload);
            },
            0x0400_0106 => {
                let mut control = self.timers.tm1cnt_h;
                control.set_byte(0, value);
                self.timers.set_control(1, control);
            },
            0x0400_0107 => {
                let mut control = self.timers.tm1cnt_h;
                control.set_byte(1, value);
                self.timers.set_control(1, control);
            },
            0x0400_0108 => {
                let mut reload = self.timers.tm2_reload;
                reload.set_byte(0, value);
                self.timers.set_reload(2, reload);
            },
            0x0400_0109 => {
                let mut reload = self.timers.tm2_reload;
                reload.set_byte(1, value);
                self.timers.set_reload(2, reload);
            },
            0x0400_010A => {
                let mut control = self.timers.tm2cnt_h;
                control.set_byte(0, value);
                self.timers.set_control(2, control);
            },
            0x0400_010B => {
                let mut control = self.timers.tm2cnt_h;
                control.set_byte(1, value);
                self.timers.set_control(2, control);
            },
            0x0400_010C => {
                let mut reload = self.timers.tm3_reload;
                reload.set_byte(0, value);
                self.timers.set_reload(3, reload);
            },
            0x0400_010D => {
                let mut reload = self.timers.tm3_reload;
                reload.set_byte(1, value);
                self.timers.set_reload(3, reload);
            },
            0x0400_010E => {
                let mut control = self.timers.tm3cnt_h;
                control.set_byte(0, value);
                self.timers.set_control(3, control);
            },
            0x0400_010F => {
                let mut control = self.timers.tm3cnt_h;
                control.set_byte(1, value);
                self.timers.set_control(3, control);
            },
            _ => {
                self.unused_region.insert(address, value);
            },
        }
    }

    /// Byte `offset` of a DMA channel's registers.
    fn read_dma_bank(channel: &Registers, offset: usize) -> (r: u8)
        requires
            offset < 12,
        ensures
            channel.byte_at(offset as int) == Some(r),
    {
        match offset {
            0 => channel.source_address.get_byte(0),
            1 => channel.source_address.get_byte(1),
            2 => channel.source_address.get_byte(2),
            3 => channel.source_address.get_byte(3),
            4 => channel.destination_address.get_byte(0),
            5 => channel.destination_address.get_byte(1),
            6 => channel.destination_address.get_byte(2),
            7 => channel.destination_address.get_byte(3),
            8 => channel.word_count.get_byte(0),
            9 => channel.word_count.get_byte(1),
            10 => channel.control.get_byte(0),
            _ => channel.control.get_byte(1),
        }
    }

    /// Stores `value` at byte `offset` of a DMA channel's registers.
    fn write_dma_bank(channel: &mut Registers, offset: usize, value: u8)
        requires
            offset < 12,
        ensures
            forall|o: int|
                #[trigger] final(channel).byte_at(o) == if o == offset {
                    Some(value)
                } else {
                    old(channel).byte_at(o)
                },
    {
        match offset {
            0 => channel.source_address.set_byte(0, value),
            1 => channel.source_address.set_byte(1, value),
            2 => channel.source_address.set_byte(2, value),
            3 => channel.source_address.set_byte(3, value),
            4 => channel.destination_address.set_byte(0, value),
            5 => channel.destination_address.set_byte(1, value),
            6 => channel.destination_address.set_byte(2, value),
            7 => channel.destination_address.set_byte(3, value),
            8 => channel.word_count.set_byte(0, value),
            9 => channel.word_count.set_byte(1, value),
            10 => channel.control.set_byte(0, value),
            _ => channel.control.set_byte(1, value),
        }
    }

    fn read_dma_raw(&self, address: usize) -> (r: u8)
        requires
            self.wf(),
            region_of(address) is DmaIo,
        ensures
            r == self.byte_at(address),
    {
        match address {
            0x0400_00B0..=0x0400_00BB => Self::read_dma_bank(&self.dma.channels[0], address - 0x0400_00B0),
            0x0400_00BC..=0x0400_00C7 => Self::read_dma_bank(&self.dma.channels[1], address - 0x0400_00BC),
            0x0400_00C8..=0x0400_00D3 => Self::read_dma_bank(&self.dma.channels[2], address - 0x0400_00C8),
            0x0400_00D4..=0x0400_00DF => Self::read_dma_bank(&self.dma.channels[3], address - 0x0400_00D4),
            _ => self.read_unused(address),
        }
    }

    /// Writes a byte of the DMA channel registers, or of the unused bytes
    /// after them. The write only stores the byte: this library has no DMA
    /// transfer engine, so no transfer is started here.
    fn write_dma_raw(&mut self, address: usize, value: u8)
        requires
            old(self).wf(),
            region_of(address) is DmaIo,
        ensures
            final(self).wf(),
            old(self).stores(*final(self), address, value),
            final(self).cycles() == old(self).cycles(),
            final(self).last_address() == old(self).last_address(),
    {
        match address {
            0x0400_00B0..=0x0400_00BB => {
                let mut channel = self.dma.channels[0];
                Self::write_dma_bank(&mut channel, address - 0x0400_00B0, value);
                self.dma.channels.set(0, channel);
            },
            0x0400_00BC..=0x0400_00C7 => {
                let mut channel = self.dma.channels[1];
                Self::write_dma_bank(&mut channel, address - 0x0400_00BC, value);
                self.dma.channels.set(1, channel);
            },
            0x0400_00C8..=0x0400_00D3 => {
                let mut channel = self.dma.channels[2];
                Self::write_dma_bank(&mut channel, address - 0x0400_00C8, value);
                self.dma.channels.set(2, channel);
            },
            0x0400_00D4..=0x0400_00DF => {
                let mut channel = self.dma.channels[3];
                Self::write_dma_bank(&mut channel, address - 0x0400_00D4, value);
                self.dma.channels.set(3, channel);
            },
            _ => {
                self.unused_region.insert(address, value);
            },
        }
    }

    fn read_sound_raw(&self, address: usize) -> (r: u8)
        requires
            self.wf(),
            region_of(address) is SoundIo || region_of(address) is WaveRam,
        ensures
            r == self.byte_at(address),
    {
        if 0x0400_0090 <= address && address <= 0x0400_009F {
            self.sound.channel3_wave_pattern_ram[address - 0x0400_0090]
        } else {
            match self.sound.read(address) {
                Some(b) => b,
                None => self.read_unused(address),
            }
        }
    }

    fn write_sound_raw(&mut self, address: usize, value: u8)
        requires
            old(self).wf(),
            region_of(address) is SoundIo || region_of(address) is WaveRam,
        ensures
            final(self).wf(),
            old(self).stores(*final(self), address, value),
            final(self).cycles() == old(self).cycles(),
            final(self).last_address() == old(self).last_address(),
    {
        if 0x0400_0090 <= address && address <= 0x0400_009F {
            self.sound.channel3_wave_pattern_ram.set(address - 0x0400_0090, value);
        } else if !self.sound.write(address, value) {
            self.unused_region.insert(address, value);
        }
    }

    fn read_lcd_raw(&self, address: usize) -> (r: u8)
        requires
            region_of(address) is LcdIo,
        ensures
            r == self.byte_at(address),
    {
        match self.lcd.registers.read(address) {
            Some(b) => b,
            None => self.read_unused(address),
        }
    }

    fn write_lcd_raw(&mut self, address: usize, value: u8)
        requires
            old(self).wf(),
            region_of(address) is LcdIo,
        ensures
            final(self).wf(),
            old(self).stores(*final(self), address, value),
            final(self).cycles() == old(self).cycles(),
            final(self).last_address() == old(self).last_address(),
    {
        if !self.lcd.registers.write(address, value) {
            self.unused_region.insert(address, value);
        }
    }
}

/// A byte that a 32-bit address's folding keeps below 2^32.
proof fn lemma_bus_address(address: usize)
    by (bit_vector)
    ensures
        address & 0xFFFF_FFFF <= 0xFFFF_FFFF,
        (address & 0xFFFF_FFFF) & 3 == (address & 0xFFFF_FFFF) % 4,
{
}

impl Bus {
    /// The byte at `address`, taken modulo 2^32. Reading has no effect.
    pub fn read_raw(&self, address: usize) -> (r: u8)
        requires
            self.wf(),
        ensures
            r == self.byte_at(bus_address(address)),
    {
        proof {
            lemma_bus_address(address);
        }
        let address = address & 0xFFFF_FFFF;
        match address {
            0x0000_0000..=0x0000_3FFF => {
                // Once the program counter has left BIOS, BIOS reads give the
                // last opcode fetched from it.
                if self.current_pc >= 0x4000 {
                    self.last_bios_opcode.get_byte((address & 0b11) as u8)
                } else {
                    self.internal_memory.read_at(address)
                }
            },
            0x0200_0000..=0x03FF_FFFF | 0x0800_0000..=0x0E00_FFFF => {
                self.internal_memory.read_at(address)
            },
            0x0400_0000..=0x0400_005F => self.read_lcd_raw(address),
            0x0400_0060..=0x0400_00AF => self.read_sound_raw(address),
            0x0400_00B0..=0x0400_00FF => self.read_dma_raw(address),
            0x0400_0100..=0x0400_011F => self.read_timers_raw(address),
            0x0400_0130..=0x0400_0133 => self.read_keypad_raw(address),
            0x0400_0120..=0x0400_012F | 0x0400_0134..=0x0400_01FF => self.read_serial_raw(address),
            0x0400_0200..=0x04FF_FFFF => self.read_interrupt_control_raw(address),
            0x0500_0000..=0x05FF_FFFF => {
                let unmasked_address = get_unmasked_address(address, 0x00FF_FF00, 0xFF00_00FF, 8, 4);
                proof {
                    lemma_fold_1k(address, 0x0500_0000);
                }
                if unmasked_address <= 0x0500_01FF {
                    self.lcd.memory.bg_palette_ram[unmasked_address - 0x0500_0000]
                } else {
                    self.lcd.memory.obj_palette_ram[unmasked_address - 0x0500_0200]
                }
            },
            0x0600_0000..=0x06FF_FFFF => {
                let unmasked_address = get_unmasked_address(address, 0x00FF_0000, 0xFF00_FFFF, 16, 2);
                proof {
                    lemma_fold_128k(address);
                }
                // Video RAM is 64 KB + 32 KB + 32 KB, the last two 32 KB being
                // one and the same.
                if unmasked_address <= 0x0601_7FFF {
                    self.lcd.memory.video_ram[unmasked_address - 0x0600_0000]
                } else {
                    self.lcd.memory.video_ram[unmasked_address - 0x0600_0000 - 0x8000]
                }
            },
            0x0700_0000..=0x07FF_FFFF => {
                let unmasked_address = get_unmasked_address(address, 0x00FF_FF00, 0xFF00_00FF, 8, 4);
                proof {
                    lemma_fold_1k(address, 0x0700_0000);
                }
                self.lcd.memory.obj_attributes[unmasked_address - 0x0700_0000]
            },
            // 0x0000_4000 ..= 0x01FF_FFFF, 0x0E01_0000 ..= 0x0FFF_FFFF and
            // 0x1000_0000 ..= 0xFFFF_FFFF.
            _ => self.read_unused(address),
        }
    }

    /// Writes `value` at `address`, taken modulo 2^32.
    pub fn write_raw(&mut self, address: usize, value: u8)
        requires
            old(self).wf(),
        ensures
            final(self).wf(),
            old(self).stores(*final(self), bus_address(address), value),
            final(self).cycles() == old(self).cycles(),
            final(self).last_address() == old(self).last_address(),
    {
        proof {
            lemma_bus_address(address);
        }
        let address = address & 0xFFFF_FFFF;
        match address {
            0x0000_0000..=0x0000_3FFF | 0x0200_0000..=0x03FF_FFFF | 0x0800_0000..=0x0E00_FFFF => {
                self.internal_memory.write_at(address, value);
            },
            0x0400_0000..=0x0400_005F => self.write_lcd_raw(address, value),
            0x0400_0060..=0x0400_00AF => self.write_sound_raw(address, value),
            0x0400_00B0..=0x0400_00FF => self.write_dma_raw(address, value),
            0x0400_0100..=0x0400_011F => self.write_timers_raw(address, value),
            0x0400_0120..=0x0400_012F | 0x0400_0134..=0x0400_01FF => {
                self.write_serial_raw(address, value);
            },
            0x0400_0130..=0x0400_0133 => self.write_keypad_raw(address, value),
            0x0400_0200..=0x04FF_FFFF => self.write_interrupt_control_raw(address, value),
            0x0500_0000..=0x05FF_FFFF => {
                let unmasked_address = get_unmasked_address(address, 0x00FF_FF00, 0xFF00_00FF, 8, 4);
                proof {
                    lemma_fold_1k(address, 0x0500_0000);
                }
                if unmasked_address <= 0x0500_01FF {
                    self.lcd.memory.bg_palette_ram.set(unmasked_address - 0x0500_0000, value);
                } else {
                    self.lcd.memory.obj_palette_ram.set(unmasked_address - 0x0500_0200, value);
                }
            },
            0x0600_0000..=0x06FF_FFFF => {
                let unmasked_address = get_unmasked_address(address, 0x00FF_0000, 0xFF00_FFFF, 16, 2);
                proof {
                    lemma_fold_128k(address);
                }
                if unmasked_address <= 0x0601_7FFF {
                    self.lcd.memory.video_ram.set(unmasked_address - 0x0600_0000, value);
                } else {
                    self.lcd.memory.video_ram.set(unmasked_address - 0x0600_0000 - 0x8000, value);
                }
            },
            0x0700_0000..=0x07FF_FFFF => {
                let unmasked_address = get_unmasked_address(address, 0x00FF_FF00, 0xFF00_00FF, 8, 4);
                proof {
                    lemma_fold_1k(address, 0x0700_0000);
                }
                self.lcd.memory.obj_attributes.set(unmasked_address - 0x0700_0000, value);
            },
            _ => {
                self.unused_region.insert(address, value);
            },
        }
    }
}

/// The word made of four bytes is the bytes shifted into place.
proof fn lemma_word_of(b0: u32, b1: u32, b2: u32, b3: u32)
    by (bit_vector)
    requires
        b0 <= 0xFF,
        b1 <= 0xFF,
        b2 <= 0xFF,
        b3 <= 0xFF,
    ensures
        b3 << 24u32 | b2 << 16u32 | b1 << 8u32 | b0 == b0 + 0x100 * b1 + 0x1_0000 * b2 + 0x100_0000
            * b3,
{
}

/// The halfword made of two bytes is the bytes shifted into place.
proof fn lemma_half_word_of(b0: u16, b1: u16)
    by (bit_vector)
    requires
        b0 <= 0xFF,
        b1 <= 0xFF,
    ensures
        b1 << 8u16 | b0 == b0 + 0x100 * b1,
{
}

/// Clearing the low bits of an address gives the start of its word or
/// halfword, from which the next bytes do not overflow.
proof fn lemma_aligned(address: usize)
    by (bit_vector)
    ensures
        address & !3usize == address - address % 4,
        address & !1usize == address - address % 2,
        address & 3 == address % 4,
        address & 1 == address % 2,
        address - address % 4 + 3 == address | 3,
        address - address % 2 + 1 == address | 1,
{
}

impl Bus {
    /// `new` holds the same data as `self`: it may differ only in the access
    /// count and the last address.
    pub open spec fn same_data(self, new: Self) -> bool {
        &&& new.internal_memory == self.internal_memory
        &&& new.lcd == self.lcd
        &&& new.sound == self.sound
        &&& new.dma == self.dma
        &&& new.timers == self.timers
        &&& new.serial == self.serial
        &&& new.keypad == self.keypad
        &&& new.interrupt_control == self.interrupt_control
        &&& new.unused_region == self.unused_region
        &&& new.last_bios_opcode == self.last_bios_opcode
        &&& new.current_pc == self.current_pc
    }

    /// `new` is `self` after the bus writes `value` at `a` and then at `a + 1`.
    pub open spec fn pair_stored(self, new: Self, a: usize, value: u8) -> bool {
        exists|mid: Self|
            self.stores(mid, bus_address(a), value) && #[trigger] mid.stores(
                new,
                bus_address((a + 1) as usize),
                value,
            )
    }

    /// `new` is `self` after the bytes `b0` and `b1` are written at `a` and
    /// `a + 1`, in that order.
    pub open spec fn half_word_stored(self, new: Self, a: usize, b0: u8, b1: u8) -> bool {
        exists|mid: Self|
            self.stores(mid, bus_address(a), b0) && #[trigger] mid.stores(
                new,
                bus_address((a + 1) as usize),
                b1,
            )
    }

    /// `new` is `self` after the bytes `b0`, `b1`, `b2` and `b3` are written
    /// at `a`, `a + 1`, `a + 2` and `a + 3`, in that order.
    pub open spec fn word_stored(self, new: Self, a: usize, b0: u8, b1: u8, b2: u8, b3: u8) -> bool {
        exists|s1: Self, s2: Self, s3: Self|
            #![trigger self.stores(s1, bus_address(a), b0), s1.stores(s2, bus_address((a + 1) as usize), b1), s2.stores(s3, bus_address((a + 2) as usize), b2)]
            self.stores(s1, bus_address(a), b0) && s1.stores(s2, bus_address((a + 1) as usize), b1)
                && s2.stores(s3, bus_address((a + 2) as usize), b2) && s3.stores(
                new,
                bus_address((a + 3) as usize),
                b3,
            )
    }

    /// `new` is `self` after a byte write of `value` at `address` through
    /// [`Bus::write_byte`]: object attributes ignore byte writes; palette RAM
    /// and the first 96 KB of each copy of video RAM take the byte in both
    /// halves of its halfword, and ignore it in the rest of video RAM; every
    /// other address takes the byte as [`Bus::write_raw`] does.
    pub open spec fn byte_written(self, new: Self, address: usize, value: u8) -> bool {
        if 0x0700_0000 <= address <= 0x07FF_FFFF {
            self.same_data(new)
        } else if 0x0600_0000 <= address <= 0x06FF_FFFF {
            if address % 0x2_0000 < 0x1_8000 {
                self.pair_stored(new, half_word_aligned(address), value)
            } else {
                self.same_data(new)
            }
        } else if 0x0500_0000 <= address <= 0x05FF_FFFF {
            self.pair_stored(new, half_word_aligned(address), value)
        } else {
            self.stores(new, bus_address(address), value)
        }
    }

    fn get_wait_cycles(&self, address: usize) -> (r: u128)
        ensures
            r == 1,
    {
        // Every region takes one cycle for now.
        1
    }

    /// Reads the byte at `address` and counts the access.
    pub fn read_byte(&mut self, address: usize) -> (r: u8)
        requires
            old(self).wf(),
            old(self).cycles() < u128::MAX,
        ensures
            r == old(self).byte_at(bus_address(address)),
            *final(self) == (Bus {
                cycles_count: (old(self).cycles_count + 1) as u128,
                last_used_address: address,
                ..*old(self)
            }),
    {
        self.cycles_count = self.cycles_count + self.get_wait_cycles(address);
        self.last_used_address = address;
        self.read_raw(address)
    }

    /// Writes the byte `value` at `address` and counts the access; see
    /// [`Bus::byte_written`] for the video memories.
    pub fn write_byte(&mut self, address: usize, value: u8)
        requires
            old(self).wf(),
            old(self).cycles() < u128::MAX,
        ensures
            final(self).wf(),
            old(self).byte_written(*final(self), address, value),
            final(self).cycles() == old(self).cycles() + 1,
            final(self).last_address() == address,
    {
        self.cycles_count = self.cycles_count + self.get_wait_cycles(address);
        self.last_used_address = address;
        let ghost start = *self;
        proof {
            lemma_aligned(address);
        }
        match address {
            // Object attributes ignore byte writes.
            0x0700_0000..=0x07FF_FFFF => {
                return;
            },
            // The first 96 KB of video RAM take a byte in both halves of its
            // halfword.
            0x0600_0000..=0x06FF_FFFF => {
                let unmasked_address = get_unmasked_address(address, 0x00FF_0000, 0xFF00_FFFF, 16, 2);
                proof {
                    lemma_fold_128k(address);
                }
                if unmasked_address < 0x0601_8000 {
                    let aligned_address = address & !1;
                    self.write_raw(aligned_address, value);
                    let ghost mid = *self;
                    self.write_raw(aligned_address + 1, value);
                    assert(start.stores(mid, bus_address(aligned_address), value));
                }
                return;
            },
            // Palette RAM takes a byte in both halves of its halfword.
            0x0500_0000..=0x05FF_FFFF => {
                let aligned_address = address & !1;
                self.write_raw(aligned_address, value);
                let ghost mid = *self;
                self.write_raw(aligned_address + 1, value);
                assert(start.stores(mid, bus_address(aligned_address), value));
                return;
            },
            _ => {},
        }
        self.write_raw(address, value);
    }

    /// Reads the little-endian word at `address`, its low two bits cleared,
    /// and counts one access.
    pub fn read_word(&mut self, address: usize) -> (r: u32)
        requires
            old(self).wf(),
            old(self).cycles() < u128::MAX,
        ensures
            r == word_of(
                old(self).byte_at(bus_address(word_aligned(address))),
                old(self).byte_at(bus_address((word_aligned(address) + 1) as usize)),
                old(self).byte_at(bus_address((word_aligned(address) + 2) as usize)),
                old(self).byte_at(bus_address((word_aligned(address) + 3) as usize)),
            ),
            *final(self) == (Bus {
                cycles_count: (old(self).cycles_count + 1) as u128,
                last_used_address: address,
                ..*old(self)
            }),
    {
        self.cycles_count = self.cycles_count + self.get_wait_cycles(address);
        self.last_used_address = address;
        proof {
            lemma_aligned(address);
        }
        let mut address = address;
        if address & 3 != 0 {
            // An unaligned word read reads the word that holds the address.
            address = address & !3;
        }
        let part_0: u32 = self.read_raw(address) as u32;
        let part_1: u32 = self.read_raw(address + 1) as u32;
        let part_2: u32 = self.read_raw(address + 2) as u32;
        let part_3: u32 = self.read_raw(address + 3) as u32;
        proof {
            lemma_word_of(part_0, part_1, part_2, part_3);
        }
        part_3 << 24u32 | part_2 << 16u32 | part_1 << 8u32 | part_0
    }

    /// Writes the little-endian word `value` at `address`, its low two bits
    /// cleared, byte by byte from the lowest, and counts one access.
    pub fn write_word(&mut self, address: usize, value: u32)
        requires
            old(self).wf(),
            old(self).cycles() < u128::MAX,
        ensures
            final(self).wf(),
            old(self).word_stored(
                *final(self),
                word_aligned(address),
                byte_of(value as u128, 0),
                byte_of(value as u128, 1),
                byte_of(value as u128, 2),
                byte_of(value as u128, 3),
            ),
            final(self).cycles() == old(self).cycles() + 1,
            final(self).last_address() == address,
    {
        self.cycles_count = self.cycles_count + self.get_wait_cycles(address);
        self.last_used_address = address;
        proof {
            lemma_aligned(address);
        }
        let mut aligned = address;
        if aligned & 3 != 0 {
            // An unaligned word write writes the word that holds the address.
            aligned = aligned & !3;
        }
        assert(aligned == word_aligned(address));
        let part_0 = value.get_byte(0);
        let part_1 = value.get_byte(1);
        let part_2 = value.get_byte(2);
        let part_3 = value.get_byte(3);
        self.write_raw(aligned, part_0);
        let ghost s1 = *self;
        self.write_raw(aligned + 1, part_1);
        let ghost s2 = *self;
        self.write_raw(aligned + 2, part_2);
        let ghost s3 = *self;
        self.write_raw(aligned + 3, part_3);
        assert(old(self).stores(s1, bus_address(aligned), part_0));
        assert(s1.stores(s2, bus_address((aligned + 1) as usize), part_1));
        assert(s2.stores(s3, bus_address((aligned + 2) as usize), part_2));
        assert(s3.stores(*self, bus_address((aligned + 3) as usize), part_3));
    }

    /// Reads the little-endian halfword at `address`, its low bit cleared,
    /// and counts one access.
    pub fn read_half_word(&mut self, address: usize) -> (r: u16)
        requires
            old(self).wf(),
            old(self).cycles() < u128::MAX,
        ensures
            r == half_word_of(
                old(self).byte_at(bus_address(half_word_aligned(address))),
                old(self).byte_at(bus_address((half_word_aligned(address) + 1) as usize)),
            ),
            *final(self) == (Bus {
                cycles_count: (old(self).cycles_count + 1) as u128,
                last_used_address: address,
                ..*old(self)
            }),
    {
        self.cycles_count = self.cycles_count + self.get_wait_cycles(address);
        self.last_used_address = address;
        proof {
            lemma_aligned(address);
        }
        let mut address = address;
        if address & 1 != 0 {
            // An unaligned halfword read reads the halfword that holds the address.
            address = address & !1;
        }
        let part_0: u16 = self.read_raw(address) as u16;
        let part_1: u16 = self.read_raw(address + 1) as u16;
        proof {
            lemma_half_word_of(part_0, part_1);
        }
        part_1 << 8u16 | part_0
    }

    /// Writes the little-endian halfword `value` at `address`, its low bit
    /// cleared, low byte first, and counts one access.
    pub fn write_half_word(&mut self, address: usize, value: u16)
        requires
            old(self).wf(),
            old(self).cycles() < u128::MAX,
        ensures
            final(self).wf(),
            old(self).half_word_stored(
                *final(self),
                half_word_aligned(address),
                byte_of(value as u128, 0),
                byte_of(value as u128, 1),
            ),
            final(self).cycles() == old(self).cycles() + 1,
            final(self).last_address() == address,
    {
        self.cycles_count = self.cycles_count + self.get_wait_cycles(address);
        self.last_used_address = address;
        proof {
            lemma_aligned(address);
        }
        let mut aligned = address;
        if aligned & 1 != 0 {
            // An unaligned halfword write writes the halfword that holds the address.
            aligned = aligned & !1;
        }
        assert(aligned == half_word_aligned(address));
        let part_0 = value.get_byte(0);
        let part_1 = value.get_byte(1);
        self.write_raw(aligned, part_0);
        let ghost mid = *self;
        self.write_raw(aligned + 1, part_1);
        assert(old(self).stores(mid, bus_address(aligned), part_0));
        assert(mid.stores(*self, bus_address((aligned + 1) as usize), part_1));
    }

    /// Whether an enabled interrupt is requested while the master enable is on.
    pub fn is_irq_pending(&self) -> (r: bool)
        ensures
            r == (self.interrupt_control.interrupt_master_enable == 1
                && self.interrupt_control.interrupt_enable & self.interrupt_control.interrupt_request
                != 0),
    {
        (self.interrupt_control.interrupt_master_enable == 1) && (
        self.interrupt_control.interrupt_enable & self.interrupt_control.interrupt_request != 0)
    }

    /// Records the program counter, for the BIOS read protection.
    pub fn set_current_pc(&mut self, pc: usize)
        ensures
            *final(self) == (Bus { current_pc: pc, ..*old(self) }),
    {
        self.current_pc = pc;
    }

    /// Records the last opcode fetched from BIOS, for the BIOS read protection.
    pub fn set_last_bios_opcode(&mut self, opcode: u32)
        ensures
            *final(self) == (Bus { last_bios_opcode: opcode, ..*old(self) }),
    {
        self.last_bios_opcode = opcode;
    }

    /// Raises the request flag of an interrupt source.
    pub fn request_interrupt(&mut self, irq_type: IrqType)
        ensures
            final(self).interrupt_control.interrupt_request == with_bit(
                old(self).interrupt_control.interrupt_request as u128,
                irq_bit(irq_type) as u128,
                true,
            ) as u16,
            *final(self) == (Bus {
                interrupt_control: InterruptControl {
                    interrupt_request: final(self).interrupt_control.interrupt_request,
                    ..old(self).interrupt_control
                },
                ..*old(self)
            }),
    {
        let idx = irq_type.get_idx_in_if();
        self.interrupt_control.interrupt_request.set_bit(idx, true);
    }
}

impl Bus {
    /// Every register, the video memories and wave RAM are zero, no unused
    /// byte has been written, and the access count, last address, last BIOS
    /// opcode and program counter are zero.
    pub open spec fn is_reset(self) -> bool {
        &&& self.lcd.memory.wf()
        &&& self.sound.wf()
        &&& self.dma.wf()
        &&& self.cycles_count == 0
        &&& self.last_used_address == 0
        &&& self.last_bios_opcode == 0
        &&& self.current_pc == 0
        &&& self.unused_region@ == Map::<usize, u8>::empty()
        &&& forall|a: usize|
            #[trigger] self.lcd.registers.byte_at(a) is Some ==> self.lcd.registers.byte_at(a)
                == Some(0u8)
        &&& forall|a: usize|
            #[trigger] self.sound.byte_at(a) is Some ==> self.sound.byte_at(a) == Some(0u8)
        &&& forall|a: usize|
            #[trigger] self.dma.byte_at(a) is Some ==> self.dma.byte_at(a) == Some(0u8)
        &&& forall|a: usize|
            #[trigger] self.keypad.byte_at(a) is Some ==> self.keypad.byte_at(a) == Some(0u8)
        &&& forall|a: usize|
            #[trigger] self.serial.byte_at(a) is Some ==> self.serial.byte_at(a) == Some(0u8)
        &&& forall|a: usize|
            #[trigger] self.interrupt_control.byte_at(a) is Some ==> self.interrupt_control.byte_at(
                a,
            ) == Some(0u8)
        &&& forall|i: int|
            0 <= i < 4 ==> #[trigger] self.timers.counter(i) == 0 && self.timers.control(i) == 0
                && self.timers.reload(i) == 0
        &&& all_zero(self.lcd.memory.bg_palette_ram@)
        &&& all_zero(self.lcd.memory.obj_palette_ram@)
        &&& all_zero(self.lcd.memory.video_ram@)
        &&& all_zero(self.lcd.memory.obj_attributes@)
        &&& all_zero(self.sound.channel3_wave_pattern_ram@)
    }

    /// A bus over the given memories, with every other block reset.
    pub fn with_memory(memory: InternalMemory) -> (r: Self)
        requires
            memory.wf(),
        ensures
            r.wf(),
            r.is_reset(),
            r.internal_memory == memory,
    {
        Bus {
            internal_memory: memory,
            lcd: Lcd::default(),
            sound: Sound::default(),
            dma: Dma::default(),
            timers: Timers::default(),
            serial: Serial::default(),
            keypad: Keypad::default(),
            interrupt_control: InterruptControl::default(),
            cycles_count: 0,
            last_used_address: 0,
            unused_region: HashMap::new(),
            last_bios_opcode: 0,
            current_pc: 0,
        }
    }
}

impl Default for Bus {
    /// A reset bus over a zero BIOS, no game pak ROM and cleared RAMs.
    fn default() -> (r: Self)
        ensures
            r.wf(),
            r.is_reset(),
            all_zero(r.internal_memory.bios@),
            r.internal_memory.rom@.len() == 0,
            all_zero(r.internal_memory.working_ram@),
            all_zero(r.internal_memory.working_iram@),
            all_zero(r.internal_memory.sram@),
    {
        Bus::with_memory(InternalMemory::default())
    }
}

/// The storage cell that the 32-bit address `a` reaches: the mirrored
/// regions fold onto their first copy, every other address is its own cell.
pub open spec fn cell(a: usize) -> int {
    match region_of(a) {
        Region::Memory => if 0x0200_0000 <= a <= 0x02FF_FFFF {
            0x0200_0000 + a % 0x4_0000
        } else if 0x0300_0000 <= a <= 0x03FF_FFFF {
            0x0300_0000 + a % 0x8000
        } else if 0x0800_0000 <= a <= 0x0DFF_FFFF {
            0x0800_0000 + rom_offset(a)
        } else {
            a as int
        },
        Region::Palette => 0x0500_0000 + a % 0x400,
        Region::Vram => 0x0600_0000 + vram_index(a),
        Region::Oam => 0x0700_0000 + a % 0x400,
        _ => a as int,
    }
}

/// Whether a byte written at `a` is what a later read there gives: everywhere
/// but BIOS, the game pak ROM, the timers' counters (a write there sets the
/// reload value) and the interrupt request flags (a write there acknowledges).
pub open spec fn keeps_writes(a: usize) -> bool {
    match region_of(a) {
        Region::Bios => false,
        Region::Memory => !(0x0800_0000 <= a <= 0x0DFF_FFFF),
        Region::TimerIo => a > 0x0400_010F || (a - 0x0400_0100) % 4 >= 2,
        Region::InterruptIo => !InterruptControl::is_acknowledge(a),
        _ => true,
    }
}

/// Whether `a` is a timer's control register, where a write can start the
/// timer and so load its counter.
pub open spec fn is_timer_control(a: usize) -> bool {
    0x0400_0100 <= a <= 0x0400_010F && (a - 0x0400_0100) % 4 >= 2
}

/// Acknowledging interrupts through one byte of the request flags leaves the
/// other byte as it was.
proof fn lemma_acknowledge_other_byte(flags: u16, value: u8)
    ensures
        byte_of(InterruptControl::acknowledged(flags, 0, value) as u128, 1) == byte_of(
            flags as u128,
            1,
        ),
        byte_of(InterruptControl::acknowledged(flags, 1, value) as u128, 0) == byte_of(
            flags as u128,
            0,
        ),
{
    lemma_acknowledge_fields(flags, value);
}

proof fn lemma_acknowledge_fields(flags: u16, value: u8)
    by (bit_vector)
    ensures
        ((((flags & !(value as u16)) as u128) >> 8u128) & low_mask(8)) == (((flags as u128)
            >> 8u128) & low_mask(8)),
        ((((flags & !((value as u16) << 8u16)) as u128) >> 0u128) & low_mask(8)) == (((
        flags as u128) >> 0u128) & low_mask(8)),
{
}

/// A read gives back what a write stored: after writing `value` at `a`, every
/// address that reaches the same storage cell reads `value`, wherever writes
/// are kept.
pub proof fn lemma_write_then_read(old: Bus, new: Bus, a: usize, b: usize, value: u8)
    requires
        old.wf(),
        old.stores(new, a, value),
        a <= 0xFFFF_FFFF,
        b <= 0xFFFF_FFFF,
        keeps_writes(a),
        cell(a) == cell(b),
    ensures
        new.byte_at(b) == value,
{
    assert(region_of(b) == region_of(a));
    if region_of(a) is TimerIo && a <= 0x0400_010F {
        // A write to a control register stores the byte in it.
        let idx = (a - 0x0400_0100) / 4;
        let k = (a - 0x0400_0100) % 4;
        assert(((1u128 << 16u128) - 1) as u128 == 0xFFFFu128) by (bit_vector);
        lemma_byte_change_fits(old.timers.control(idx) as u128, (k - 2) as u128, 16, value as u128);
        lemma_byte_write_reads(
            old.timers.control(idx) as u128,
            (k - 2) as u128,
            (k - 2) as u128,
            value,
        );
    }
}

/// A write reaches only its own storage cell: every address that reaches
/// another cell reads as before, except that a write to a timer's control
/// register may load that timer's counter.
pub proof fn lemma_write_keeps_other_cells(old: Bus, new: Bus, a: usize, b: usize, value: u8)
    requires
        old.wf(),
        old.stores(new, a, value),
        a <= 0xFFFF_FFFF,
        b <= 0xFFFF_FFFF,
        cell(a) != cell(b),
        !is_timer_control(a),
    ensures
        new.byte_at(b) == old.byte_at(b),
{
    lemma_acknowledge_other_byte(old.interrupt_control.interrupt_request, value);
}

/// The mirrors of a region read alike: two addresses that reach the same
/// storage cell read the same byte.
pub proof fn lemma_mirrors_read_alike(bus: Bus, a: usize, b: usize)
    requires
        bus.wf(),
        a <= 0xFFFF_FFFF,
        b <= 0xFFFF_FFFF,
        cell(a) == cell(b),
        !(region_of(a) is Bios),
    ensures
        bus.byte_at(a) == bus.byte_at(b),
{
}

/// The four bytes of a word, put back together, are the word.
proof fn lemma_word_bytes(v: u32)
    ensures
        word_of(
            byte_of(v as u128, 0),
            byte_of(v as u128, 1),
            byte_of(v as u128, 2),
            byte_of(v as u128, 3),
        ) == v,
        half_word_of(byte_of(v as u128, 0), byte_of(v as u128, 1)) == v % 0x1_0000,
{
    lemma_word_fields(v as u128);
}

proof fn lemma_word_fields(v: u128)
    by (bit_vector)
    requires
        v <= 0xFFFF_FFFF,
    ensures
        ((v >> 0u128) & low_mask(8)) + 0x100 * ((v >> 8u128) & low_mask(8)) + 0x1_0000 * ((v
            >> 16u128) & low_mask(8)) + 0x100_0000 * ((v >> 24u128) & low_mask(8)) == v,
        ((v >> 0u128) & low_mask(8)) + 0x100 * ((v >> 8u128) & low_mask(8)) == v % 0x1_0000,
        (v >> 0u128) & low_mask(8) <= 0xFF,
        (v >> 8u128) & low_mask(8) <= 0xFF,
        (v >> 16u128) & low_mask(8) <= 0xFF,
        (v >> 24u128) & low_mask(8) <= 0xFF,
{
}

/// A 32-bit address is its own bus address.
pub proof fn lemma_bus_address_small(a: usize)
    by (bit_vector)
    requires
        a <= 0xFFFF_FFFF,
    ensures
        a & 0xFFFF_FFFF == a,
{
}

/// The bytes of an aligned word lie in one region and reach consecutive
/// cells.
#[verifier::rlimit(30)]
#[verifier::spinoff_prover]
proof fn lemma_cell_step(a: usize, k: usize)
    requires
        a % 4 == 0,
        a <= 0xFFFF_FFFC,
        k < 4,
    ensures
        region_of((a + k) as usize) == region_of(a),
        cell((a + k) as usize) == cell(a) + k,
{
    let b = (a + k) as usize;
    lemma_aligned_mods(a as u64, k as u64, b as u64);
    assert(region_of(b) == region_of(a));
}

/// Adding less than four to a multiple of four carries into no bit above
/// bit 1.
proof fn lemma_aligned_mods(a: u64, k: u64, b: u64)
    by (bit_vector)
    requires
        a % 4 == 0,
        a <= 0xFFFF_FFFC,
        k < 4,
        b == a + k,
    ensures
        b % 0x4_0000 == a % 0x4_0000 + k,
        b % 0x8000 == a % 0x8000 + k,
        b % 0x400 == a % 0x400 + k,
        b % 0x2_0000 == a % 0x2_0000 + k,
        b % 0x200_0000 == a % 0x200_0000 + k,
        a % 0x2_0000 < 0x1_8000 ==> b % 0x2_0000 < 0x1_8000,
{
}

/// The four bytes of a word that keeps writes reach four distinct cells, and
/// none of them is a timer's control register.
proof fn lemma_word_cells(a: usize)
    requires
        a % 4 == 0,
        a <= 0xFFFF_FFFC,
        keeps_writes(a),
    ensures
        cell(a) != cell((a + 1) as usize),
        cell(a) != cell((a + 2) as usize),
        cell(a) != cell((a + 3) as usize),
        cell((a + 1) as usize) != cell((a + 2) as usize),
        cell((a + 1) as usize) != cell((a + 3) as usize),
        cell((a + 2) as usize) != cell((a + 3) as usize),
        !is_timer_control((a + 1) as usize),
        !is_timer_control((a + 2) as usize),
        !is_timer_control((a + 3) as usize),
{
    lemma_cell_step(a, 1);
    lemma_cell_step(a, 2);
    lemma_cell_step(a, 3);
}

/// What a read gives back of a word write: after the four bytes of `value`
/// are written at the word-aligned `a`, each byte there reads the byte of
/// `value` at its place (little-endian), and the word read there is
/// `value`, wherever all four bytes keep writes.
#[verifier::rlimit(50)]
pub proof fn lemma_word_write_then_read(old: Bus, new: Bus, a: usize, value: u32)
    requires
        old.wf(),
        old.word_stored(
            new,
            a,
            byte_of(value as u128, 0),
            byte_of(value as u128, 1),
            byte_of(value as u128, 2),
            byte_of(value as u128, 3),
        ),
        a % 4 == 0,
        a <= 0xFFFF_FFFC,
        keeps_writes(a),
        keeps_writes((a + 1) as usize),
        keeps_writes((a + 2) as usize),
        keeps_writes((a + 3) as usize),
    ensures
        new.byte_at(a) == byte_of(value as u128, 0),
        new.byte_at((a + 1) as usize) == byte_of(value as u128, 1),
        new.byte_at((a + 2) as usize) == byte_of(value as u128, 2),
        new.byte_at((a + 3) as usize) == byte_of(value as u128, 3),
        word_of(
            new.byte_at(a),
            new.byte_at((a + 1) as usize),
            new.byte_at((a + 2) as usize),
            new.byte_at((a + 3) as usize),
        ) == value,
{
    let b0 = byte_of(value as u128, 0);
    let b1 = byte_of(value as u128, 1);
    let b2 = byte_of(value as u128, 2);
    let b3 = byte_of(value as u128, 3);
    let a1 = (a + 1) as usize;
    let a2 = (a + 2) as usize;
    let a3 = (a + 3) as usize;
    lemma_bus_address_small(a);
    lemma_bus_address_small(a1);
    lemma_bus_address_small(a2);
    lemma_bus_address_small(a3);
    lemma_word_cells(a);
    let (s1, s2, s3) = choose|s1: Bus, s2: Bus, s3: Bus|
        old.stores(s1, bus_address(a), b0) && s1.stores(s2, bus_address(a1), b1) && s2.stores(
            s3,
            bus_address(a2),
            b2,
        ) && s3.stores(new, bus_address(a3), b3);
    lemma_write_then_read(old, s1, a, a, b0);
    lemma_write_keeps_other_cells(s1, s2, a1, a, b1);
    lemma_write_keeps_other_cells(s2, s3, a2, a, b2);
    lemma_write_keeps_other_cells(s3, new, a3, a, b3);
    lemma_write_then_read(s1, s2, a1, a1, b1);
    lemma_write_keeps_other_cells(s2, s3, a2, a1, b2);
    lemma_write_keeps_other_cells(s3, new, a3, a1, b3);
    lemma_write_then_read(s2, s3, a2, a2, b2);
    lemma_write_keeps_other_cells(s3, new, a3, a2, b3);
    lemma_write_then_read(s3, new, a3, a3, b3);
    lemma_word_bytes(value);
}

/// A word written in work RAM, or in palette RAM, video RAM or object
/// attributes, reads back: each of the four bytes at the word-aligned
/// address holds the byte of the value at its place (little-endian), and
/// the word read there is the value.
pub proof fn lemma_ram_word_write_reads_back(old: Bus, new: Bus, address: usize, value: u32)
    requires
        old.wf(),
        0x0200_0000 <= address <= 0x03FF_FFFF || 0x0500_0000 <= address <= 0x07FF_FFFF,
        old.word_stored(
            new,
            word_aligned(address),
            byte_of(value as u128, 0),
            byte_of(value as u128, 1),
            byte_of(value as u128, 2),
            byte_of(value as u128, 3),
        ),
    ensures
        forall|i: int|
            0 <= i < 4 ==> new.byte_at(#[trigger] ((word_aligned(address) + i) as usize))
                == byte_of(value as u128, i as u128),
        word_of(
            new.byte_at(word_aligned(address)),
            new.byte_at((word_aligned(address) + 1) as usize),
            new.byte_at((word_aligned(address) + 2) as usize),
            new.byte_at((word_aligned(address) + 3) as usize),
        ) == value,
{
    let a = word_aligned(address);
    assert(a % 4 == 0);
    lemma_word_write_then_read(old, new, a, value);
    assert forall|i: int| 0 <= i < 4 implies new.byte_at(#[trigger] ((a + i) as usize)) == byte_of(
        value as u128,
        i as u128,
    ) by {
        if i == 0 {
            assert((a + i) as usize == a);
        }
    }
}

/// A byte sign-extended to a word fits in a word.
pub proof fn lemma_sign_extend_byte_fits()
    ensures
        forall|v: u128| #[trigger] crate::bitwise::sign_extend(v, 8, 32) <= u32::MAX,
{
    assert forall|v: u128| #[trigger] crate::bitwise::sign_extend(v, 8, 32) <= u32::MAX by {
        let m = 1u128 << 7u128;
        lemma_low_word_fits(vstd::wrapping::u128_specs::wrapping_sub(v ^ m, m));
    }
}

proof fn lemma_low_word_fits(x: u128)
    by (bit_vector)
    ensures
        x & (((1u128 << 32u128) - 1) as u128) <= 0xFFFF_FFFF,
{
}

/// A halfword register with byte `k` replaced by `value`.
pub open spec fn byte_of_written(register: u16, k: int, value: u8) -> u16 {
    crate::bitwise::with_byte(register as u128, k as u128, value) as u16
}

} // verus!
