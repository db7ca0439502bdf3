//! The LCD controller's I/O registers and its video memories.
use crate::bitwise::{byte_of, lemma_zero_bytes, Bits};
use crate::cpu::hardware::{all_zero, zeroed};
use vstd::prelude::*;

verus! {

/// The LCD I/O registers, at 0x0400_0000 ..= 0x0400_0055.
pub struct LcdRegisters {
    pub dispcnt: u16,
    pub green_swap: u16,
    pub dispstat: u16,
    pub vcount: u16,
    pub bg0cnt: u16,
    pub bg1cnt: u16,
    pub bg2cnt: u16,
    pub bg3cnt: u16,
    pub bg0hofs: u16,
    pub bg0vofs: u16,
    pub bg1hofs: u16,
    pub bg1vofs: u16,
    pub bg2hofs: u16,
    pub bg2vofs: u16,
    pub bg3hofs: u16,
    pub bg3vofs: u16,
    pub bg2pa: u16,
    pub bg2pb: u16,
    pub bg2pc: u16,
    pub bg2pd: u16,
    pub bg2x: u32,
    pub bg2y: u32,
    pub bg3pa: u16,
    pub bg3pb: u16,
    pub bg3pc: u16,
    pub bg3pd: u16,
    pub bg3x: u32,
    pub bg3y: u32,
    pub win0h: u16,
    pub win1h: u16,
    pub win0v: u16,
    pub win1v: u16,
    pub winin: u16,
    pub winout: u16,
    pub mosaic: u16,
    pub bldcnt: u16,
    pub bldalpha: u16,
    pub bldy: u16,
}

impl LcdRegisters {
    /// The byte that the register file holds at `address`, or `None` where
    /// no register lies.
    pub open spec fn byte_at(self, address: usize) -> Option<u8> {
        match address {
            0x0400_0000 => Some(byte_of(self.dispcnt as u128, 0)),
            0x0400_0001 => Some(byte_of(self.dispcnt as u128, 1)),
            0x0400_0002 => Some(byte_of(self.green_swap as u128, 0)),
            0x0400_0003 => Some(byte_of(self.green_swap as u128, 1)),
            0x0400_0004 => Some(byte_of(self.dispstat as u128, 0)),
            0x0400_0005 => Some(byte_of(self.dispstat as u128, 1)),
            0x0400_0006 => Some(byte_of(self.vcount as u128, 0)),
            0x0400_0007 => Some(byte_of(self.vcount as u128, 1)),
            0x0400_0008 => Some(byte_of(self.bg0cnt as u128, 0)),
            0x0400_0009 => Some(byte_of(self.bg0cnt as u128, 1)),
            0x0400_000A => Some(byte_of(self.bg1cnt as u128, 0)),
            0x0400_000B => Some(byte_of(self.bg1cnt as u128, 1)),
            0x0400_000C => Some(byte_of(self.bg2cnt as u128, 0)),
            0x0400_000D => Some(byte_of(self.bg2cnt as u128, 1)),
            0x0400_000E => Some(byte_of(self.bg3cnt as u128, 0)),
            0x0400_000F => Some(byte_of(self.bg3cnt as u128, 1)),
            0x0400_0010 => Some(byte_of(self.bg0hofs as u128, 0)),
            0x0400_0011 => Some(byte_of(self.bg0hofs as u128, 1)),
            0x0400_0012 => Some(byte_of(self.bg0vofs as u128, 0)),
            0x0400_0013 => Some(byte_of(self.bg0vofs as u128, 1)),
            0x0400_0014 => Some(byte_of(self.bg1hofs as u128, 0)),
            0x0400_0015 => Some(byte_of(self.bg1hofs as u128, 1)),
            0x0400_0016 => Some(byte_of(self.bg1vofs as u128, 0)),
            0x0400_0017 => Some(byte_of(self.bg1vofs as u128, 1)),
            0x0400_0018 => Some(byte_of(self.bg2hofs as u128, 0)),
            0x0400_0019 => Some(byte_of(self.bg2hofs as u128, 1)),
            0x0400_001A => Some(byte_of(self.bg2vofs as u128, 0)),
            0x0400_001B => Some(byte_of(self.bg2vofs as u128, 1)),
            0x0400_001C => Some(byte_of(self.bg3hofs as u128, 0)),
            0x0400_001D => Some(byte_of(self.bg3hofs as u128, 1)),
            0x0400_001E => Some(byte_of(self.bg3vofs as u128, 0)),
            0x0400_001F => Some(byte_of(self.bg3vofs as u128, 1)),
            0x0400_0020 => Some(byte_of(self.bg2pa as u128, 0)),
            0x0400_0021 => Some(byte_of(self.bg2pa as u128, 1)),
            0x0400_0022 => Some(byte_of(self.bg2pb as u128, 0)),
            0x0400_0023 => Some(byte_of(self.bg2pb as u128, 1)),
            0x0400_0024 => Some(byte_of(self.bg2pc as u128, 0)),
            0x0400_0025 => Some(byte_of(self.bg2pc as u128, 1)),
            0x0400_0026 => Some(byte_of(self.bg2pd as u128, 0)),
            0x0400_0027 => Some(byte_of(self.bg2pd as u128, 1)),
            0x0400_0028 => Some(byte_of(self.bg2x as u128, 0)),
            0x0400_0029 => Some(byte_of(self.bg2x as u128, 1)),
            0x0400_002A => Some(byte_of(self.bg2x as u128, 2)),
            0x0400_002B => Some(byte_of(self.bg2x as u128, 3)),
            0x0400_002C => Some(byte_of(self.bg2y as u128, 0)),
            0x0400_002D => Some(byte_of(self.bg2y as u128, 1)),
            0x0400_002E => Some(byte_of(self.bg2y as u128, 2)),
            0x0400_002F => Some(byte_of(self.bg2y as u128, 3)),
            0x0400_0030 => Some(byte_of(self.bg3pa as u128, 0)),
            0x0400_0031 => Some(byte_of(self.bg3pa as u128, 1)),
            0x0400_0032 => Some(byte_of(self.bg3pb as u128, 0)),
            0x0400_0033 => Some(byte_of(self.bg3pb as u128, 1)),
            0x0400_0034 => Some(byte_of(self.bg3pc as u128, 0)),
            0x0400_0035 => Some(byte_of(self.bg3pc as u128, 1)),
            0x0400_0036 => Some(byte_of(self.bg3pd as u128, 0)),
            0x0400_0037 => Some(byte_of(self.bg3pd as u128, 1)),
            0x0400_0038 => Some(byte_of(self.bg3x as u128, 0)),
            0x0400_0039 => Some(byte_of(self.bg3x as u128, 1)),
            0x0400_003A => Some(byte_of(self.bg3x as u128, 2)),
            0x0400_003B => Some(byte_of(self.bg3x as u128, 3)),
            0x0400_003C => Some(byte_of(self.bg3y as u128, 0)),
            0x0400_003D => Some(byte_of(self.bg3y as u128, 1)),
            0x0400_003E => Some(byte_of(self.bg3y as u128, 2)),
            0x0400_003F => Some(byte_of(self.bg3y as u128, 3)),
            0x0400_0040 => Some(byte_of(self.win0h as u128, 0)),
            0x0400_0041 => Some(byte_of(self.win0h as u128, 1)),
            0x0400_0042 => Some(byte_of(self.win1h as u128, 0)),
            0x0400_0043 => Some(byte_of(self.win1h as u128, 1)),
            0x0400_0044 => Some(byte_of(self.win0v as u128, 0)),
            0x0400_0045 => Some(byte_of(self.win0v as u128, 1)),
            0x0400_0046 => Some(byte_of(self.win1v as u128, 0)),
            0x0400_0047 => Some(byte_of(self.win1v as u128, 1)),
            0x0400_0048 => Some(byte_of(self.winin as u128, 0)),
            0x0400_0049 => Some(byte_of(self.winin as u128, 1)),
            0x0400_004A => Some(byte_of(self.winout as u128, 0)),
            0x0400_004B => Some(byte_of(self.winout as u128, 1)),
            0x0400_004C => Some(byte_of(self.mosaic as u128, 0)),
            0x0400_004D => Some(byte_of(self.mosaic as u128, 1)),
            0x0400_0050 => Some(byte_of(self.bldcnt as u128, 0)),
            0x0400_0051 => Some(byte_of(self.bldcnt as u128, 1)),
            0x0400_0052 => Some(byte_of(self.bldalpha as u128, 0)),
            0x0400_0053 => Some(byte_of(self.bldalpha as u128, 1)),
            0x0400_0054 => Some(byte_of(self.bldy as u128, 0)),
            0x0400_0055 => Some(byte_of(self.bldy as u128, 1)),
            _ => None,
        }
    }

    /// The byte at `address`, or `None` where no register lies.
    pub fn read(&self, address: usize) -> (r: Option<u8>)
        ensures
            r == self.byte_at(address),
    {
        match address {
            0x0400_0000 => Some(self.dispcnt.get_byte(0)),
            0x0400_0001 => Some(self.dispcnt.get_byte(1)),
            0x0400_0002 => Some(self.green_swap.get_byte(0)),
            0x0400_0003 => Some(self.green_swap.get_byte(1)),
            0x0400_0004 => Some(self.dispstat.get_byte(0)),
            0x0400_0005 => Some(self.dispstat.get_byte(1)),
            0x0400_0006 => Some(self.vcount.get_byte(0)),
            0x0400_0007 => Some(self.vcount.get_byte(1)),
            0x0400_0008 => Some(self.bg0cnt.get_byte(0)),
            0x0400_0009 => Some(self.bg0cnt.get_byte(1)),
            0x0400_000A => Some(self.bg1cnt.get_byte(0)),
            0x0400_000B => Some(self.bg1cnt.get_byte(1)),
            0x0400_000C => Some(self.bg2cnt.get_byte(0)),
            0x0400_000D => Some(self.bg2cnt.get_byte(1)),
            0x0400_000E => Some(self.bg3cnt.get_byte(0)),
            0x0400_000F => Some(self.bg3cnt.get_byte(1)),
            0x0400_0010 => Some(self.bg0hofs.get_byte(0)),
            0x0400_0011 => Some(self.bg0hofs.get_byte(1)),
            0x0400_0012 => Some(self.bg0vofs.get_byte(0)),
            0x0400_0013 => Some(self.bg0vofs.get_byte(1)),
            0x0400_0014 => Some(self.bg1hofs.get_byte(0)),
            0x0400_0015 => Some(self.bg1hofs.get_byte(1)),
            0x0400_0016 => Some(self.bg1vofs.get_byte(0)),
            0x0400_0017 => Some(self.bg1vofs.get_byte(1)),
            0x0400_0018 => Some(self.bg2hofs.get_byte(0)),
            0x0400_0019 => Some(self.bg2hofs.get_byte(1)),
            0x0400_001A => Some(self.bg2vofs.get_byte(0)),
            0x0400_001B => Some(self.bg2vofs.get_byte(1)),
            0x0400_001C => Some(self.bg3hofs.get_byte(0)),
            0x0400_001D => Some(self.bg3hofs.get_byte(1)),
            0x0400_001E => Some(self.bg3vofs.get_byte(0)),
            0x0400_001F => Some(self.bg3vofs.get_byte(1)),
            0x0400_0020 => Some(self.bg2pa.get_byte(0)),
            0x0400_0021 => Some(self.bg2pa.get_byte(1)),
            0x0400_0022 => Some(self.bg2pb.get_byte(0)),
            0x0400_0023 => Some(self.bg2pb.get_byte(1)),
            0x0400_0024 => Some(self.bg2pc.get_byte(0)),
            0x0400_0025 => Some(self.bg2pc.get_byte(1)),
            0x0400_0026 => Some(self.bg2pd.get_byte(0)),
            0x0400_0027 => Some(self.bg2pd.get_byte(1)),
            0x0400_0028 => Some(self.bg2x.get_byte(0)),
            0x0400_0029 => Some(self.bg2x.get_byte(1)),
            0x0400_002A => Some(self.bg2x.get_byte(2)),
            0x0400_002B => Some(self.bg2x.get_byte(3)),
            0x0400_002C => Some(self.bg2y.get_byte(0)),
            0x0400_002D => Some(self.bg2y.get_byte(1)),
            0x0400_002E => Some(self.bg2y.get_byte(2)),
            0x0400_002F => Some(self.bg2y.get_byte(3)),
            0x0400_0030 => Some(self.bg3pa.get_byte(0)),
            0x0400_0031 => Some(self.bg3pa.get_byte(1)),
            0x0400_0032 => Some(self.bg3pb.get_byte(0)),
            0x0400_0033 => Some(self.bg3pb.get_byte(1)),
            0x0400_0034 => Some(self.bg3pc.get_byte(0)),
            0x0400_0035 => Some(self.bg3pc.get_byte(1)),
            0x0400_0036 => Some(self.bg3pd.get_byte(0)),
            0x0400_0037 => Some(self.bg3pd.get_byte(1)),
            0x0400_0038 => Some(self.bg3x.get_byte(0)),
            0x0400_0039 => Some(self.bg3x.get_byte(1)),
            0x0400_003A => Some(self.bg3x.get_byte(2)),
            0x0400_003B => Some(self.bg3x.get_byte(3)),
            0x0400_003C => Some(self.bg3y.get_byte(0)),
            0x0400_003D => Some(self.bg3y.get_byte(1)),
            0x0400_003E => Some(self.bg3y.get_byte(2)),
            0x0400_003F => Some(self.bg3y.get_byte(3)),
            0x0400_0040 => Some(self.win0h.get_byte(0)),
            0x0400_0041 => Some(self.win0h.get_byte(1)),
            0x0400_0042 => Some(self.win1h.get_byte(0)),
            0x0400_0043 => Some(self.win1h.get_byte(1)),
            0x0400_0044 => Some(self.win0v.get_byte(0)),
            0x0400_0045 => Some(self.win0v.get_byte(1)),
            0x0400_0046 => Some(self.win1v.get_byte(0)),
            0x0400_0047 => Some(self.win1v.get_byte(1)),
            0x0400_0048 => Some(self.winin.get_byte(0)),
            0x0400_0049 => Some(self.winin.get_byte(1)),
            0x0400_004A => Some(self.winout.get_byte(0)),
            0x0400_004B => Some(self.winout.get_byte(1)),
            0x0400_004C => Some(self.mosaic.get_byte(0)),
            0x0400_004D => Some(self.mosaic.get_byte(1)),
            0x0400_0050 => Some(self.bldcnt.get_byte(0)),
            0x0400_0051 => Some(self.bldcnt.get_byte(1)),
            0x0400_0052 => Some(self.bldalpha.get_byte(0)),
            0x0400_0053 => Some(self.bldalpha.get_byte(1)),
            0x0400_0054 => Some(self.bldy.get_byte(0)),
            0x0400_0055 => Some(self.bldy.get_byte(1)),
            _ => None,
        }
    }

    /// Stores `value` at `address` where a register lies there, and tells
    /// whether one did.
    pub fn write(&mut self, address: usize, value: u8) -> (stored: bool)
        ensures
            stored == old(self).byte_at(address) is Some,
            forall|b: usize|
                #[trigger] final(self).byte_at(b) == if stored && b == address {
                    Some(value)
                } else {
                    old(self).byte_at(b)
                },
    {
        match address {
            0x0400_0000 => {
                self.dispcnt.set_byte(0, value);
                true
            },
            0x0400_0001 => {
                self.dispcnt.set_byte(1, value);
                true
            },
            0x0400_0002 => {
                self.green_swap.set_byte(0, value);
                true
            },
            0x0400_0003 => {
                self.green_swap.set_byte(1, value);
                true
            },
            0x0400_0004 => {
                self.dispstat.set_byte(0, value);
                true
            },
            0x0400_0005 => {
                self.dispstat.set_byte(1, value);
                true
            },
            0x0400_0006 => {
                self.vcount.set_byte(0, value);
                true
            },
            0x0400_0007 => {
                self.vcount.set_byte(1, value);
                true
            },
            0x0400_0008 => {
                self.bg0cnt.set_byte(0, value);
                true
            },
            0x0400_0009 => {
                self.bg0cnt.set_byte(1, value);
                true
            },
            0x0400_000A => {
                self.bg1cnt.set_byte(0, value);
                true
            },
            0x0400_000B => {
                self.bg1cnt.set_byte(1, value);
                true
            },
            0x0400_000C => {
                self.bg2cnt.set_byte(0, value);
                true
            },
            0x0400_000D => {
                self.bg2cnt.set_byte(1, value);
                true
            },
            0x0400_000E => {
                self.bg3cnt.set_byte(0, value);
                true
            },
            0x0400_000F => {
                self.bg3cnt.set_byte(1, value);
                true
            },
            0x0400_0010 => {
                self.bg0hofs.set_byte(0, value);
                true
            },
            0x0400_0011 => {
                self.bg0hofs.set_byte(1, value);
                true
            },
            0x0400_0012 => {
                self.bg0vofs.set_byte(0, value);
                true
            },
            0x0400_0013 => {
                self.bg0vofs.set_byte(1, value);
                true
            },
            0x0400_0014 => {
                self.bg1hofs.set_byte(0, value);
                true
            },
            0x0400_0015 => {
                self.bg1hofs.set_byte(1, value);
                true
            },
            0x0400_0016 => {
                self.bg1vofs.set_byte(0, value);
                true
            },
            0x0400_0017 => {
                self.bg1vofs.set_byte(1, value);
                true
            },
            0x0400_0018 => {
                self.bg2hofs.set_byte(0, value);
                true
            },
            0x0400_0019 => {
                self.bg2hofs.set_byte(1, value);
                true
            },
            0x0400_001A => {
                self.bg2vofs.set_byte(0, value);
                true
            },
            0x0400_001B => {
                self.bg2vofs.set_byte(1, value);
                true
            },
            0x0400_001C => {
                self.bg3hofs.set_byte(0, value);
                true
            },
            0x0400_001D => {
                self.bg3hofs.set_byte(1, value);
                true
            },
            0x0400_001E => {
                self.bg3vofs.set_byte(0, value);
                true
            },
            0x0400_001F => {
                self.bg3vofs.set_byte(1, value);
                true
            },
            0x0400_0020 => {
                self.bg2pa.set_byte(0, value);
                true
            },
            0x0400_0021 => {
                self.bg2pa.set_byte(1, value);
                true
            },
            0x0400_0022 => {
                self.bg2pb.set_byte(0, value);
                true
            },
            0x0400_0023 => {
                self.bg2pb.set_byte(1, value);
                true
            },
            0x0400_0024 => {
                self.bg2pc.set_byte(0, value);
                true
            },
            0x0400_0025 => {
                self.bg2pc.set_byte(1, value);
                true
            },
            0x0400_0026 => {
                self.bg2pd.set_byte(0, value);
                true
            },
            0x0400_0027 => {
                self.bg2pd.set_byte(1, value);
                true
            },
            0x0400_0028 => {
                self.bg2x.set_byte(0, value);
                true
            },
            0x0400_0029 => {
                self.bg2x.set_byte(1, value);
                true
            },
            0x0400_002A => {
                self.bg2x.set_byte(2, value);
                true
            },
            0x0400_002B => {
                self.bg2x.set_byte(3, value);
                true
            },
            0x0400_002C => {
                self.bg2y.set_byte(0, value);
                true
            },
            0x0400_002D => {
                self.bg2y.set_byte(1, value);
                true
            },
            0x0400_002E => {
                self.bg2y.set_byte(2, value);
                true
            },
            0x0400_002F => {
                self.bg2y.set_byte(3, value);
                true
            },
            0x0400_0030 => {
                self.bg3pa.set_byte(0, value);
                true
            },
            0x0400_0031 => {
                self.bg3pa.set_byte(1, value);
                true
            },
            0x0400_0032 => {
                self.bg3pb.set_byte(0, value);
                true
            },
            0x0400_0033 => {
                self.bg3pb.set_byte(1, value);
                true
            },
            0x0400_0034 => {
                self.bg3pc.set_byte(0, value);
                true
            },
            0x0400_0035 => {
                self.bg3pc.set_byte(1, value);
                true
            },
            0x0400_0036 => {
                self.bg3pd.set_byte(0, value);
                true
            },
            0x0400_0037 => {
                self.bg3pd.set_byte(1, value);
                true
            },
            0x0400_0038 => {
                self.bg3x.set_byte(0, value);
                true
            },
            0x0400_0039 => {
                self.bg3x.set_byte(1, value);
                true
            },
            0x0400_003A => {
                self.bg3x.set_byte(2, value);
                true
            },
            0x0400_003B => {
                self.bg3x.set_byte(3, value);
                true
            },
            0x0400_003C => {
                self.bg3y.set_byte(0, value);
                true
            },
            0x0400_003D => {
                self.bg3y.set_byte(1, value);
                true
            },
            0x0400_003E => {
                self.bg3y.set_byte(2, value);
                true
            },
            0x0400_003F => {
                self.bg3y.set_byte(3, value);
                true
            },
            0x0400_0040 => {
                self.win0h.set_byte(0, value);
                true
            },
            0x0400_0041 => {
                self.win0h.set_byte(1, value);
                true
            },
            0x0400_0042 => {
                self.win1h.set_byte(0, value);
                true
            },
            0x0400_0043 => {
                self.win1h.set_byte(1, value);
                true
            },
            0x0400_0044 => {
                self.win0v.set_byte(0, value);
                true
            },
            0x0400_0045 => {
                self.win0v.set_byte(1, value);
                true
            },
            0x0400_0046 => {
                self.win1v.set_byte(0, value);
                true
            },
            0x0400_0047 => {
                self.win1v.set_byte(1, value);
                true
            },
            0x0400_0048 => {
                self.winin.set_byte(0, value);
                true
            },
            0x0400_0049 => {
                self.winin.set_byte(1, value);
                true
            },
            0x0400_004A => {
                self.winout.set_byte(0, value);
                true
            },
            0x0400_004B => {
                self.winout.set_byte(1, value);
                true
            },
            0x0400_004C => {
                self.mosaic.set_byte(0, value);
                true
            },
            0x0400_004D => {
                self.mosaic.set_byte(1, value);
                true
            },
            0x0400_0050 => {
                self.bldcnt.set_byte(0, value);
                true
            },
            0x0400_0051 => {
                self.bldcnt.set_byte(1, value);
                true
            },
            0x0400_0052 => {
                self.bldalpha.set_byte(0, value);
                true
            },
            0x0400_0053 => {
                self.bldalpha.set_byte(1, value);
                true
            },
            0x0400_0054 => {
                self.bldy.set_byte(0, value);
                true
            },
            0x0400_0055 => {
                self.bldy.set_byte(1, value);
                true
            },
            _ => false,
        }
    }
}

impl Default for LcdRegisters {
    fn default() -> (r: Self)
        ensures
            forall|address: usize|
                #[trigger] r.byte_at(address) is Some ==> r.byte_at(address) == Some(0u8),
    {
        proof {
            lemma_zero_bytes(0);
            lemma_zero_bytes(1);
            lemma_zero_bytes(2);
            lemma_zero_bytes(3);
        }
        LcdRegisters {
            dispcnt: 0,
            green_swap: 0,
            dispstat: 0,
            vcount: 0,
            bg0cnt: 0,
            bg1cnt: 0,
            bg2cnt: 0,
            bg3cnt: 0,
            bg0hofs: 0,
            bg0vofs: 0,
            bg1hofs: 0,
            bg1vofs: 0,
            bg2hofs: 0,
            bg2vofs: 0,
            bg3hofs: 0,
            bg3vofs: 0,
            bg2pa: 0,
            bg2pb: 0,
            bg2pc: 0,
            bg2pd: 0,
            bg2x: 0,
            bg2y: 0,
            bg3pa: 0,
            bg3pb: 0,
            bg3pc: 0,
            bg3pd: 0,
            bg3x: 0,
            bg3y: 0,
            win0h: 0,
            win1h: 0,
            win0v: 0,
            win1v: 0,
            winin: 0,
            winout: 0,
            mosaic: 0,
            bldcnt: 0,
            bldalpha: 0,
            bldy: 0,
        }
    }
}

/// The video memories: background and object palettes (512 bytes each),
/// video RAM (96 KB) and object attributes (1 KB).
pub struct LcdMemory {
    pub bg_palette_ram: Vec<u8>,
    pub obj_palette_ram: Vec<u8>,
    pub video_ram: Vec<u8>,
    pub obj_attributes: Vec<u8>,
}

impl LcdMemory {
    /// Each memory has its hardware size.
    pub open spec fn wf(&self) -> bool {
        &&& self.bg_palette_ram.len() == 0x200
        &&& self.obj_palette_ram.len() == 0x200
        &&& self.video_ram.len() == 0x1_8000
        &&& self.obj_attributes.len() == 0x400
    }
}

impl Default for LcdMemory {
    fn default() -> (r: Self)
        ensures
            r.wf(),
            all_zero(r.bg_palette_ram@),
            all_zero(r.obj_palette_ram@),
            all_zero(r.video_ram@),
            all_zero(r.obj_attributes@),
    {
        LcdMemory {
            bg_palette_ram: zeroed(0x200),
            obj_palette_ram: zeroed(0x200),
            video_ram: zeroed(0x1_8000),
            obj_attributes: zeroed(0x400),
        }
    }
}

/// The LCD controller: its registers and its memories.
pub struct Lcd {
    pub registers: LcdRegisters,
    pub memory: LcdMemory,
}

impl Default for Lcd {
    fn default() -> (r: Self)
        ensures
            r.memory.wf(),
            forall|address: usize|
                #[trigger] r.registers.byte_at(address) is Some ==> r.registers.byte_at(address)
                    == Some(0u8),
            all_zero(r.memory.bg_palette_ram@),
            all_zero(r.memory.obj_palette_ram@),
            all_zero(r.memory.video_ram@),
            all_zero(r.memory.obj_attributes@),
    {
        Lcd { registers: LcdRegisters::default(), memory: LcdMemory::default() }
    }
}

} // verus!
