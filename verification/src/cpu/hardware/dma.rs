//! The four DMA channels' registers.
use crate::bitwise::{byte_of, lemma_zero_bytes};
use vstd::prelude::*;

verus! {

/// One DMA channel's registers, twelve bytes: source address, destination
/// address, word count and control.
#[derive(Clone, Copy)]
pub struct Registers {
    pub source_address: u32,
    pub destination_address: u32,
    pub word_count: u16,
    pub control: u16,
}

impl Registers {
    /// The byte at `offset` from the channel's first register, or `None`
    /// past its twelve bytes.
    pub open spec fn byte_at(self, offset: int) -> Option<u8> {
        if 0 <= offset < 4 {
            Some(byte_of(self.source_address as u128, offset as u128))
        } else if 4 <= offset < 8 {
            Some(byte_of(self.destination_address as u128, (offset - 4) as u128))
        } else if 8 <= offset < 10 {
            Some(byte_of(self.word_count as u128, (offset - 8) as u128))
        } else if 10 <= offset < 12 {
            Some(byte_of(self.control as u128, (offset - 10) as u128))
        } else {
            None
        }
    }

    /// All registers zero.
    pub fn new() -> (r: Self)
        ensures
            forall|offset: int| 0 <= offset < 12 ==> #[trigger] r.byte_at(offset) == Some(0u8),
    {
        proof {
            lemma_zero_bytes(0);
            lemma_zero_bytes(1);
            lemma_zero_bytes(2);
            lemma_zero_bytes(3);
        }
        Registers { source_address: 0, destination_address: 0, word_count: 0, control: 0 }
    }
}

/// The four channels, whose registers lie one after another from
/// 0x0400_00B0 to 0x0400_00DF.
pub struct Dma {
    pub channels: Vec<Registers>,
}

/// The address of channel `idx`'s first register.
pub open spec fn channel_base(idx: int) -> int {
    0x0400_00B0 + 12 * idx
}

impl Dma {
    /// There are four channels.
    pub open spec fn wf(&self) -> bool {
        self.channels.len() == 4
    }

    /// The byte that the channels' registers hold at `address`, or `None`
    /// where no register lies.
    pub open spec fn byte_at(self, address: usize) -> Option<u8> {
        if 0x0400_00B0 <= address <= 0x0400_00DF {
            let idx = (address - 0x0400_00B0) / 12;
            self.channels@[idx].byte_at(address - channel_base(idx))
        } else {
            None
        }
    }
}

impl Default for Dma {
    fn default() -> (r: Self)
        ensures
            r.wf(),
            forall|address: usize|
                #[trigger] r.byte_at(address) is Some ==> r.byte_at(address) == Some(0u8),
    {
        let mut channels: Vec<Registers> = Vec::new();
        let mut i: usize = 0;
        while i < 4
            invariant
                i <= 4,
                channels.len() == i,
                forall|j: int, offset: int|
                    0 <= j < i && 0 <= offset < 12 ==> #[trigger] channels@[j].byte_at(offset)
                        == Some(0u8),
            decreases 4 - i,
        {
            channels.push(Registers::new());
            i = i + 1;
        }
        Dma { channels }
    }
}

} // verus!
