//! The keypad registers.
use crate::bitwise::{byte_of, lemma_zero_bytes, Bits};
use vstd::prelude::*;

verus! {

/// The keypad registers at 0x0400_0130 ..= 0x0400_0133.
pub struct Keypad {
    pub key_input: u16,
    pub key_interrupt_control: u16,
}

impl Keypad {
    /// The byte that the register file holds at `address`, or `None` where
    /// no register lies.
    pub open spec fn byte_at(self, address: usize) -> Option<u8> {
        match address {
            0x0400_0130 => Some(byte_of(self.key_input as u128, 0)),
            0x0400_0131 => Some(byte_of(self.key_input as u128, 1)),
            0x0400_0132 => Some(byte_of(self.key_interrupt_control as u128, 0)),
            0x0400_0133 => Some(byte_of(self.key_interrupt_control as u128, 1)),
            _ => None,
        }
    }

    /// The byte at `address`, or `None` where no register lies.
    pub fn read(&self, address: usize) -> (r: Option<u8>)
        ensures
            r == self.byte_at(address),
    {
        match address {
            0x0400_0130 => Some(self.key_input.get_byte(0)),
            0x0400_0131 => Some(self.key_input.get_byte(1)),
            0x0400_0132 => Some(self.key_interrupt_control.get_byte(0)),
            0x0400_0133 => Some(self.key_interrupt_control.get_byte(1)),
            _ => None,
        }
    }

    /// Stores `value` at `address` where a register lies there, and tells
    /// whether one did.
    pub fn write(&mut self, address: usize, value: u8) -> (stored: bool)
        ensures
            stored == old(self).byte_at(address) is Some,
            forall|b: usize|
                #[trigger] final(self).byte_at(b) == if stored && b == address {
                    Some(value)
                } else {
                    old(self).byte_at(b)
                },
    {
        match address {
            0x0400_0130 => {
                self.key_input.set_byte(0, value);
                true
            },
            0x0400_0131 => {
                self.key_input.set_byte(1, value);
                true
            },
            0x0400_0132 => {
                self.key_interrupt_control.set_byte(0, value);
                true
            },
            0x0400_0133 => {
                self.key_interrupt_control.set_byte(1, value);
                true
            },
            _ => false,
        }
    }
}

impl Default for Keypad {
    fn default() -> (r: Self)
        ensures
            forall|address: usize|
                #[trigger] r.byte_at(address) is Some ==> r.byte_at(address) == Some(0u8),
    {
        proof {
            lemma_zero_bytes(0);
            lemma_zero_bytes(1);
            lemma_zero_bytes(2);
            lemma_zero_bytes(3);
        }
        Keypad {
            key_input: 0,
            key_interrupt_control: 0,
        }
    }
}

} // verus!
