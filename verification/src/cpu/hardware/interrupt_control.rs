//! The interrupt, wait state and power-down registers.
use crate::bitwise::{byte_of, lemma_zero_bytes, Bits};
use vstd::prelude::*;

verus! {

/// The registers at 0x0400_0200 ..= 0x0400_0410: interrupt enable (IE),
/// interrupt request flags (IF), wait state control, interrupt master enable
/// (IME), the post-boot flag, power-down control and one register of unknown
/// purpose.
pub struct InterruptControl {
    pub interrupt_enable: u16,
    pub interrupt_request: u16,
    pub wait_state_control: u16,
    pub interrupt_master_enable: u16,
    pub post_boot_flag: u8,
    pub power_down_control: u8,
    pub purpose_unknown: u8,
}

impl InterruptControl {
    /// The byte that the registers hold at `address`, or `None` where no
    /// register lies.
    pub open spec fn byte_at(self, address: usize) -> Option<u8> {
        match address {
            0x0400_0200 => Some(byte_of(self.interrupt_enable as u128, 0)),
            0x0400_0201 => Some(byte_of(self.interrupt_enable as u128, 1)),
            0x0400_0202 => Some(byte_of(self.interrupt_request as u128, 0)),
            0x0400_0203 => Some(byte_of(self.interrupt_request as u128, 1)),
            0x0400_0204 => Some(byte_of(self.wait_state_control as u128, 0)),
            0x0400_0205 => Some(byte_of(self.wait_state_control as u128, 1)),
            0x0400_0208 => Some(byte_of(self.interrupt_master_enable as u128, 0)),
            0x0400_0209 => Some(byte_of(self.interrupt_master_enable as u128, 1)),
            0x0400_0300 => Some(byte_of(self.post_boot_flag as u128, 0)),
            0x0400_0301 => Some(byte_of(self.power_down_control as u128, 0)),
            0x0400_0410 => Some(byte_of(self.purpose_unknown as u128, 0)),
            _ => None,
        }
    }

    /// Whether `address` is one of the two bytes of the request flags, where
    /// a write acknowledges interrupts instead of storing.
    pub open spec fn is_acknowledge(address: usize) -> bool {
        address == 0x0400_0202 || address == 0x0400_0203
    }

    /// The request flags after writing `value` to byte `n` of them: each one
    /// bit of `value` clears the matching flag.
    pub open spec fn acknowledged(flags: u16, n: u128, value: u8) -> u16 {
        if n == 0 {
            flags & !(value as u16)
        } else {
            flags & !((value as u16) << 8u16)
        }
    }

    /// The byte at `address`, or `None` where no register lies.
    pub fn read(&self, address: usize) -> (r: Option<u8>)
        ensures
            r == self.byte_at(address),
    {
        match address {
            0x0400_0200 => Some(self.interrupt_enable.get_byte(0)),
            0x0400_0201 => Some(self.interrupt_enable.get_byte(1)),
            0x0400_0202 => Some(self.interrupt_request.get_byte(0)),
            0x0400_0203 => Some(self.interrupt_request.get_byte(1)),
            0x0400_0204 => Some(self.wait_state_control.get_byte(0)),
            0x0400_0205 => Some(self.wait_state_control.get_byte(1)),
            0x0400_0208 => Some(self.interrupt_master_enable.get_byte(0)),
            0x0400_0209 => Some(self.interrupt_master_enable.get_byte(1)),
            0x0400_0300 => Some(self.post_boot_flag.get_byte(0)),
            0x0400_0301 => Some(self.power_down_control.get_byte(0)),
            0x0400_0410 => Some(self.purpose_unknown.get_byte(0)),
            _ => None,
        }
    }

    /// Writes `value` at `address` where a register lies there, and tells
    /// whether one did. A write to the request flags acknowledges the
    /// interrupts whose bits are one in `value`; every other register stores
    /// the byte.
    pub fn write(&mut self, address: usize, value: u8) -> (stored: bool)
        ensures
            stored == old(self).byte_at(address) is Some,
            final(self).interrupt_request == if address == 0x0400_0202 {
                Self::acknowledged(old(self).interrupt_request, 0, value)
            } else if address == 0x0400_0203 {
                Self::acknowledged(old(self).interrupt_request, 1, value)
            } else {
                old(self).interrupt_request
            },
            forall|b: usize|
                !Self::is_acknowledge(b) ==> #[trigger] final(self).byte_at(b) == if stored && b
                    == address {
                    Some(value)
                } else {
                    old(self).byte_at(b)
                },
    {
        match address {
            0x0400_0200 => {
                self.interrupt_enable.set_byte(0, value);
                true
            },
            0x0400_0201 => {
                self.interrupt_enable.set_byte(1, value);
                true
            },
            0x0400_0202 => {
                self.interrupt_request = self.interrupt_request & !(value as u16);
                true
            },
            0x0400_0203 => {
                self.interrupt_request = self.interrupt_request & !((value as u16) << 8u16);
                true
            },
            0x0400_0204 => {
                self.wait_state_control.set_byte(0, value);
                true
            },
            0x0400_0205 => {
                self.wait_state_control.set_byte(1, value);
                true
            },
            0x0400_0208 => {
                self.interrupt_master_enable.set_byte(0, value);
                true
            },
            0x0400_0209 => {
                self.interrupt_master_enable.set_byte(1, value);
                true
            },
            0x0400_0300 => {
                self.post_boot_flag.set_byte(0, value);
                true
            },
            0x0400_0301 => {
                self.power_down_control.set_byte(0, value);
                true
            },
            0x0400_0410 => {
                self.purpose_unknown.set_byte(0, value);
                true
            },
            _ => false,
        }
    }
}

impl Default for InterruptControl {
    fn default() -> (r: Self)
        ensures
            forall|address: usize|
                #[trigger] r.byte_at(address) is Some ==> r.byte_at(address) == Some(0u8),
    {
        proof {
            lemma_zero_bytes(0);
            lemma_zero_bytes(1);
        }
        InterruptControl {
            interrupt_enable: 0,
            interrupt_request: 0,
            wait_state_control: 0,
            interrupt_master_enable: 0,
            post_boot_flag: 0,
            power_down_control: 0,
            purpose_unknown: 0,
        }
    }
}

} // verus!
