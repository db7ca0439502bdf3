//! The serial communication registers.
use crate::bitwise::{byte_of, lemma_zero_bytes, Bits};
use vstd::prelude::*;

verus! {

/// The serial I/O registers at 0x0400_0120 ..= 0x0400_0159, around the keypad's.
pub struct Serial {
    pub sio_data_32_multi_data_0_data_1: u32,
    pub sio_multi_data_2: u16,
    pub sio_multi_data_3: u16,
    pub sio_control_register: u16,
    pub sio_multi_data_send_data_8: u16,
    pub sio_mode_select: u16,
    pub infrared_register: u16,
    pub sio_joy_bus_control: u16,
    pub sio_joy_bus_receive_data: u32,
    pub sio_joy_bus_transmit_data: u32,
    pub sio_joy_bus_receive_status: u16,
}

impl Serial {
    /// The byte that the register file holds at `address`, or `None` where
    /// no register lies.
    pub open spec fn byte_at(self, address: usize) -> Option<u8> {
        match address {
            0x0400_0120 => Some(byte_of(self.sio_data_32_multi_data_0_data_1 as u128, 0)),
            0x0400_0121 => Some(byte_of(self.sio_data_32_multi_data_0_data_1 as u128, 1)),
            0x0400_0122 => Some(byte_of(self.sio_data_32_multi_data_0_data_1 as u128, 2)),
            0x0400_0123 => Some(byte_of(self.sio_data_32_multi_data_0_data_1 as u128, 3)),
            0x0400_0124 => Some(byte_of(self.sio_multi_data_2 as u128, 0)),
            0x0400_0125 => Some(byte_of(self.sio_multi_data_2 as u128, 1)),
            0x0400_0126 => Some(byte_of(self.sio_multi_data_3 as u128, 0)),
            0x0400_0127 => Some(byte_of(self.sio_multi_data_3 as u128, 1)),
            0x0400_0128 => Some(byte_of(self.sio_control_register as u128, 0)),
            0x0400_0129 => Some(byte_of(self.sio_control_register as u128, 1)),
            0x0400_012A => Some(byte_of(self.sio_multi_data_send_data_8 as u128, 0)),
            0x0400_012B => Some(byte_of(self.sio_multi_data_send_data_8 as u128, 1)),
            0x0400_0134 => Some(byte_of(self.sio_mode_select as u128, 0)),
            0x0400_0135 => Some(byte_of(self.sio_mode_select as u128, 1)),
            0x0400_0136 => Some(byte_of(self.infrared_register as u128, 0)),
            0x0400_0137 => Some(byte_of(self.infrared_register as u128, 1)),
            0x0400_0140 => Some(byte_of(self.sio_joy_bus_control as u128, 0)),
            0x0400_0141 => Some(byte_of(self.sio_joy_bus_control as u128, 1)),
            0x0400_0150 => Some(byte_of(self.sio_joy_bus_receive_data as u128, 0)),
            0x0400_0151 => Some(byte_of(self.sio_joy_bus_receive_data as u128, 1)),
            0x0400_0152 => Some(byte_of(self.sio_joy_bus_receive_data as u128, 2)),
            0x0400_0153 => Some(byte_of(self.sio_joy_bus_receive_data as u128, 3)),
            0x0400_0154 => Some(byte_of(self.sio_joy_bus_transmit_data as u128, 0)),
            0x0400_0155 => Some(byte_of(self.sio_joy_bus_transmit_data as u128, 1)),
            0x0400_0156 => Some(byte_of(self.sio_joy_bus_transmit_data as u128, 2)),
            0x0400_0157 => Some(byte_of(self.sio_joy_bus_transmit_data as u128, 3)),
            0x0400_0158 => Some(byte_of(self.sio_joy_bus_receive_status as u128, 0)),
            0x0400_0159 => Some(byte_of(self.sio_joy_bus_receive_status as u128, 1)),
            _ => None,
        }
    }

    /// The byte at `address`, or `None` where no register lies.
    pub fn read(&self, address: usize) -> (r: Option<u8>)
        ensures
            r == self.byte_at(address),
    {
        match address {
            0x0400_0120 => Some(self.sio_data_32_multi_data_0_data_1.get_byte(0)),
            0x0400_0121 => Some(self.sio_data_32_multi_data_0_data_1.get_byte(1)),
            0x0400_0122 => Some(self.sio_data_32_multi_data_0_data_1.get_byte(2)),
            0x0400_0123 => Some(self.sio_data_32_multi_data_0_data_1.get_byte(3)),
            0x0400_0124 => Some(self.sio_multi_data_2.get_byte(0)),
            0x0400_0125 => Some(self.sio_multi_data_2.get_byte(1)),
            0x0400_0126 => Some(self.sio_multi_data_3.get_byte(0)),
            0x0400_0127 => Some(self.sio_multi_data_3.get_byte(1)),
            0x0400_0128 => Some(self.sio_control_register.get_byte(0)),
            0x0400_0129 => Some(self.sio_control_register.get_byte(1)),
            0x0400_012A => Some(self.sio_multi_data_send_data_8.get_byte(0)),
            0x0400_012B => Some(self.sio_multi_data_send_data_8.get_byte(1)),
            0x0400_0134 => Some(self.sio_mode_select.get_byte(0)),
            0x0400_0135 => Some(self.sio_mode_select.get_byte(1)),
            0x0400_0136 => Some(self.infrared_register.get_byte(0)),
            0x0400_0137 => Some(self.infrared_register.get_byte(1)),
            0x0400_0140 => Some(self.sio_joy_bus_control.get_byte(0)),
            0x0400_0141 => Some(self.sio_joy_bus_control.get_byte(1)),
            0x0400_0150 => Some(self.sio_joy_bus_receive_data.get_byte(0)),
            0x0400_0151 => Some(self.sio_joy_bus_receive_data.get_byte(1)),
            0x0400_0152 => Some(self.sio_joy_bus_receive_data.get_byte(2)),
            0x0400_0153 => Some(self.sio_joy_bus_receive_data.get_byte(3)),
            0x0400_0154 => Some(self.sio_joy_bus_transmit_data.get_byte(0)),
            0x0400_0155 => Some(self.sio_joy_bus_transmit_data.get_byte(1)),
            0x0400_0156 => Some(self.sio_joy_bus_transmit_data.get_byte(2)),
            0x0400_0157 => Some(self.sio_joy_bus_transmit_data.get_byte(3)),
            0x0400_0158 => Some(self.sio_joy_bus_receive_status.get_byte(0)),
            0x0400_0159 => Some(self.sio_joy_bus_receive_status.get_byte(1)),
            _ => None,
        }
    }

    /// Stores `value` at `address` where a register lies there, and tells
    /// whether one did.
    pub fn write(&mut self, address: usize, value: u8) -> (stored: bool)
        ensures
            stored == old(self).byte_at(address) is Some,
            forall|b: usize|
                #[trigger] final(self).byte_at(b) == if stored && b == address {
                    Some(value)
                } else {
                    old(self).byte_at(b)
                },
    {
        match address {
            0x0400_0120 => {
                self.sio_data_32_multi_data_0_data_1.set_byte(0, value);
                true
            },
            0x0400_0121 => {
                self.sio_data_32_multi_data_0_data_1.set_byte(1, value);
                true
            },
            0x0400_0122 => {
                self.sio_data_32_multi_data_0_data_1.set_byte(2, value);
                true
            },
            0x0400_0123 => {
                self.sio_data_32_multi_data_0_data_1.set_byte(3, value);
                true
            },
            0x0400_0124 => {
                self.sio_multi_data_2.set_byte(0, value);
                true
            },
            0x0400_0125 => {
                self.sio_multi_data_2.set_byte(1, value);
                true
            },
            0x0400_0126 => {
                self.sio_multi_data_3.set_byte(0, value);
                true
            },
            0x0400_0127 => {
                self.sio_multi_data_3.set_byte(1, value);
                true
            },
            0x0400_0128 => {
                self.sio_control_register.set_byte(0, value);
                true
            },
            0x0400_0129 => {
                self.sio_control_register.set_byte(1, value);
                true
            },
            0x0400_012A => {
                self.sio_multi_data_send_data_8.set_byte(0, value);
                true
            },
            0x0400_012B => {
                self.sio_multi_data_send_data_8.set_byte(1, value);
                true
            },
            0x0400_0134 => {
                self.sio_mode_select.set_byte(0, value);
                true
            },
            0x0400_0135 => {
                self.sio_mode_select.set_byte(1, value);
                true
            },
            0x0400_0136 => {
                self.infrared_register.set_byte(0, value);
                true
            },
            0x0400_0137 => {
                self.infrared_register.set_byte(1, value);
                true
            },
            0x0400_0140 => {
                self.sio_joy_bus_control.set_byte(0, value);
                true
            },
            0x0400_0141 => {
                self.sio_joy_bus_control.set_byte(1, value);
                true
            },
            0x0400_0150 => {
                self.sio_joy_bus_receive_data.set_byte(0, value);
                true
            },
            0x0400_0151 => {
                self.sio_joy_bus_receive_data.set_byte(1, value);
                true
            },
            0x0400_0152 => {
                self.sio_joy_bus_receive_data.set_byte(2, value);
                true
            },
            0x0400_0153 => {
                self.sio_joy_bus_receive_data.set_byte(3, value);
                true
            },
            0x0400_0154 => {
                self.sio_joy_bus_transmit_data.set_byte(0, value);
                true
            },
            0x0400_0155 => {
                self.sio_joy_bus_transmit_data.set_byte(1, value);
                true
            },
            0x0400_0156 => {
                self.sio_joy_bus_transmit_data.set_byte(2, value);
                true
            },
            0x0400_0157 => {
                self.sio_joy_bus_transmit_data.set_byte(3, value);
                true
            },
            0x0400_0158 => {
                self.sio_joy_bus_receive_status.set_byte(0, value);
                true
            },
            0x0400_0159 => {
                self.sio_joy_bus_receive_status.set_byte(1, value);
                true
            },
            _ => false,
        }
    }
}

impl Default for Serial {
    fn default() -> (r: Self)
        ensures
            forall|address: usize|
                #[trigger] r.byte_at(address) is Some ==> r.byte_at(address) == Some(0u8),
    {
        proof {
            lemma_zero_bytes(0);
            lemma_zero_bytes(1);
            lemma_zero_bytes(2);
            lemma_zero_bytes(3);
        }
        Serial {
            sio_data_32_multi_data_0_data_1: 0,
            sio_multi_data_2: 0,
            sio_multi_data_3: 0,
            sio_control_register: 0,
            sio_multi_data_send_data_8: 0,
            sio_mode_select: 0,
            infrared_register: 0,
            sio_joy_bus_control: 0,
            sio_joy_bus_receive_data: 0,
            sio_joy_bus_transmit_data: 0,
            sio_joy_bus_receive_status: 0,
        }
    }
}

} // verus!
