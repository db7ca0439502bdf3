//! The sound controller's registers and its wave pattern RAM.
use crate::bitwise::{byte_of, lemma_zero_bytes, Bits};
use crate::cpu::hardware::{all_zero, zeroed};
use vstd::prelude::*;

verus! {

/// The sound registers at 0x0400_0060 ..= 0x0400_00A7, and the 16 bytes of
/// channel 3 wave pattern RAM at 0x0400_0090 ..= 0x0400_009F.
pub struct Sound {
    pub channel1_sweep: u16,
    pub channel1_duty_length_envelope: u16,
    pub channel1_frequency_control: u16,
    pub channel2_duty_length_envelope: u16,
    pub channel2_frequency_control: u16,
    pub channel3_stop_wave_ram_select: u16,
    pub channel3_length_volume: u16,
    pub channel3_frequency_control: u16,
    pub channel4_length_envelope: u16,
    pub channel4_frequency_control: u16,
    pub control_stereo_volume_enable: u16,
    pub control_mixing_dma_control: u16,
    pub control_sound_on_off: u16,
    pub sound_pwm_control: u16,
    pub channel_a_fifo: u32,
    pub channel_b_fifo: u32,
    pub channel3_wave_pattern_ram: Vec<u8>,
}

impl Sound {
    /// The byte that the register file holds at `address`, or `None` where
    /// no register lies.
    pub open spec fn byte_at(self, address: usize) -> Option<u8> {
        match address {
            0x0400_0060 => Some(byte_of(self.channel1_sweep as u128, 0)),
            0x0400_0061 => Some(byte_of(self.channel1_sweep as u128, 1)),
            0x0400_0062 => Some(byte_of(self.channel1_duty_length_envelope as u128, 0)),
            0x0400_0063 => Some(byte_of(self.channel1_duty_length_envelope as u128, 1)),
            0x0400_0064 => Some(byte_of(self.channel1_frequency_control as u128, 0)),
            0x0400_0065 => Some(byte_of(self.channel1_frequency_control as u128, 1)),
            0x0400_0068 => Some(byte_of(self.channel2_duty_length_envelope as u128, 0)),
            0x0400_0069 => Some(byte_of(self.channel2_duty_length_envelope as u128, 1)),
            0x0400_006C => Some(byte_of(self.channel2_frequency_control as u128, 0)),
            0x0400_006D => Some(byte_of(self.channel2_frequency_control as u128, 1)),
            0x0400_0070 => Some(byte_of(self.channel3_stop_wave_ram_select as u128, 0)),
            0x0400_0071 => Some(byte_of(self.channel3_stop_wave_ram_select as u128, 1)),
            0x0400_0072 => Some(byte_of(self.channel3_length_volume as u128, 0)),
            0x0400_0073 => Some(byte_of(self.channel3_length_volume as u128, 1)),
            0x0400_0074 => Some(byte_of(self.channel3_frequency_control as u128, 0)),
            0x0400_0075 => Some(byte_of(self.channel3_frequency_control as u128, 1)),
            0x0400_0078 => Some(byte_of(self.channel4_length_envelope as u128, 0)),
            0x0400_0079 => Some(byte_of(self.channel4_length_envelope as u128, 1)),
            0x0400_007C => Some(byte_of(self.channel4_frequency_control as u128, 0)),
            0x0400_007D => Some(byte_of(self.channel4_frequency_control as u128, 1)),
            0x0400_0080 => Some(byte_of(self.control_stereo_volume_enable as u128, 0)),
            0x0400_0081 => Some(byte_of(self.control_stereo_volume_enable as u128, 1)),
            0x0400_0082 => Some(byte_of(self.control_mixing_dma_control as u128, 0)),
            0x0400_0083 => Some(byte_of(self.control_mixing_dma_control as u128, 1)),
            0x0400_0084 => Some(byte_of(self.control_sound_on_off as u128, 0)),
            0x0400_0085 => Some(byte_of(self.control_sound_on_off as u128, 1)),
            0x0400_0088 => Some(byte_of(self.sound_pwm_control as u128, 0)),
            0x0400_0089 => Some(byte_of(self.sound_pwm_control as u128, 1)),
            0x0400_00A0 => Some(byte_of(self.channel_a_fifo as u128, 0)),
            0x0400_00A1 => Some(byte_of(self.channel_a_fifo as u128, 1)),
            0x0400_00A2 => Some(byte_of(self.channel_a_fifo as u128, 2)),
            0x0400_00A3 => Some(byte_of(self.channel_a_fifo as u128, 3)),
            0x0400_00A4 => Some(byte_of(self.channel_b_fifo as u128, 0)),
            0x0400_00A5 => Some(byte_of(self.channel_b_fifo as u128, 1)),
            0x0400_00A6 => Some(byte_of(self.channel_b_fifo as u128, 2)),
            0x0400_00A7 => Some(byte_of(self.channel_b_fifo as u128, 3)),
            _ => None,
        }
    }

    /// The byte at `address`, or `None` where no register lies.
    pub fn read(&self, address: usize) -> (r: Option<u8>)
        ensures
            r == self.byte_at(address),
    {
        match address {
            0x0400_0060 => Some(self.channel1_sweep.get_byte(0)),
            0x0400_0061 => Some(self.channel1_sweep.get_byte(1)),
            0x0400_0062 => Some(self.channel1_duty_length_envelope.get_byte(0)),
            0x0400_0063 => Some(self.channel1_duty_length_envelope.get_byte(1)),
            0x0400_0064 => Some(self.channel1_frequency_control.get_byte(0)),
            0x0400_0065 => Some(self.channel1_frequency_control.get_byte(1)),
            0x0400_0068 => Some(self.channel2_duty_length_envelope.get_byte(0)),
            0x0400_0069 => Some(self.channel2_duty_length_envelope.get_byte(1)),
            0x0400_006C => Some(self.channel2_frequency_control.get_byte(0)),
            0x0400_006D => Some(self.channel2_frequency_control.get_byte(1)),
            0x0400_0070 => Some(self.channel3_stop_wave_ram_select.get_byte(0)),
            0x0400_0071 => Some(self.channel3_stop_wave_ram_select.get_byte(1)),
            0x0400_0072 => Some(self.channel3_length_volume.get_byte(0)),
            0x0400_0073 => Some(self.channel3_length_volume.get_byte(1)),
            0x0400_0074 => Some(self.channel3_frequency_control.get_byte(0)),
            0x0400_0075 => Some(self.channel3_frequency_control.get_byte(1)),
            0x0400_0078 => Some(self.channel4_length_envelope.get_byte(0)),
            0x0400_0079 => Some(self.channel4_length_envelope.get_byte(1)),
            0x0400_007C => Some(self.channel4_frequency_control.get_byte(0)),
            0x0400_007D => Some(self.channel4_frequency_control.get_byte(1)),
            0x0400_0080 => Some(self.control_stereo_volume_enable.get_byte(0)),
            0x0400_0081 => Some(self.control_stereo_volume_enable.get_byte(1)),
            0x0400_0082 => Some(self.control_mixing_dma_control.get_byte(0)),
            0x0400_0083 => Some(self.control_mixing_dma_control.get_byte(1)),
            0x0400_0084 => Some(self.control_sound_on_off.get_byte(0)),
            0x0400_0085 => Some(self.control_sound_on_off.get_byte(1)),
            0x0400_0088 => Some(self.sound_pwm_control.get_byte(0)),
            0x0400_0089 => Some(self.sound_pwm_control.get_byte(1)),
            0x0400_00A0 => Some(self.channel_a_fifo.get_byte(0)),
            0x0400_00A1 => Some(self.channel_a_fifo.get_byte(1)),
            0x0400_00A2 => Some(self.channel_a_fifo.get_byte(2)),
            0x0400_00A3 => Some(self.channel_a_fifo.get_byte(3)),
            0x0400_00A4 => Some(self.channel_b_fifo.get_byte(0)),
            0x0400_00A5 => Some(self.channel_b_fifo.get_byte(1)),
            0x0400_00A6 => Some(self.channel_b_fifo.get_byte(2)),
            0x0400_00A7 => Some(self.channel_b_fifo.get_byte(3)),
            _ => None,
        }
    }

    /// Stores `value` at `address` where a register lies there, and tells
    /// whether one did.
    pub fn write(&mut self, address: usize, value: u8) -> (stored: bool)
        ensures
            stored == old(self).byte_at(address) is Some,
            forall|b: usize|
                #[trigger] final(self).byte_at(b) == if stored && b == address {
                    Some(value)
                } else {
                    old(self).byte_at(b)
                },
            final(self).channel3_wave_pattern_ram == old(self).channel3_wave_pattern_ram,
    {
        match address {
            0x0400_0060 => {
                self.channel1_sweep.set_byte(0, value);
                true
            },
            0x0400_0061 => {
                self.channel1_sweep.set_byte(1, value);
                true
            },
            0x0400_0062 => {
                self.channel1_duty_length_envelope.set_byte(0, value);
                true
            },
            0x0400_0063 => {
                self.channel1_duty_length_envelope.set_byte(1, value);
                true
            },
            0x0400_0064 => {
                self.channel1_frequency_control.set_byte(0, value);
                true
            },
            0x0400_0065 => {
                self.channel1_frequency_control.set_byte(1, value);
                true
            },
            0x0400_0068 => {
                self.channel2_duty_length_envelope.set_byte(0, value);
                true
            },
            0x0400_0069 => {
                self.channel2_duty_length_envelope.set_byte(1, value);
                true
            },
            0x0400_006C => {
                self.channel2_frequency_control.set_byte(0, value);
                true
            },
            0x0400_006D => {
                self.channel2_frequency_control.set_byte(1, value);
                true
            },
            0x0400_0070 => {
                self.channel3_stop_wave_ram_select.set_byte(0, value);
                true
            },
            0x0400_0071 => {
                self.channel3_stop_wave_ram_select.set_byte(1, value);
                true
            },
            0x0400_0072 => {
                self.channel3_length_volume.set_byte(0, value);
                true
            },
            0x0400_0073 => {
                self.channel3_length_volume.set_byte(1, value);
                true
            },
            0x0400_0074 => {
                self.channel3_frequency_control.set_byte(0, value);
                true
            },
            0x0400_0075 => {
                self.channel3_frequency_control.set_byte(1, value);
                true
            },
            0x0400_0078 => {
                self.channel4_length_envelope.set_byte(0, value);
                true
            },
            0x0400_0079 => {
                self.channel4_length_envelope.set_byte(1, value);
                true
            },
            0x0400_007C => {
                self.channel4_frequency_control.set_byte(0, value);
                true
            },
            0x0400_007D => {
                self.channel4_frequency_control.set_byte(1, value);
                true
            },
            0x0400_0080 => {
                self.control_stereo_volume_enable.set_byte(0, value);
                true
            },
            0x0400_0081 => {
                self.control_stereo_volume_enable.set_byte(1, value);
                true
            },
            0x0400_0082 => {
                self.control_mixing_dma_control.set_byte(0, value);
                true
            },
            0x0400_0083 => {
                self.control_mixing_dma_control.set_byte(1, value);
                true
            },
            0x0400_0084 => {
                self.control_sound_on_off.set_byte(0, value);
                true
            },
            0x0400_0085 => {
                self.control_sound_on_off.set_byte(1, value);
                true
            },
            0x0400_0088 => {
                self.sound_pwm_control.set_byte(0, value);
                true
            },
            0x0400_0089 => {
                self.sound_pwm_control.set_byte(1, value);
                true
            },
            0x0400_00A0 => {
                self.channel_a_fifo.set_byte(0, value);
                true
            },
            0x0400_00A1 => {
                self.channel_a_fifo.set_byte(1, value);
                true
            },
            0x0400_00A2 => {
                self.channel_a_fifo.set_byte(2, value);
                true
            },
            0x0400_00A3 => {
                self.channel_a_fifo.set_byte(3, value);
                true
            },
            0x0400_00A4 => {
                self.channel_b_fifo.set_byte(0, value);
                true
            },
            0x0400_00A5 => {
                self.channel_b_fifo.set_byte(1, value);
                true
            },
            0x0400_00A6 => {
                self.channel_b_fifo.set_byte(2, value);
                true
            },
            0x0400_00A7 => {
                self.channel_b_fifo.set_byte(3, value);
                true
            },
            _ => false,
        }
    }

    /// The wave pattern RAM has its 16 bytes.
    pub open spec fn wf(&self) -> bool {
        self.channel3_wave_pattern_ram.len() == 16
    }
}

impl Default for Sound {
    fn default() -> (r: Self)
        ensures
            forall|address: usize|
                #[trigger] r.byte_at(address) is Some ==> r.byte_at(address) == Some(0u8),
            r.wf(),
            all_zero(r.channel3_wave_pattern_ram@),
    {
        proof {
            lemma_zero_bytes(0);
            lemma_zero_bytes(1);
            lemma_zero_bytes(2);
            lemma_zero_bytes(3);
        }
        Sound {
            channel1_sweep: 0,
            channel1_duty_length_envelope: 0,
            channel1_frequency_control: 0,
            channel2_duty_length_envelope: 0,
            channel2_frequency_control: 0,
            channel3_stop_wave_ram_select: 0,
            channel3_length_volume: 0,
            channel3_frequency_control: 0,
            channel4_length_envelope: 0,
            channel4_frequency_control: 0,
            control_stereo_volume_enable: 0,
            control_mixing_dma_control: 0,
            control_sound_on_off: 0,
            sound_pwm_control: 0,
            channel_a_fifo: 0,
            channel_b_fifo: 0,
            channel3_wave_pattern_ram: zeroed(16),
        }
    }
}

} // verus!
