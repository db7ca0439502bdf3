//! A decoded ARM opcode: the instruction, its condition and its raw bits.
use crate::cpu::arm::instructions::{decode, ArmModeInstruction};
use crate::cpu::condition::{condition_of, Condition};
use vstd::prelude::*;

verus! {

/// An ARM opcode together with what it decodes to.
#[derive(Clone, Copy, Debug, PartialEq, Eq, Structural)]
pub struct ArmModeOpcode {
    /// The decoded instruction.
    pub instruction: ArmModeInstruction,
    /// The condition in the top four bits.
    pub condition: Condition,
    /// The opcode as fetched.
    pub raw: u32,
}

/// The decoded form of an ARM opcode.
pub open spec fn decode_opcode(op_code: u32) -> ArmModeOpcode {
    ArmModeOpcode {
        instruction: decode(op_code),
        condition: condition_of((op_code >> 28u32) as u8),
        raw: op_code,
    }
}

impl From<u32> for ArmModeOpcode {
    /// Decodes an opcode.
    fn from(op_code: u32) -> (r: Self) {
        let condition_bits = (op_code >> 28u32) as u8;
        proof {
            assert(op_code >> 28u32 < 16) by (bit_vector);
        }
        ArmModeOpcode {
            instruction: ArmModeInstruction::from(op_code),
            condition: Condition::from(condition_bits),
            raw: op_code,
        }
    }
}

impl vstd::std_specs::convert::FromSpecImpl<u32> for ArmModeOpcode {
    open spec fn obeys_from_spec() -> bool {
        true
    }

    open spec fn from_spec(op_code: u32) -> ArmModeOpcode {
        decode_opcode(op_code)
    }
}

} // verus!
