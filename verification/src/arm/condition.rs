//! Condition codes and mode bits of the ARM status register.
use vstd::prelude::*;

verus! {

/// In ARM state, all instructions are conditionally executed according to the state of the CPSR,
///  condition codes and the instruction's condition field.
/// This field (bits 31:28) determines the circumstances under which an instruction is to be executed.
/// If the state of the C, N, Z and V flags fulfils the conditions encoded by the field,
/// the instruction is executed, otherwise it is ignored.
/// In the absence of a suffix, the condition field of most instructions is set to "Always" (sufix AL).
/// This means the instruction will always be executed regardless of the CPSR condition codes.
#[derive(Debug, Eq, PartialEq, Structural, Copy, Clone)]
pub enum Condition {
    /// Z set (equal).
    EQ,
    /// Z clear (not equal).
    NE,
    /// C set (unsigned higher or same).
    CS,
    /// C clear (unsigned lower).
    CC,
    /// N set (negative).
    MI,
    /// N clear (positive or zero).
    PL,
    /// V set (overflow).
    VS,
    /// V clear (no overflow).
    VC,
    /// C set and Z clear (unsigned higher).
    HI,
    /// C clear or Z set (unsigned lower or same).
    LS,
    /// N equals V (greater or equal).
    GE,
    /// N not equal to V (less then).
    LT,
    /// Z clear AND (N equals V) (greater then).
    GT,
    /// Z set OR (N not equals V) (less then or equal).
    LE,
    /// ignored.
    AL,
    /// The sixteenth (1111) is reserved, and must not be used.
    NV,
}

/// The condition whose 4-bit code is `item`.
pub open spec fn condition_of(item: u8) -> Condition
    recommends
        item < 16,
{
    match item {
        0x0 => Condition::EQ,
        0x1 => Condition::NE,
        0x2 => Condition::CS,
        0x3 => Condition::CC,
        0x4 => Condition::MI,
        0x5 => Condition::PL,
        0x6 => Condition::VS,
        0x7 => Condition::VC,
        0x8 => Condition::HI,
        0x9 => Condition::LS,
        0xA => Condition::GE,
        0xB => Condition::LT,
        0xC => Condition::GT,
        0xD => Condition::LE,
        0xE => Condition::AL,
        _ => Condition::NV,
    }
}

impl Condition {
    /// The 4-bit code of the condition.
    pub open spec fn code(self) -> u8 {
        match self {
            Condition::EQ => 0x0,
            Condition::NE => 0x1,
            Condition::CS => 0x2,
            Condition::CC => 0x3,
            Condition::MI => 0x4,
            Condition::PL => 0x5,
            Condition::VS => 0x6,
            Condition::VC => 0x7,
            Condition::HI => 0x8,
            Condition::LS => 0x9,
            Condition::GE => 0xA,
            Condition::LT => 0xB,
            Condition::GT => 0xC,
            Condition::LE => 0xD,
            Condition::AL => 0xE,
            Condition::NV => 0xF,
        }
    }

    /// The condition whose 4-bit code is `item`.
    pub fn from(item: u8) -> (r: Self)
        requires
            item < 16,
        ensures
            r == condition_of(item),
            r.code() == item,
    {
        match item {
            0x0 => Self::EQ,
            0x1 => Self::NE,
            0x2 => Self::CS,
            0x3 => Self::CC,
            0x4 => Self::MI,
            0x5 => Self::PL,
            0x6 => Self::VS,
            0x7 => Self::VC,
            0x8 => Self::HI,
            0x9 => Self::LS,
            0xA => Self::GE,
            0xB => Self::LT,
            0xC => Self::GT,
            0xD => Self::LE,
            0xE => Self::AL,
            _ => Self::NV,
        }
    }
}

/// Control bits condition.
#[derive(Debug, Eq, PartialEq, Structural, Copy, Clone)]
pub enum ModeBits {
    OldUser,
    OldFiq,
    OldIrq,
    OldSupervisor,
    User,
    Fiq,
    Irq,
    Supervisor,
    Abort,
    Undefined,
    System,
}

/// Whether `item` is the code of one of the mode bit patterns.
pub open spec fn is_mode_bits_code(item: u8) -> bool {
    item == 0x00 || item == 0x01 || item == 0x02 || item == 0x03 || item == 0x10 || item == 0x11
        || item == 0x12 || item == 0x13 || item == 0x17 || item == 0x1B || item == 0x1F
}

impl ModeBits {
    /// The 5-bit pattern of the mode.
    pub open spec fn code(self) -> u8 {
        match self {
            ModeBits::OldUser => 0x00,
            ModeBits::OldFiq => 0x01,
            ModeBits::OldIrq => 0x02,
            ModeBits::OldSupervisor => 0x03,
            ModeBits::User => 0x10,
            ModeBits::Fiq => 0x11,
            ModeBits::Irq => 0x12,
            ModeBits::Supervisor => 0x13,
            ModeBits::Abort => 0x17,
            ModeBits::Undefined => 0x1B,
            ModeBits::System => 0x1F,
        }
    }

    /// The mode whose pattern is `item`.
    pub fn from(item: u8) -> (r: Self)
        requires
            is_mode_bits_code(item),
        ensures
            r.code() == item,
    {
        match item {
            0x00 => Self::OldUser,
            0x01 => Self::OldFiq,
            0x02 => Self::OldIrq,
            0x03 => Self::OldSupervisor,
            0x10 => Self::User,
            0x11 => Self::Fiq,
            0x12 => Self::Irq,
            0x13 => Self::Supervisor,
            0x17 => Self::Abort,
            0x1B => Self::Undefined,
            _ => Self::System,
        }
    }
}

} // verus!
