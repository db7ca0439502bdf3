//! Condition codes for ARM conditional execution: the top 4 bits of every ARM
//! instruction select which combination of the N, Z, C and V flags lets the
//! instruction run.
use vstd::prelude::*;

verus! {

/// Condition codes for ARM conditional execution.
///
/// In ARM state, all instructions are conditionally executed according to
/// the state of the CPSR condition codes and the instruction's condition field.
/// If the flags satisfy the condition, the instruction executes; otherwise
/// it is skipped (acting as a NOP).
#[derive(Debug, Eq, PartialEq, Structural, Copy, Clone)]
pub enum Condition {
    /// Equal (Z=1)
    EQ,
    /// Not equal (Z=0)
    NE,
    /// Carry set / unsigned higher or same (C=1)
    CS,
    /// Carry clear / unsigned lower (C=0)
    CC,
    /// Minus / negative (N=1)
    MI,
    /// Plus / positive or zero (N=0)
    PL,
    /// Overflow set (V=1)
    VS,
    /// Overflow clear (V=0)
    VC,
    /// Unsigned higher (C=1 AND Z=0)
    HI,
    /// Unsigned lower or same (C=0 OR Z=1)
    LS,
    /// Signed greater or equal (N=V)
    GE,
    /// Signed less than (N≠V)
    LT,
    /// Signed greater than (Z=0 AND N=V)
    GT,
    /// Signed less than or equal (Z=1 OR N≠V)
    LE,
    /// Always (unconditional)
    AL,
    /// Never (reserved, do not use)
    NV,
}

/// The condition whose 4-bit code is `item`.
pub open spec fn condition_of(item: u8) -> Condition
    recommends
        item < 16,
{
    match item {
        0x0 => Condition::EQ,
        0x1 => Condition::NE,
        0x2 => Condition::CS,
        0x3 => Condition::CC,
        0x4 => Condition::MI,
        0x5 => Condition::PL,
        0x6 => Condition::VS,
        0x7 => Condition::VC,
        0x8 => Condition::HI,
        0x9 => Condition::LS,
        0xA => Condition::GE,
        0xB => Condition::LT,
        0xC => Condition::GT,
        0xD => Condition::LE,
        0xE => Condition::AL,
        _ => Condition::NV,
    }
}

impl Condition {
    /// The 4-bit code of the condition.
    pub open spec fn code(self) -> u8 {
        match self {
            Condition::EQ => 0x0,
            Condition::NE => 0x1,
            Condition::CS => 0x2,
            Condition::CC => 0x3,
            Condition::MI => 0x4,
            Condition::PL => 0x5,
            Condition::VS => 0x6,
            Condition::VC => 0x7,
            Condition::HI => 0x8,
            Condition::LS => 0x9,
            Condition::GE => 0xA,
            Condition::LT => 0xB,
            Condition::GT => 0xC,
            Condition::LE => 0xD,
            Condition::AL => 0xE,
            Condition::NV => 0xF,
        }
    }

    /// The assembler suffix of the condition: empty for `AL`.
    pub open spec fn text(self) -> Seq<char> {
        match self {
            Condition::EQ => "EQ"@,
            Condition::NE => "NE"@,
            Condition::CS => "CS"@,
            Condition::CC => "CC"@,
            Condition::MI => "MI"@,
            Condition::PL => "PL"@,
            Condition::VS => "VS"@,
            Condition::VC => "VC"@,
            Condition::HI => "HI"@,
            Condition::LS => "LS"@,
            Condition::GE => "GE"@,
            Condition::LT => "LT"@,
            Condition::GT => "GT"@,
            Condition::LE => "LE"@,
            Condition::AL => ""@,
            Condition::NV => "_NEVER"@,
        }
    }

    /// The condition whose 4-bit code is `item`.
    pub fn from(item: u8) -> (r: Self)
        requires
            item < 16,
        ensures
            r == condition_of(item),
            r.code() == item,
    {
        match item {
            0x0 => Self::EQ,
            0x1 => Self::NE,
            0x2 => Self::CS,
            0x3 => Self::CC,
            0x4 => Self::MI,
            0x5 => Self::PL,
            0x6 => Self::VS,
            0x7 => Self::VC,
            0x8 => Self::HI,
            0x9 => Self::LS,
            0xA => Self::GE,
            0xB => Self::LT,
            0xC => Self::GT,
            0xD => Self::LE,
            0xE => Self::AL,
            _ => Self::NV,
        }
    }

    /// The assembler suffix of the condition (empty for `AL`).
    pub fn to_str(&self) -> (r: &'static str)
        ensures
            r@ == self.text(),
    {
        match self {
            Self::EQ => "EQ",
            Self::NE => "NE",
            Self::CS => "CS",
            Self::CC => "CC",
            Self::MI => "MI",
            Self::PL => "PL",
            Self::VS => "VS",
            Self::VC => "VC",
            Self::HI => "HI",
            Self::LS => "LS",
            Self::GE => "GE",
            Self::LT => "LT",
            Self::GT => "GT",
            Self::LE => "LE",
            Self::AL => "",
            Self::NV => "_NEVER",
        }
    }

    /// The assembler suffix of the condition as a `String`.
    pub fn to_string(&self) -> (r: String)
        ensures
            r@ == self.text(),
    {
        String::from_str(self.to_str())
    }
}

} // verus!
