//! ALU opcodes of the ARM and Thumb instruction sets, their logical or
//! arithmetic kind, shift kinds and the result of an ALU operation.
use vstd::prelude::*;

verus! {

/// ARM mode ALU instruction opcodes (bits 24-21 of a data processing instruction).
#[derive(Debug, Eq, PartialEq, Structural, Clone, Copy)]
pub enum ArmModeAluInstruction {
    And,
    Eor,
    Sub,
    Rsb,
    Add,
    Adc,
    Sbc,
    Rsc,
    Tst,
    Teq,
    Cmp,
    Cmn,
    Orr,
    Mov,
    Bic,
    Mvn,
}

/// Whether an ALU instruction is logical or arithmetic.
#[derive(Eq, PartialEq, Structural, Debug, Clone, Copy)]
pub enum AluInstructionKind {
    Logical,
    Arithmetic,
}

/// Classifies an ALU instruction as logical or arithmetic.
pub trait Kind {
    fn kind(&self) -> AluInstructionKind;
}

impl ArmModeAluInstruction {
    /// The 4-bit opcode of the instruction.
    pub open spec fn code(self) -> u32 {
        match self {
            ArmModeAluInstruction::And => 0x0,
            ArmModeAluInstruction::Eor => 0x1,
            ArmModeAluInstruction::Sub => 0x2,
            ArmModeAluInstruction::Rsb => 0x3,
            ArmModeAluInstruction::Add => 0x4,
            ArmModeAluInstruction::Adc => 0x5,
            ArmModeAluInstruction::Sbc => 0x6,
            ArmModeAluInstruction::Rsc => 0x7,
            ArmModeAluInstruction::Tst => 0x8,
            ArmModeAluInstruction::Teq => 0x9,
            ArmModeAluInstruction::Cmp => 0xA,
            ArmModeAluInstruction::Cmn => 0xB,
            ArmModeAluInstruction::Orr => 0xC,
            ArmModeAluInstruction::Mov => 0xD,
            ArmModeAluInstruction::Bic => 0xE,
            ArmModeAluInstruction::Mvn => 0xF,
        }
    }

    /// AND, EOR, TST, TEQ, ORR, MOV, BIC and MVN are logical; the others arithmetic.
    pub open spec fn is_logical(self) -> bool {
        match self {
            ArmModeAluInstruction::And | ArmModeAluInstruction::Eor | ArmModeAluInstruction::Tst
            | ArmModeAluInstruction::Teq | ArmModeAluInstruction::Orr | ArmModeAluInstruction::Mov
            | ArmModeAluInstruction::Bic | ArmModeAluInstruction::Mvn => true,
            _ => false,
        }
    }

    /// The instruction whose 4-bit opcode is `alu_op_code`.
    pub fn from(alu_op_code: u32) -> (r: Self)
        requires
            alu_op_code < 16,
        ensures
            r.code() == alu_op_code,
    {
        match alu_op_code {
            0x0 => Self::And,
            0x1 => Self::Eor,
            0x2 => Self::Sub,
            0x3 => Self::Rsb,
            0x4 => Self::Add,
            0x5 => Self::Adc,
            0x6 => Self::Sbc,
            0x7 => Self::Rsc,
            0x8 => Self::Tst,
            0x9 => Self::Teq,
            0xA => Self::Cmp,
            0xB => Self::Cmn,
            0xC => Self::Orr,
            0xD => Self::Mov,
            0xE => Self::Bic,
            _ => Self::Mvn,
        }
    }
}

impl Kind for ArmModeAluInstruction {
    fn kind(&self) -> (r: AluInstructionKind)
        ensures
            r == (if self.is_logical() {
                AluInstructionKind::Logical
            } else {
                AluInstructionKind::Arithmetic
            }),
    {
        match &self {
            Self::And | Self::Eor | Self::Tst | Self::Teq | Self::Orr | Self::Mov | Self::Bic
            | Self::Mvn => AluInstructionKind::Logical,
            Self::Sub | Self::Rsb | Self::Add | Self::Adc | Self::Sbc | Self::Rsc | Self::Cmp
            | Self::Cmn => AluInstructionKind::Arithmetic,
        }
    }
}

/// Thumb mode ALU instruction opcodes.
#[derive(Debug, Eq, PartialEq, Structural, Clone, Copy)]
pub enum ThumbModeAluInstruction {
    And,
    Eor,
    Lsl,
    Lsr,
    Asr,
    Adc,
    Sbc,
    Ror,
    Tst,
    Neg,
    Cmp,
    Cmn,
    Orr,
    Mul,
    Bic,
    Mvn,
}

impl ThumbModeAluInstruction {
    /// The 4-bit opcode of the instruction.
    pub open spec fn code(self) -> u16 {
        match self {
            ThumbModeAluInstruction::And => 0x0,
            ThumbModeAluInstruction::Eor => 0x1,
            ThumbModeAluInstruction::Lsl => 0x2,
            ThumbModeAluInstruction::Lsr => 0x3,
            ThumbModeAluInstruction::Asr => 0x4,
            ThumbModeAluInstruction::Adc => 0x5,
            ThumbModeAluInstruction::Sbc => 0x6,
            ThumbModeAluInstruction::Ror => 0x7,
            ThumbModeAluInstruction::Tst => 0x8,
            ThumbModeAluInstruction::Neg => 0x9,
            ThumbModeAluInstruction::Cmp => 0xA,
            ThumbModeAluInstruction::Cmn => 0xB,
            ThumbModeAluInstruction::Orr => 0xC,
            ThumbModeAluInstruction::Mul => 0xD,
            ThumbModeAluInstruction::Bic => 0xE,
            ThumbModeAluInstruction::Mvn => 0xF,
        }
    }

    /// The instruction whose 4-bit opcode is `alu_op_code`.
    pub fn from(alu_op_code: u16) -> (r: Self)
        requires
            alu_op_code < 16,
        ensures
            r.code() == alu_op_code,
    {
        match alu_op_code {
            0x0 => Self::And,
            0x1 => Self::Eor,
            0x2 => Self::Lsl,
            0x3 => Self::Lsr,
            0x4 => Self::Asr,
            0x5 => Self::Adc,
            0x6 => Self::Sbc,
            0x7 => Self::Ror,
            0x8 => Self::Tst,
            0x9 => Self::Neg,
            0xA => Self::Cmp,
            0xB => Self::Cmn,
            0xC => Self::Orr,
            0xD => Self::Mul,
            0xE => Self::Bic,
            _ => Self::Mvn,
        }
    }
}

/// The four shifts of the barrel shifter.
#[derive(Debug, Eq, PartialEq, Structural, Clone, Copy)]
pub enum ShiftKind {
    Lsl,
    Lsr,
    Asr,
    Ror,
}

/// The shift whose 2-bit code is `op`.
pub open spec fn shift_kind_of(op: u32) -> ShiftKind
    recommends
        op < 4,
{
    if op == 0 {
        ShiftKind::Lsl
    } else if op == 1 {
        ShiftKind::Lsr
    } else if op == 2 {
        ShiftKind::Asr
    } else {
        ShiftKind::Ror
    }
}

impl ShiftKind {
    /// The shift whose 2-bit code is `op`.
    pub fn from(op: u32) -> (r: Self)
        requires
            op < 4,
        ensures
            r == shift_kind_of(op),
    {
        match op {
            0 => Self::Lsl,
            1 => Self::Lsr,
            2 => Self::Asr,
            _ => Self::Ror,
        }
    }

    /// The shift whose 2-bit code is `op`, from a 16-bit field.
    pub fn from_u16(op: u16) -> (r: Self)
        requires
            op < 4,
        ensures
            r == shift_kind_of(op as u32),
    {
        Self::from(op as u32)
    }
}

/// A computed value together with the condition flags it sets.
#[derive(Debug)]
pub struct ArithmeticOpResult {
    pub result: u32,
    pub carry: bool,
    pub overflow: bool,
    pub sign: bool,
    pub zero: bool,
}

impl Default for ArithmeticOpResult {
    fn default() -> (r: Self)
        ensures
            r.result == 0,
            !r.carry,
            !r.overflow,
            !r.sign,
            !r.zero,
    {
        ArithmeticOpResult { result: 0, carry: false, overflow: false, sign: false, zero: false }
    }
}

} // verus!
