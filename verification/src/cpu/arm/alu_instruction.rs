//! ARM data processing (ALU) opcodes, the barrel shifter that shifts the
//! second operand, PSR transfer kinds and the second operand of an ALU
//! instruction.
use crate::bitwise::{bit_at, bit_field, lemma_bit_field_le, lemma_field_masks, low_mask, Bits};
use crate::cpu::flags::ShiftKind;
use crate::cpu::text::{binary, decimal, hex, push_binary, push_decimal, push_hex};
use vstd::arithmetic::power2::pow2;
use vstd::prelude::*;

verus! {

/// Bits `lo ..= hi` of an instruction, moved down to bit 0.
pub open spec fn field(op: u32, lo: u8, hi: u8) -> u32 {
    bit_field(op as u128, lo as u128, (hi - lo + 1) as u128) as u32
}

/// Bit `i` of an instruction.
pub open spec fn flag(op: u32, i: u8) -> bool {
    bit_at(op as u128, i as u128)
}

/// A field is at most the all-ones value of its length.
pub proof fn lemma_field_le(op: u32, lo: u8, hi: u8)
    requires
        lo <= hi < 32,
    ensures
        field(op, lo, hi) as u128 == bit_field(op as u128, lo as u128, (hi - lo + 1) as u128),
        (field(op, lo, hi) as u128) <= low_mask((hi - lo + 1) as u128),
{
    lemma_bit_field_le(op as u128, lo as u128, (hi - lo + 1) as u128);
}

/// ARM mode ALU instruction opcodes (bits 24-21 of data processing instructions).
#[derive(Debug, Clone, Copy, Eq, PartialEq, Structural)]
pub enum ArmModeAluInstr {
    /// Logical AND: `Rd = Rn AND Op2`
    And,
    /// Exclusive OR: `Rd = Rn XOR Op2`
    Eor,
    /// Subtract: `Rd = Rn - Op2`
    Sub,
    /// Reverse Subtract: `Rd = Op2 - Rn`
    Rsb,
    /// Add: `Rd = Rn + Op2`
    Add,
    /// Add with Carry: `Rd = Rn + Op2 + C`
    Adc,
    /// Subtract with Carry: `Rd = Rn - Op2 - !C`
    Sbc,
    /// Reverse Subtract with Carry: `Rd = Op2 - Rn - !C`
    Rsc,
    /// Test bits (AND, flags only, no result written)
    Tst,
    /// Test Equivalence (XOR, flags only, no result written)
    Teq,
    /// Compare (SUB, flags only, no result written)
    Cmp,
    /// Compare Negative (ADD, flags only, no result written)
    Cmn,
    /// Logical OR: `Rd = Rn OR Op2`
    Orr,
    /// Move: `Rd = Op2` (Rn is ignored)
    Mov,
    /// Bit Clear: `Rd = Rn AND NOT Op2`
    Bic,
    /// Move Not: `Rd = NOT Op2` (Rn is ignored)
    Mvn,
}

/// The ALU instruction whose 4-bit opcode is `op`.
pub open spec fn alu_instr_of(op: u32) -> ArmModeAluInstr
    recommends
        op < 16,
{
    match op {
        0x0 => ArmModeAluInstr::And,
        0x1 => ArmModeAluInstr::Eor,
        0x2 => ArmModeAluInstr::Sub,
        0x3 => ArmModeAluInstr::Rsb,
        0x4 => ArmModeAluInstr::Add,
        0x5 => ArmModeAluInstr::Adc,
        0x6 => ArmModeAluInstr::Sbc,
        0x7 => ArmModeAluInstr::Rsc,
        0x8 => ArmModeAluInstr::Tst,
        0x9 => ArmModeAluInstr::Teq,
        0xA => ArmModeAluInstr::Cmp,
        0xB => ArmModeAluInstr::Cmn,
        0xC => ArmModeAluInstr::Orr,
        0xD => ArmModeAluInstr::Mov,
        0xE => ArmModeAluInstr::Bic,
        _ => ArmModeAluInstr::Mvn,
    }
}

impl ArmModeAluInstr {
    /// The mnemonic of the instruction.
    pub open spec fn text(self) -> Seq<char> {
        match self {
            ArmModeAluInstr::And => "AND"@,
            ArmModeAluInstr::Eor => "EOR"@,
            ArmModeAluInstr::Sub => "SUB"@,
            ArmModeAluInstr::Rsb => "RSB"@,
            ArmModeAluInstr::Add => "ADD"@,
            ArmModeAluInstr::Adc => "ADC"@,
            ArmModeAluInstr::Sbc => "SBC"@,
            ArmModeAluInstr::Rsc => "RSC"@,
            ArmModeAluInstr::Tst => "TST"@,
            ArmModeAluInstr::Teq => "TEQ"@,
            ArmModeAluInstr::Cmp => "CMP"@,
            ArmModeAluInstr::Cmn => "CMN"@,
            ArmModeAluInstr::Orr => "ORR"@,
            ArmModeAluInstr::Mov => "MOV"@,
            ArmModeAluInstr::Bic => "BIC"@,
            ArmModeAluInstr::Mvn => "MVN"@,
        }
    }

    /// The mnemonic of the instruction.
    pub fn to_str(&self) -> (r: &'static str)
        ensures
            r@ == self.text(),
    {
        match self {
            Self::And => "AND",
            Self::Eor => "EOR",
            Self::Sub => "SUB",
            Self::Rsb => "RSB",
            Self::Add => "ADD",
            Self::Adc => "ADC",
            Self::Sbc => "SBC",
            Self::Rsc => "RSC",
            Self::Tst => "TST",
            Self::Teq => "TEQ",
            Self::Cmp => "CMP",
            Self::Cmn => "CMN",
            Self::Orr => "ORR",
            Self::Mov => "MOV",
            Self::Bic => "BIC",
            Self::Mvn => "MVN",
        }
    }

    /// The mnemonic of the instruction as a `String`.
    pub fn to_string(&self) -> (r: String)
        ensures
            r@ == self.text(),
    {
        String::from_str(self.to_str())
    }

    /// AND, EOR, TST, TEQ, ORR, MOV, BIC and MVN are logical; the others arithmetic.
    pub open spec fn is_logical(self) -> bool {
        match self {
            ArmModeAluInstr::And | ArmModeAluInstr::Eor | ArmModeAluInstr::Tst
            | ArmModeAluInstr::Teq | ArmModeAluInstr::Orr | ArmModeAluInstr::Mov
            | ArmModeAluInstr::Bic | ArmModeAluInstr::Mvn => true,
            _ => false,
        }
    }

    /// The ALU instruction whose 4-bit opcode is `alu_op_code`.
    pub fn from(alu_op_code: u32) -> (r: Self)
        requires
            alu_op_code < 16,
        ensures
            r == alu_instr_of(alu_op_code),
    {
        match alu_op_code {
            0x0 => Self::And,
            0x1 => Self::Eor,
            0x2 => Self::Sub,
            0x3 => Self::Rsb,
            0x4 => Self::Add,
            0x5 => Self::Adc,
            0x6 => Self::Sbc,
            0x7 => Self::Rsc,
            0x8 => Self::Tst,
            0x9 => Self::Teq,
            0xA => Self::Cmp,
            0xB => Self::Cmn,
            0xC => Self::Orr,
            0xD => Self::Mov,
            0xE => Self::Bic,
            _ => Self::Mvn,
        }
    }
}

/// Classification of ALU instructions for flag handling.
#[derive(Eq, PartialEq, Structural, Debug, Clone, Copy)]
pub enum AIKind {
    /// Logical operations: the carry flag comes from the barrel shifter.
    Logical,
    /// Arithmetic operations: the carry flag comes from the operation itself.
    Arithmetic,
}

/// Trait to classify ALU instructions as logical or arithmetic.
pub trait Kind {
    /// Returns whether this is a logical or arithmetic operation.
    fn kind(&self) -> AIKind;
}

impl Kind for ArmModeAluInstr {
    fn kind(&self) -> (r: AIKind)
        ensures
            r == (if self.is_logical() {
                AIKind::Logical
            } else {
                AIKind::Arithmetic
            }),
    {
        match &self {
            Self::And | Self::Eor | Self::Tst | Self::Teq | Self::Orr | Self::Mov | Self::Bic
            | Self::Mvn => AIKind::Logical,
            Self::Sub | Self::Rsb | Self::Add | Self::Adc | Self::Sbc | Self::Rsc | Self::Cmp
            | Self::Cmn => AIKind::Arithmetic,
        }
    }
}

/// Result of an ALU or shift operation, including flags.
#[derive(Debug)]
pub struct ArithmeticOpResult {
    /// The computed result value.
    pub result: u32,
    /// Carry flag (C): last bit shifted out, or unsigned overflow.
    pub carry: bool,
    /// Overflow flag (V): signed arithmetic overflow.
    pub overflow: bool,
    /// Sign flag (N): bit 31 of result.
    pub sign: bool,
    /// Zero flag (Z): result is zero.
    pub zero: bool,
}

impl Default for ArithmeticOpResult {
    fn default() -> (r: Self)
        ensures
            r.result == 0,
            !r.carry,
            !r.overflow,
            !r.sign,
            !r.zero,
    {
        ArithmeticOpResult { result: 0, carry: false, overflow: false, sign: false, zero: false }
    }
}

/// Bit `i` of a 32-bit value.
pub open spec fn bit32(v: u32, i: u32) -> bool {
    (v >> i) & 1 == 1
}

/// `x` rotated right by `n` (taken modulo 32).
pub open spec fn rotr(x: u32, n: u32) -> u32 {
    let k = n % 32;
    if k == 0 {
        x
    } else {
        (x >> k) | (x << ((32 - k) as u32))
    }
}

/// `x` shifted right by `k` (1 to 31) with copies of bit 31 filling in from the left.
pub open spec fn asr(x: u32, k: u32) -> u32 {
    if bit32(x, 31) {
        (x >> k) | !(0xFFFF_FFFFu32 >> k)
    } else {
        x >> k
    }
}

/// The rotate amount that ROR uses: amounts above 32 count modulo 32, with
/// multiples of 32 giving 32.
pub open spec fn ror_amount(amount: u32) -> u32 {
    if amount > 32 {
        if amount % 32 == 0 {
            32
        } else {
            amount % 32
        }
    } else {
        amount
    }
}

/// The value and carry out of the barrel shifter, as the ARM7TDMI defines them.
pub open spec fn shift_spec(kind: ShiftKind, amount: u32, rm: u32, carry: bool) -> (u32, bool) {
    match kind {
        ShiftKind::Lsl => {
            if amount == 0 {
                (rm, carry)
            } else if amount < 32 {
                (rm << amount, bit32(rm, (32 - amount) as u32))
            } else if amount == 32 {
                (0, bit32(rm, 0))
            } else {
                (0, false)
            }
        },
        ShiftKind::Lsr => {
            if amount == 0 {
                (0, bit32(rm, 31))
            } else if amount < 32 {
                (rm >> amount, bit32(rm, (amount - 1) as u32))
            } else if amount == 32 {
                (0, bit32(rm, 31))
            } else {
                (0, false)
            }
        },
        ShiftKind::Asr => {
            if 1 <= amount <= 31 {
                (asr(rm, amount), bit32(rm, (amount - 1) as u32))
            } else {
                (
                    if bit32(rm, 31) {
                        0xFFFF_FFFFu32
                    } else {
                        0u32
                    },
                    bit32(rm, 31),
                )
            }
        },
        ShiftKind::Ror => {
            let n = ror_amount(amount);
            if n == 0 {
                ((rm >> 1) | (if carry {
                    0x8000_0000u32
                } else {
                    0u32
                }), bit32(rm, 0))
            } else if n < 32 {
                (rotr(rm, n), bit32(rm, (n - 1) as u32))
            } else {
                (rm, bit32(rm, 31))
            }
        },
    }
}

/// `x` rotated right by `n` bits (`n` taken modulo 32).
pub fn rotate_right(x: u32, n: u32) -> (r: u32)
    ensures
        r == rotr(x, n),
{
    let k = n % 32;
    if k == 0 {
        x
    } else {
        (x >> k) | (x << (32 - k))
    }
}

/// Perform a barrel shifter operation.
///
/// * `kind` - The type of shift (LSL, LSR, ASR, ROR)
/// * `shift_amount` - How many bits to shift (0-255, but behavior varies)
/// * `rm` - The value to shift (from register Rm)
/// * `carry` - The current carry flag (used for RRX encoding)
///
/// Special cases: `LSL #0` leaves the value and the carry; `LSR #0` encodes
/// `LSR #32`; `ASR #0` encodes `ASR #32`; `ROR #0` encodes `RRX`, a rotate right
/// through the carry by one. The overflow, sign and zero flags stay clear.
pub fn shift(kind: ShiftKind, shift_amount: u32, rm: u32, carry: bool) -> (r: ArithmeticOpResult)
    ensures
        (r.result, r.carry) == shift_spec(kind, shift_amount, rm, carry),
        !r.overflow,
        !r.sign,
        !r.zero,
{
    match kind {
        ShiftKind::Lsl => {
            if shift_amount == 0 {
                // LSL#0: No shift performed, ie. directly value=Rm, the C flag is NOT affected.
                ArithmeticOpResult { result: rm, carry, overflow: false, sign: false, zero: false }
            } else if shift_amount <= 32 {
                // LSL#1..32: Normal left logical shift; by 32 every bit leaves.
                let result = if shift_amount == 32 {
                    0
                } else {
                    rm << shift_amount
                };
                ArithmeticOpResult {
                    result,
                    carry: (rm >> (32 - shift_amount)) & 1 == 1,
                    overflow: false,
                    sign: false,
                    zero: false,
                }
            } else {
                // LSL#33...: Result is 0 and carry is 0
                ArithmeticOpResult::default()
            }
        },
        ShiftKind::Lsr => {
            if shift_amount == 0 {
                // LSR#0 is used to encode LSR#32, it has 0 result and carry equal to bit 31 of Rm
                ArithmeticOpResult {
                    result: 0,
                    carry: (rm >> 31u32) & 1 == 1,
                    overflow: false,
                    sign: false,
                    zero: false,
                }
            } else if shift_amount <= 32 {
                // LSR#1..32: Normal right logical shift
                let result = if shift_amount == 32 {
                    0
                } else {
                    rm >> shift_amount
                };
                ArithmeticOpResult {
                    result,
                    carry: (rm >> (shift_amount - 1)) & 1 == 1,
                    overflow: false,
                    sign: false,
                    zero: false,
                }
            } else {
                ArithmeticOpResult::default()
            }
        },
        ShiftKind::Asr => {
            let negative = (rm >> 31u32) & 1 == 1;
            if 1 <= shift_amount && shift_amount <= 31 {
                let result = if negative {
                    (rm >> shift_amount) | !(0xFFFF_FFFFu32 >> shift_amount)
                } else {
                    rm >> shift_amount
                };
                ArithmeticOpResult {
                    result,
                    carry: (rm >> (shift_amount - 1)) & 1 == 1,
                    overflow: false,
                    sign: false,
                    zero: false,
                }
            } else {
                // ASR#0 (which encodes ASR#32), ASR#32 and above all fill with the sign bit.
                ArithmeticOpResult {
                    result: if negative {
                        0xFFFF_FFFF
                    } else {
                        0
                    },
                    carry: negative,
                    overflow: false,
                    sign: false,
                    zero: false,
                }
            }
        },
        ShiftKind::Ror => {
            // ROR by n where n is greater than 32 gives the same result and carry
            // out as ROR by n-32: the amount is brought into the range 1 to 32.
            let mut new_shift_amount = shift_amount;
            if shift_amount > 32 {
                new_shift_amount = shift_amount % 32;
                // a multiple of 32 means ROR#32
                if new_shift_amount == 0 {
                    new_shift_amount = 32;
                }
            }
            if new_shift_amount == 0 {
                // ROR#0 is used to encode RRX (appending C to the left and shift right by 1)
                let old_carry: u32 = if carry {
                    0x8000_0000
                } else {
                    0
                };
                ArithmeticOpResult {
                    result: (rm >> 1u32) | old_carry,
                    carry: (rm >> 0u32) & 1 == 1,
                    overflow: false,
                    sign: false,
                    zero: false,
                }
            } else if new_shift_amount <= 31 {
                // ROR#1..31: normal rotate right
                ArithmeticOpResult {
                    result: rotate_right(rm, new_shift_amount),
                    carry: (rm >> (new_shift_amount - 1)) & 1 == 1,
                    overflow: false,
                    sign: false,
                    zero: false,
                }
            } else {
                // ROR#32 doesn't change rm but sets carry to bit 31 of rm
                ArithmeticOpResult {
                    result: rm,
                    carry: (rm >> 31u32) & 1 == 1,
                    overflow: false,
                    sign: false,
                    zero: false,
                }
            }
        },
    }
}

/// How the shift amount is specified for register operands.
#[derive(Clone, Copy, Debug, Eq, PartialEq, Structural)]
pub enum ShiftOperator {
    /// Shift amount is an immediate value (0-31, or special encodings).
    Immediate(u32),
    /// Shift amount comes from a register (uses bottom 8 bits).
    Register(u32),
}

impl ShiftOperator {
    /// `#amount` or `Rn`.
    pub open spec fn text(self) -> Seq<char> {
        match self {
            ShiftOperator::Immediate(value) => "#"@ + decimal(value as nat),
            ShiftOperator::Register(register) => "R"@ + decimal(register as nat),
        }
    }

    /// Appends the text of the shift operator.
    pub fn write_to(&self, s: &mut String)
        ensures
            final(s)@ == old(s)@ + self.text(),
    {
        match self {
            Self::Immediate(value) => {
                s.append("#");
                push_decimal(s, *value);
            },
            Self::Register(register) => {
                s.append("R");
                push_decimal(s, *register);
            },
        }
        proof {
            assert(s@ =~= old(s)@ + self.text());
        }
    }

    /// The text of the shift operator as a `String`.
    pub fn to_string(&self) -> (r: String)
        ensures
            r@ == self.text(),
    {
        let mut s = String::new();
        self.write_to(&mut s);
        proof {
            assert(s@ =~= self.text());
        }
        s
    }
}

/// The second operand for ALU data processing instructions: a register with
/// an optional shift, or an 8-bit immediate rotated right by an even amount.
#[derive(Clone, Copy, Debug, Eq, PartialEq, Structural)]
pub enum AluSecondOperandInfo {
    /// Register operand with optional shift.
    Register {
        /// How the shift amount is specified.
        shift_op: ShiftOperator,
        /// The type of shift to apply.
        shift_kind: ShiftKind,
        /// The register number (0-15) containing the value to shift.
        register: u32,
    },
    /// Immediate operand with rotation.
    Immediate {
        /// The 8-bit immediate value.
        base: u32,
        /// The rotation amount (already multiplied by 2).
        shift: u32,
    },
}

impl AluSecondOperandInfo {
    /// The assembler text of the operand: an immediate shift of zero is no
    /// shift for LSL, `RRX` for ROR, and a shift by 32 for LSR and ASR; an
    /// immediate operand is written as its rotated value.
    pub open spec fn text(self) -> Seq<char> {
        match self {
            AluSecondOperandInfo::Register { shift_op, shift_kind, register } => {
                let reg = "R"@ + decimal(register as nat);
                if shift_op == ShiftOperator::Immediate(0) {
                    if shift_kind == ShiftKind::Lsl {
                        reg
                    } else if shift_kind == ShiftKind::Ror {
                        reg + ", RRX"@
                    } else {
                        reg + ", "@ + shift_kind.text() + " #32"@
                    }
                } else {
                    reg + ", "@ + shift_kind.text() + " "@ + shift_op.text()
                }
            },
            AluSecondOperandInfo::Immediate { base, shift } => "#"@ + decimal(
                rotr(base, shift) as nat,
            ),
        }
    }

    /// Appends the text of the operand.
    pub fn write_to(&self, s: &mut String)
        ensures
            final(s)@ == old(s)@ + self.text(),
    {
        match *self {
            Self::Register { shift_op, shift_kind, register } => {
                s.append("R");
                push_decimal(s, register);
                let ghost reg_end = s@;
                if shift_op == ShiftOperator::Immediate(0) {
                    if shift_kind == ShiftKind::Lsl {
                    } else if shift_kind == ShiftKind::Ror {
                        s.append(", RRX");
                    } else {
                        s.append(", ");
                        s.append(shift_kind.to_str());
                        s.append(" #32");
                    }
                } else {
                    s.append(", ");
                    s.append(shift_kind.to_str());
                    s.append(" ");
                    shift_op.write_to(s);
                }
                proof {
                    assert(reg_end =~= old(s)@ + ("R"@ + decimal(register as nat)));
                    assert(s@ =~= old(s)@ + self.text());
                }
            },
            Self::Immediate { base, shift } => {
                s.append("#");
                push_decimal(s, rotate_right(base, shift));
                proof {
                    assert(s@ =~= old(s)@ + self.text());
                }
            },
        }
    }

    /// The text of the operand as a `String`.
    pub fn to_string(&self) -> (r: String)
        ensures
            r@ == self.text(),
    {
        let mut s = String::new();
        self.write_to(&mut s);
        proof {
            assert(s@ =~= self.text());
        }
        s
    }
}

/// The type of PSR (Program Status Register) transfer operation.
#[derive(Copy, Clone, Debug, PartialEq, Eq, Structural)]
pub enum PsrOpKind {
    /// MRS: Transfer PSR contents to a register.
    Mrs {
        /// The destination register to receive the PSR value.
        destination_register: u32,
    },
    /// MSR: Transfer register contents to PSR (all fields).
    Msr {
        /// The source register containing the new PSR value.
        source_register: u32,
    },
    /// MSR with field mask: Transfer register/immediate to specific PSR fields.
    MsrFlg {
        /// The value to write (register or rotated immediate).
        operand: AluSecondOperandInfo,
        /// Mask selecting which PSR fields to modify (bits 19-16 of instruction).
        field_mask: u32,
    },
}

/// The bit pattern of MRS (read a PSR into a register).
pub open spec fn is_mrs(op: u32) -> bool {
    field(op, 23, 27) == 0b0_0010 && field(op, 16, 21) == 0b00_1111 && field(op, 0, 11) == 0
}

/// The bit pattern of MSR (write a register to a whole PSR).
pub open spec fn is_msr(op: u32) -> bool {
    field(op, 23, 27) == 0b0_0010 && field(op, 12, 21) == 0b10_1001_1111 && field(op, 4, 11) == 0
}

/// The bit pattern of MSR with a field mask (register or immediate form).
pub open spec fn is_msr_flg(op: u32) -> bool {
    field(op, 26, 27) == 0b00 && field(op, 23, 24) == 0b10 && field(op, 20, 21) == 0b10 && field(
        op,
        12,
        15,
    ) == 0b1111
}

/// The PSR transfer that an opcode with one of the three patterns encodes.
pub open spec fn psr_op_kind_of(op: u32) -> PsrOpKind {
    if is_mrs(op) {
        PsrOpKind::Mrs { destination_register: field(op, 12, 15) }
    } else if is_msr(op) {
        PsrOpKind::Msr { source_register: field(op, 0, 3) }
    } else {
        PsrOpKind::MsrFlg {
            operand: if flag(op, 25) {
                AluSecondOperandInfo::Immediate {
                    base: field(op, 0, 7),
                    shift: (field(op, 8, 11) * 2) as u32,
                }
            } else {
                AluSecondOperandInfo::Register {
                    shift_op: ShiftOperator::Immediate(0),
                    shift_kind: ShiftKind::Lsl,
                    register: field(op, 0, 3),
                }
            },
            field_mask: field(op, 16, 19),
        }
    }
}

/// The message for an opcode that is no PSR transfer: the opcode in
/// hexadecimal and the checked bit fields in binary.
pub open spec fn psr_error_text(op: u32) -> Seq<char> {
    "Invalid PSR operation opcode: 0x"@ + hex(op as nat, 8) + "\nBits 23-27: 0b"@ + binary(
        field(op, 23, 27) as nat,
        5,
    ) + ", Bits 16-21: 0b"@ + binary(field(op, 16, 21) as nat, 6) + ", Bits 12-21: 0b"@
        + binary(field(op, 12, 21) as nat, 10) + ", Bits 0-11: 0b"@ + binary(
        field(op, 0, 11) as nat,
        12,
    )
}

impl PsrOpKind {
    /// Decodes a PSR transfer, or an error message when the opcode has none
    /// of the MRS, MSR and MSR-with-mask patterns.
    pub fn try_from(op_code: u32) -> (r: Result<Self, String>)
        ensures
            match r {
                Ok(kind) => (is_mrs(op_code) || is_msr(op_code) || is_msr_flg(op_code)) && kind
                    == psr_op_kind_of(op_code),
                Err(e) => !(is_mrs(op_code) || is_msr(op_code) || is_msr_flg(op_code)) && e@
                    == psr_error_text(op_code),
            },
    {
        proof {
            lemma_field_masks();
            lemma_field_le(op_code, 8, 11);
            lemma_field_le(op_code, 0, 3);
            lemma_field_le(op_code, 0, 7);
            lemma_field_le(op_code, 0, 11);
            lemma_field_le(op_code, 4, 11);
            lemma_field_le(op_code, 12, 15);
            lemma_field_le(op_code, 12, 21);
            lemma_field_le(op_code, 16, 19);
            lemma_field_le(op_code, 16, 21);
            lemma_field_le(op_code, 20, 21);
            lemma_field_le(op_code, 23, 24);
            lemma_field_le(op_code, 23, 27);
            lemma_field_le(op_code, 26, 27);
        }
        if op_code.get_bits(23..=27) == 0b0_0010 && op_code.get_bits(16..=21) == 0b00_1111
            && op_code.get_bits(0..=11) == 0b0000_0000_0000 {
            Ok(Self::Mrs { destination_register: op_code.get_bits(12..=15) })
        } else if op_code.get_bits(23..=27) == 0b00010 && op_code.get_bits(12..=21)
            == 0b10_1001_1111 && op_code.get_bits(4..=11) == 0b0000_0000 {
            Ok(Self::Msr { source_register: op_code.get_bits(0..=3) })
        } else if op_code.get_bits(26..=27) == 0b00 && op_code.get_bits(23..=24) == 0b10
            && op_code.get_bits(20..=21) == 0b10 && op_code.get_bits(12..=15) == 0b1111 {
            // MSR with field mask: can be immediate (bit 25=1) or register (bit 25=0)
            Ok(
                Self::MsrFlg {
                    operand: if op_code.get_bit(25) {
                        // Immediate form
                        AluSecondOperandInfo::Immediate {
                            base: op_code.get_bits(0..=7),
                            shift: op_code.get_bits(8..=11) * 2,
                        }
                    } else {
                        // Register form
                        AluSecondOperandInfo::Register {
                            shift_op: ShiftOperator::Immediate(0),
                            shift_kind: ShiftKind::Lsl,
                            register: op_code.get_bits(0..=3),
                        }
                    },
                    field_mask: op_code.get_bits(16..=19),
                },
            )
        } else {
            let mut e = String::from_str("Invalid PSR operation opcode: 0x");
            push_hex(&mut e, op_code, 8);
            e.append("\nBits 23-27: 0b");
            push_binary(&mut e, op_code.get_bits(23..=27), 5);
            e.append(", Bits 16-21: 0b");
            push_binary(&mut e, op_code.get_bits(16..=21), 6);
            e.append(", Bits 12-21: 0b");
            push_binary(&mut e, op_code.get_bits(12..=21), 10);
            e.append(", Bits 0-11: 0b");
            push_binary(&mut e, op_code.get_bits(0..=11), 12);
            proof {
                assert(e@ =~= psr_error_text(op_code));
            }
            Err(e)
        }
    }
}

/// Which Program Status Register to access.
#[derive(Copy, Clone, Debug, PartialEq, Eq, Structural)]
pub enum PsrKind {
    /// Current Program Status Register.
    Cpsr,
    /// Saved Program Status Register (banked per exception mode).
    Spsr,
}

impl From<bool> for PsrKind {
    fn from(value: bool) -> (r: Self) {
        if value {
            Self::Spsr
        } else {
            Self::Cpsr
        }
    }
}

impl vstd::std_specs::convert::FromSpecImpl<bool> for PsrKind {
    open spec fn obeys_from_spec() -> bool {
        true
    }

    open spec fn from_spec(value: bool) -> PsrKind {
        if value {
            PsrKind::Spsr
        } else {
            PsrKind::Cpsr
        }
    }
}

impl PsrKind {
    /// `CPSR` or `SPSR`.
    pub open spec fn text(self) -> Seq<char> {
        match self {
            PsrKind::Cpsr => "CPSR"@,
            PsrKind::Spsr => "SPSR"@,
        }
    }

    /// `CPSR` or `SPSR`.
    pub fn to_str(&self) -> (r: &'static str)
        ensures
            r@ == self.text(),
    {
        match self {
            Self::Cpsr => "CPSR",
            Self::Spsr => "SPSR",
        }
    }

    /// `CPSR` or `SPSR` as a `String`.
    pub fn to_string(&self) -> (r: String)
        ensures
            r@ == self.text(),
    {
        String::from_str(self.to_str())
    }
}

/// A rotate right by more than 32 gives the same result and carry out as a
/// rotate right by 32 less.
pub proof fn lemma_ror_above_32(amount: u32, rm: u32, carry: bool)
    requires
        amount > 32,
    ensures
        shift_spec(ShiftKind::Ror, amount, rm, carry) == shift_spec(
            ShiftKind::Ror,
            (amount - 32) as u32,
            rm,
            carry,
        ),
{
    let m = (amount - 32) as u32;
    assert(m % 32 == amount % 32) by {
        vstd::arithmetic::div_mod::lemma_mod_multiples_vanish(1, m as int, 32);
    }
    if m <= 32 {
        assert(m == 32 ==> amount % 32 == 0);
        if m < 32 {
            vstd::arithmetic::div_mod::lemma_small_mod(m as nat, 32);
        }
    }
}


/// Bit `k` of a word is the parity of the word divided by 2^k.
proof fn lemma_bit32_is_parity(x: u32, k: u32)
    requires
        k < 32,
    ensures
        bit32(x, k) == ((x as nat / pow2(k as nat)) % 2 == 1),
{
    vstd::bits::lemma_u32_shr_is_div(x, k);
    vstd::bits::lemma_u32_low_bits_mask_is_mod(x >> k, 1);
    vstd::bits::lemma_low_bits_mask_values();
    vstd::arithmetic::power2::lemma2_to64();
}

/// RRX's result in arithmetic terms: half the word, plus 2^31 when the
/// carry comes in.
proof fn lemma_rrx_bits(x: u32)
    by (bit_vector)
    ensures
        (x >> 1) | 0x8000_0000u32 == (x >> 1) + 0x8000_0000,
        (x >> 1) | 0u32 == x >> 1,
        x >> 1 == x / 2,
{
}

proof fn lemma_rrx_value(rm: u32, carry: bool)
    ensures
        ((rm >> 1) | (if carry {
            0x8000_0000u32
        } else {
            0u32
        })) == rm / 2 + (if carry {
            0x8000_0000int
        } else {
            0int
        }),
{
    lemma_rrx_bits(rm);
}

/// Bit `k` of `x`: the parity of `x` divided by 2^k.
pub open spec fn nth_bit(x: u32, k: int) -> bool {
    (x as nat / pow2(k as nat)) % 2 == 1
}

/// What the barrel shifter gives, in arithmetic terms: LSL by 0 keeps the
/// word and the carry, LSL by 1 to 31 carries out the last bit shifted
/// out (bit 32 - n), LSL by 32 gives zero and carries out bit 0, and by
/// more gives zero with no carry; LSR by 1 to 31 divides by 2^n and
/// carries out bit n - 1, LSR by 0 (which encodes 32) and by 32 give zero
/// and carry out bit 31, and by more gives zero with no carry; ASR by 1 to
/// 31 carries out bit n - 1, and by any other amount fills the word with
/// bit 31 and carries it out; ROR by 0 (RRX) shifts the carry in at bit 31
/// and carries out bit 0, ROR by 1 to 31 (counted modulo 32 above 32)
/// carries out bit n - 1, and ROR by a multiple of 32 keeps the word and
/// carries out bit 31.
pub proof fn lemma_shift_laws(kind: ShiftKind, amount: u32, rm: u32, carry: bool)
    ensures
        kind == ShiftKind::Lsl && amount == 0 ==> shift_spec(kind, amount, rm, carry) == (rm, carry),
        kind == ShiftKind::Lsl && 1 <= amount < 32 ==> shift_spec(kind, amount, rm, carry).1
            == nth_bit(rm, 32 - amount),
        kind == ShiftKind::Lsl && amount == 32 ==> shift_spec(kind, amount, rm, carry) == (
            0u32,
            rm % 2 == 1,
        ),
        kind == ShiftKind::Lsl && amount > 32 ==> shift_spec(kind, amount, rm, carry) == (0u32, false),
        kind == ShiftKind::Lsr && 1 <= amount < 32 ==> shift_spec(kind, amount, rm, carry).0 == rm as nat
            / pow2(amount as nat) && shift_spec(kind, amount, rm, carry).1 == nth_bit(rm, amount - 1),
        kind == ShiftKind::Lsr && (amount == 0 || amount == 32) ==> shift_spec(kind, amount, rm, carry)
            == (0u32, rm >= 0x8000_0000),
        kind == ShiftKind::Lsr && amount > 32 ==> shift_spec(kind, amount, rm, carry) == (0u32, false),
        kind == ShiftKind::Asr && 1 <= amount <= 31 ==> shift_spec(kind, amount, rm, carry).1 == nth_bit(
            rm,
            amount - 1,
        ),
        kind == ShiftKind::Asr && !(1 <= amount <= 31) ==> shift_spec(kind, amount, rm, carry) == (
            if rm >= 0x8000_0000 {
                0xFFFF_FFFFu32
            } else {
                0u32
            },
            rm >= 0x8000_0000,
        ),
        kind == ShiftKind::Ror && amount == 0 ==> shift_spec(kind, amount, rm, carry).0 == rm / 2 + (
        if carry {
            0x8000_0000int
        } else {
            0int
        }) && shift_spec(kind, amount, rm, carry).1 == (rm % 2 == 1),
        kind == ShiftKind::Ror && amount % 32 != 0 ==> shift_spec(kind, amount, rm, carry).1 == nth_bit(
            rm,
            amount % 32 - 1,
        ),
        kind == ShiftKind::Ror && amount > 0 && amount % 32 == 0 ==> shift_spec(kind, amount, rm, carry)
            == (rm, rm >= 0x8000_0000),
{
    assert forall|k: u32| k < 32 implies bit32(rm, k) == nth_bit(rm, k as int) by {
        lemma_bit32_is_parity(rm, k);
    }
    vstd::arithmetic::power2::lemma2_to64();
    let p0 = pow2(0int as nat);
    let p31 = pow2(31int as nat);
    assert(p0 == 1 && p31 == 0x8000_0000);
    assert(rm as nat / p0 == rm) by (nonlinear_arith)
        requires
            p0 == 1,
    ;
    assert((rm as nat / p31) % 2 == 1 <==> rm >= 0x8000_0000) by (nonlinear_arith)
        requires
            p31 == 0x8000_0000,
            rm <= 0xFFFF_FFFF,
    ;
    if kind == ShiftKind::Lsr && 1 <= amount < 32 {
        vstd::bits::lemma_u32_shr_is_div(rm, amount);
    }
    if kind == ShiftKind::Ror && amount == 0 {
        lemma_rrx_value(rm, carry);
    }
}

} // verus!
