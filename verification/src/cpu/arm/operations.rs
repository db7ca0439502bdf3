//! ARM-state instruction semantics: the data processing (ALU) operations and
//! the flags they set, multiplies, branches, PSR transfers and memory
//! transfers.
use crate::bitwise::{bit_at, byte_of, lemma_field_masks, sign_extend, Bits};
use crate::bus::{bus_address, half_word_aligned, word_aligned};
use crate::cpu::arm::alu_instruction::{
    field, flag, lemma_field_le, shift, shift_spec, AIKind, ArithmeticOpResult, ArmModeAluInstr,
    Kind,
};
use crate::cpu::arm::instructions::{
    is_test_instr, ArmModeMultiplyLongVariant, ArmModeMultiplyVariant, SingleDataTransferKind,
    SingleDataTransferOffsetInfo,
};
use crate::cpu::arm::mode::ArmModeOpcode;
use crate::cpu::arm7tdmi::{lemma_mode_code_of, mode_of, Arm7tdmi, HalfwordTransferKind};
use crate::cpu::condition::Condition;
use crate::cpu::cpu_modes::{is_mode_code, Mode};
use crate::cpu::flags::{
    shift_kind_of, HalfwordDataTransferOffsetKind, Indexing, LoadStoreKind, Offsetting, OperandKind,
    ReadWriteKind, ShiftKind,
};
use crate::cpu::psr::{condition_holds, lemma_set_flags, CpuState, Psr};
use crate::cpu::registers::REG_PC;
use vstd::prelude::*;

verus! {

/// The size of an ARM instruction in bytes.
pub const SIZE_OF_INSTRUCTION: u32 = 4;

/// Bit 31 of a word: the sign of a two's complement number.
pub open spec fn sign32(v: u32) -> bool {
    v >= 0x8000_0000
}

/// A word read as a two's complement number.
pub open spec fn signed32(v: u32) -> int {
    if v >= 0x8000_0000 {
        v - 0x1_0000_0000
    } else {
        v as int
    }
}

/// The sum of two words and its flags: the carry is the unsigned carry out of
/// bit 31, the overflow is set when both operands have one sign and the sum
/// the other.
pub open spec fn add_result(a: u32, b: u32) -> ArithmeticOpResult {
    let r = ((a + b) % 0x1_0000_0000) as u32;
    ArithmeticOpResult {
        result: r,
        carry: a + b >= 0x1_0000_0000,
        overflow: sign32(a) == sign32(b) && sign32(r) != sign32(a),
        sign: sign32(r),
        zero: r == 0,
    }
}

/// The difference of two words and its flags: the carry is set when nothing
/// is borrowed, the overflow when the operands have different signs and the
/// difference has the sign of the second.
pub open spec fn sub_result(a: u32, b: u32) -> ArithmeticOpResult {
    let r = ((a - b) % 0x1_0000_0000) as u32;
    ArithmeticOpResult {
        result: r,
        carry: a >= b,
        overflow: sign32(a) != sign32(b) && sign32(b) == sign32(r),
        sign: sign32(r),
        zero: r == 0,
    }
}

/// Add with carry: the sum of `a` and `b`, then of that and the carry; the
/// result carries or overflows when either addition does.
pub open spec fn adc_result(a: u32, b: u32, carry: bool) -> ArithmeticOpResult {
    let first = add_result(a, b);
    let second = add_result(first.result, if carry {
        1
    } else {
        0
    });
    ArithmeticOpResult {
        result: second.result,
        carry: first.carry || second.carry,
        overflow: first.overflow || second.overflow,
        sign: second.sign,
        zero: second.zero,
    }
}

/// Subtract with carry: `a - b - 1 + carry`; the carry is set when nothing is
/// borrowed, the overflow when `a` and `b` have different signs and the
/// result has the sign of `b`.
pub open spec fn sbc_result(a: u32, b: u32, carry: bool) -> ArithmeticOpResult {
    let borrow: int = if carry {
        0
    } else {
        1
    };
    let r = ((a - b - borrow) % 0x1_0000_0000) as u32;
    ArithmeticOpResult {
        result: r,
        carry: a >= b + borrow,
        overflow: sign32(a) != sign32(b) && sign32(r) != sign32(a),
        sign: sign32(r),
        zero: r == 0,
    }
}

/// The CPSR after a logical operation with result `result`: with `s`, N and
/// Z follow the result; without, nothing changes.
pub open spec fn logic_flags(cpsr: Psr, s: bool, result: u32) -> Psr {
    if s {
        cpsr.with_nz(sign32(result), result == 0)
    } else {
        cpsr
    }
}

/// The CPSR after an arithmetic operation: with `s`, the result's N, Z, C
/// and V; without, nothing changes.
pub open spec fn arith_flags(cpsr: Psr, s: bool, r: ArithmeticOpResult) -> Psr {
    if s {
        cpsr.with_nzcv(r.sign, r.zero, r.carry, r.overflow)
    } else {
        cpsr
    }
}

/// Bit 31 read through the bit helpers is the sign.
proof fn lemma_bit31(v: u32)
    ensures
        bit_at(v as u128, 31) == sign32(v),
{
    lemma_bit31_bv(v);
}

proof fn lemma_bit31_bv(v: u32)
    by (bit_vector)
    ensures
        (((v as u128) >> 31u128) & 1 == 1) == (v >= 0x8000_0000),
{
}

/// The 64-bit sum of two words: its low word is the sum modulo 2^32 and its
/// bit 32 the carry.
proof fn lemma_add_bits(a: u32, b: u32, s: u64)
    by (bit_vector)
    requires
        s == a + b,
    ensures
        ((s & 0x0001_0000_0000) >> 32u64 == 1) == (a + b >= 0x1_0000_0000),
        s as u32 == ((a + b) % 0x1_0000_0000) as u32,
{
}

impl Arm7tdmi {
    /// The sum of two words with its flags.
    #[must_use]
    pub fn add_inner_op(first_op: u32, second_op: u32) -> (r: ArithmeticOpResult)
        ensures
            r == add_result(first_op, second_op),
    {
        // The sum in 64 bits, so that bit 32 is the carry.
        let result_and_carry = (first_op as u64).wrapping_add(second_op as u64);
        let result = result_and_carry as u32;
        proof {
            lemma_add_bits(first_op, second_op, result_and_carry);
            lemma_bit31(first_op);
            lemma_bit31(second_op);
            lemma_bit31(result);
        }

        let sign_op1 = first_op.get_bit(31);
        let sign_op2 = second_op.get_bit(31);
        let sign_r = result.get_bit(31);

        let carry = (result_and_carry & 0x0001_0000_0000) >> 32 == 1;

        // Overflow only when the operands have one sign and the result the other.
        let same_sign = sign_op1 == sign_op2;

        ArithmeticOpResult {
            result,
            carry,
            overflow: same_sign && (sign_op1 != sign_r),
            sign: result.get_bit(31),
            zero: result == 0,
        }
    }

    /// The difference of two words with its flags.
    #[must_use]
    pub fn sub_inner_op(first_op: u32, second_op: u32) -> (r: ArithmeticOpResult)
        ensures
            r == sub_result(first_op, second_op),
    {
        let result = first_op.wrapping_sub(second_op);
        proof {
            lemma_bit31(first_op);
            lemma_bit31(second_op);
            lemma_bit31(result);
        }

        let sign_op1 = first_op.get_bit(31);
        let sign_op2 = second_op.get_bit(31);
        let sign_r = result.get_bit(31);

        let different_sign = sign_op1 != sign_op2;

        ArithmeticOpResult {
            result,
            carry: first_op >= second_op,
            overflow: different_sign && sign_op2 == sign_r,
            sign: result.get_bit(31),
            zero: result == 0,
        }
    }

    /// Sets N and Z from a result.
    fn set_nz(&mut self, result: u32)
        ensures
            final(self).cpsr == old(self).cpsr.with_nz(sign32(result), result == 0),
            old(self).keeps_others(*final(self)),
            final(self).registers == old(self).registers,
    {
        proof {
            lemma_bit31(result);
            lemma_set_flags(self.cpsr.0, sign32(result), result == 0, false, false);
        }
        self.cpsr.set_zero_flag(result == 0);
        self.cpsr.set_sign_flag(result.get_bit(31));
    }

    /// AND: `rd` takes `rn & op2`.
    pub fn and(&mut self, rd: usize, rn: u32, op2: u32, s: bool)
        requires
            rd < 16,
        ensures
            final(self).registers.0@ == old(self).registers.0@.update(rd as int, rn & op2),
            final(self).cpsr == logic_flags(old(self).cpsr, s, rn & op2),
            old(self).keeps_others(*final(self)),
    {
        let result = rn & op2;

        self.registers.set_register_at(rd, result);

        if s {
            self.set_nz(result);
        }
    }

    /// EOR: `rd` takes `rn ^ op2`.
    pub fn eor(&mut self, rd: usize, rn: u32, op2: u32, s: bool)
        requires
            rd < 16,
        ensures
            final(self).registers.0@ == old(self).registers.0@.update(rd as int, rn ^ op2),
            final(self).cpsr == logic_flags(old(self).cpsr, s, rn ^ op2),
            old(self).keeps_others(*final(self)),
    {
        let result = rn ^ op2;

        self.registers.set_register_at(rd, result);

        if s {
            self.set_nz(result);
        }
    }

    /// ORR: `rd` takes `rn | op2`.
    pub fn orr(&mut self, rd: usize, rn: u32, op2: u32, s: bool)
        requires
            rd < 16,
        ensures
            final(self).registers.0@ == old(self).registers.0@.update(rd as int, rn | op2),
            final(self).cpsr == logic_flags(old(self).cpsr, s, rn | op2),
            old(self).keeps_others(*final(self)),
    {
        let result = rn | op2;

        self.registers.set_register_at(rd, result);

        if s {
            self.set_nz(result);
        }
    }

    /// BIC: `rd` takes `rn & !op2`.
    pub fn bic(&mut self, rd: usize, rn: u32, op2: u32, s: bool)
        requires
            rd < 16,
        ensures
            final(self).registers.0@ == old(self).registers.0@.update(rd as int, rn & !op2),
            final(self).cpsr == logic_flags(old(self).cpsr, s, rn & !op2),
            old(self).keeps_others(*final(self)),
    {
        let result = rn & !op2;

        self.registers.set_register_at(rd, result);

        if s {
            self.set_nz(result);
        }
    }

    /// MOV: `rd` takes `op2`.
    pub fn mov(&mut self, rd: usize, op2: u32, s: bool)
        requires
            rd < 16,
        ensures
            final(self).registers.0@ == old(self).registers.0@.update(rd as int, op2),
            final(self).cpsr == logic_flags(old(self).cpsr, s, op2),
            old(self).keeps_others(*final(self)),
    {
        self.registers.set_register_at(rd, op2);

        if s {
            self.set_nz(op2);
        }
    }

    /// MVN: `rd` takes `!op2`.
    pub fn mvn(&mut self, rd: usize, op2: u32, s: bool)
        requires
            rd < 16,
        ensures
            final(self).registers.0@ == old(self).registers.0@.update(rd as int, !op2),
            final(self).cpsr == logic_flags(old(self).cpsr, s, !op2),
            old(self).keeps_others(*final(self)),
    {
        let result = !op2;

        self.registers.set_register_at(rd, result);

        if s {
            self.set_nz(result);
        }
    }

    /// TST: N and Z of `rn & op2`; no register changes.
    pub fn tst(&mut self, rn: u32, op2: u32)
        ensures
            final(self).registers == old(self).registers,
            final(self).cpsr == old(self).cpsr.with_nz(sign32(rn & op2), rn & op2 == 0),
            old(self).keeps_others(*final(self)),
    {
        let value = rn & op2;
        proof {
            lemma_bit31(value);
            lemma_set_flags(self.cpsr.0, sign32(value), value == 0, false, false);
        }

        self.cpsr.set_sign_flag(value.is_bit_on(31));
        self.cpsr.set_zero_flag(value == 0);
    }

    /// TEQ: N and Z of `rn ^ op2`; no register changes.
    pub fn teq(&mut self, rn: u32, op2: u32)
        ensures
            final(self).registers == old(self).registers,
            final(self).cpsr == old(self).cpsr.with_nz(sign32(rn ^ op2), rn ^ op2 == 0),
            old(self).keeps_others(*final(self)),
    {
        let value = rn ^ op2;
        proof {
            lemma_bit31(value);
            lemma_set_flags(self.cpsr.0, sign32(value), value == 0, false, false);
        }
        self.cpsr.set_sign_flag(value.is_bit_on(31));
        self.cpsr.set_zero_flag(value == 0);
    }

    /// ADD: `rd` takes `rn + op2`.
    pub fn add(&mut self, rd: usize, rn: u32, op2: u32, s: bool)
        requires
            rd < 16,
        ensures
            final(self).registers.0@ == old(self).registers.0@.update(
                rd as int,
                add_result(rn, op2).result,
            ),
            final(self).cpsr == arith_flags(old(self).cpsr, s, add_result(rn, op2)),
            old(self).keeps_others(*final(self)),
    {
        let add_result = Self::add_inner_op(rn, op2);

        self.registers.set_register_at(rd, add_result.result);

        if s {
            self.cpsr.set_flags(&add_result);
        }
    }

    /// SUB: `rd` takes `rn - op2`.
    pub fn sub(&mut self, rd: usize, rn: u32, op2: u32, s: bool)
        requires
            rd < 16,
        ensures
            final(self).registers.0@ == old(self).registers.0@.update(
                rd as int,
                sub_result(rn, op2).result,
            ),
            final(self).cpsr == arith_flags(old(self).cpsr, s, sub_result(rn, op2)),
            old(self).keeps_others(*final(self)),
    {
        let sub_result = Self::sub_inner_op(rn, op2);

        self.registers.set_register_at(rd, sub_result.result);

        if s {
            self.cpsr.set_flags(&sub_result);
        }
    }

    /// RSB: `rd` takes `op2 - rn`.
    pub fn rsb(&mut self, rd: usize, rn: u32, op2: u32, s: bool)
        requires
            rd < 16,
        ensures
            final(self).registers.0@ == old(self).registers.0@.update(
                rd as int,
                sub_result(op2, rn).result,
            ),
            final(self).cpsr == arith_flags(old(self).cpsr, s, sub_result(op2, rn)),
            old(self).keeps_others(*final(self)),
    {
        self.sub(rd, op2, rn, s);
    }

    /// ADC: `rd` takes `rn + op2 + C`.
    pub fn adc(&mut self, rd: usize, rn: u32, op2: u32, s: bool)
        requires
            rd < 16,
        ensures
            final(self).registers.0@ == old(self).registers.0@.update(
                rd as int,
                adc_result(rn, op2, old(self).cpsr.flag(29)).result,
            ),
            final(self).cpsr == arith_flags(
                old(self).cpsr,
                s,
                adc_result(rn, op2, old(self).cpsr.flag(29)),
            ),
            old(self).keeps_others(*final(self)),
    {
        let carry: u32 = if self.cpsr.carry_flag() {
            1
        } else {
            0
        };

        let first_op_result = Self::add_inner_op(rn, op2);
        let second_op_result = Self::add_inner_op(first_op_result.result, carry);

        let result_op = ArithmeticOpResult {
            result: second_op_result.result,
            carry: first_op_result.carry || second_op_result.carry,
            overflow: first_op_result.overflow || second_op_result.overflow,
            sign: second_op_result.sign,
            zero: second_op_result.zero,
        };

        self.registers.set_register_at(rd, result_op.result);

        if s {
            self.cpsr.set_flags(&result_op);
        }
    }

    /// SBC: `rd` takes `rn - op2 - NOT(C)`.
    pub fn sbc(&mut self, rd: usize, rn: u32, op2: u32, s: bool)
        requires
            rd < 16,
        ensures
            final(self).registers.0@ == old(self).registers.0@.update(
                rd as int,
                sbc_result(rn, op2, old(self).cpsr.flag(29)).result,
            ),
            final(self).cpsr == arith_flags(
                old(self).cpsr,
                s,
                sbc_result(rn, op2, old(self).cpsr.flag(29)),
            ),
            old(self).keeps_others(*final(self)),
    {
        // NOT(C) is 0 when the carry is set and 1 when it is clear.
        let not_carry: u32 = if self.cpsr.carry_flag() {
            0
        } else {
            1
        };

        let result = rn.wrapping_sub(op2).wrapping_sub(not_carry);

        // The carry is set when nothing is borrowed: Rn >= Op2 + NOT(C),
        // compared in 64 bits.
        let carry_out = (rn as u64) >= (op2 as u64) + (not_carry as u64);

        // Overflow: the operands have different signs and the result has the
        // sign opposite to Rn's.
        proof {
            lemma_bit31(rn);
            lemma_bit31(op2);
            lemma_bit31(result);
        }
        let sign_rn = rn.get_bit(31);
        let sign_op2 = op2.get_bit(31);
        let sign_result = result.get_bit(31);
        let overflow = (sign_rn != sign_op2) && (sign_result != sign_rn);

        self.registers.set_register_at(rd, result);

        if s {
            proof {
                lemma_set_flags(self.cpsr.0, sign_result, result == 0, carry_out, overflow);
            }
            self.cpsr.set_carry_flag(carry_out);
            self.cpsr.set_zero_flag(result == 0);
            self.cpsr.set_sign_flag(sign_result);
            self.cpsr.set_overflow_flag(overflow);
        }
    }

    /// RSC: `rd` takes `op2 - rn - NOT(C)`.
    pub fn rsc(&mut self, rd: usize, rn: u32, op2: u32, s: bool)
        requires
            rd < 16,
        ensures
            final(self).registers.0@ == old(self).registers.0@.update(
                rd as int,
                sbc_result(op2, rn, old(self).cpsr.flag(29)).result,
            ),
            final(self).cpsr == arith_flags(
                old(self).cpsr,
                s,
                sbc_result(op2, rn, old(self).cpsr.flag(29)),
            ),
            old(self).keeps_others(*final(self)),
    {
        self.sbc(rd, op2, rn, s);
    }

    /// CMP: the flags of `rn - op2`; no register changes.
    pub fn cmp(&mut self, rn: u32, op2: u32)
        ensures
            final(self).registers == old(self).registers,
            final(self).cpsr == arith_flags(old(self).cpsr, true, sub_result(rn, op2)),
            old(self).keeps_others(*final(self)),
    {
        let sub_result = Self::sub_inner_op(rn, op2);

        self.cpsr.set_flags(&sub_result);
    }

    /// CMN: the flags of `rn + op2`; no register changes.
    pub fn cmn(&mut self, rn: u32, op2: u32)
        ensures
            final(self).registers == old(self).registers,
            final(self).cpsr == arith_flags(old(self).cpsr, true, add_result(rn, op2)),
            old(self).keeps_others(*final(self)),
    {
        let add_result = Self::add_inner_op(rn, op2);

        self.cpsr.set_flags(&add_result);
    }

    /// NEG: `rd` takes `0 - rs`, and the flags follow.
    pub fn neg(&mut self, rd: usize, rs: u32)
        requires
            rd < 16,
        ensures
            final(self).registers.0@ == old(self).registers.0@.update(
                rd as int,
                sub_result(0, rs).result,
            ),
            final(self).cpsr == arith_flags(old(self).cpsr, true, sub_result(0, rs)),
            old(self).keeps_others(*final(self)),
    {
        self.rsb(rd, rs, 0, true);
    }

    /// ROR: `rd` rotated right by the low byte of `rs`, with N, Z and C from
    /// the rotation; a zero amount leaves `rd` and C and sets N and Z from it.
    pub fn ror(&mut self, rd: usize, rs: u32)
        requires
            rd < 16,
        ensures
            ({
                let amount = rs & 0xFF;
                let value = old(self).reg(rd as int);
                let (result, carry) = shift_spec(ShiftKind::Ror, amount, value, old(self).cpsr.flag(29));
                if amount != 0 {
                    &&& final(self).registers.0@ == old(self).registers.0@.update(rd as int, result)
                    &&& final(self).cpsr == old(self).cpsr.with_nzcv(
                        sign32(result),
                        result == 0,
                        carry,
                        old(self).cpsr.flag(28),
                    )
                } else {
                    &&& final(self).registers == old(self).registers
                    &&& final(self).cpsr == old(self).cpsr.with_nz(sign32(value), value == 0)
                }
            }),
            old(self).keeps_others(*final(self)),
    {
        let rs = rs & 0xFF;
        let rd_value = self.registers.register_at(rd);
        if rs != 0 {
            let r = shift(ShiftKind::Ror, rs, rd_value, self.cpsr.carry_flag());
            self.registers.set_register_at(rd, r.result);
            proof {
                lemma_bit31(r.result);
                lemma_set_flags(self.cpsr.0, sign32(r.result), r.result == 0, r.carry, self.cpsr.flag(28));
                lemma_carry_then_nz(self.cpsr.0, sign32(r.result), r.result == 0, r.carry);
            }
            self.cpsr.set_zero_flag(r.result == 0);
            self.cpsr.set_sign_flag(r.result.get_bit(31));
            self.cpsr.set_carry_flag(r.carry);
        } else {
            self.set_nz(rd_value);
        }
    }
}

/// The offset added to R15 when an ALU instruction reads it: the program
/// counter is 8 bytes ahead, and 12 when the shift amount comes from a
/// register, which costs a cycle more.
pub open spec fn pc_offset(i: OperandKind, r: bool) -> u32 {
    if i == OperandKind::Register && r {
        4
    } else {
        0
    }
}

/// The registers and CPSR after the ALU operation `alu` on `op1` and `op2`
/// with destination `rd`.
pub open spec fn alu_spec(
    regs: Seq<u32>,
    cpsr: Psr,
    alu: ArmModeAluInstr,
    rd: int,
    op1: u32,
    op2: u32,
    s: bool,
) -> (Seq<u32>, Psr) {
    let c = cpsr.flag(29);
    match alu {
        ArmModeAluInstr::And => (regs.update(rd, op1 & op2), logic_flags(cpsr, s, op1 & op2)),
        ArmModeAluInstr::Eor => (regs.update(rd, op1 ^ op2), logic_flags(cpsr, s, op1 ^ op2)),
        ArmModeAluInstr::Sub => (
            regs.update(rd, sub_result(op1, op2).result),
            arith_flags(cpsr, s, sub_result(op1, op2)),
        ),
        ArmModeAluInstr::Rsb => (
            regs.update(rd, sub_result(op2, op1).result),
            arith_flags(cpsr, s, sub_result(op2, op1)),
        ),
        ArmModeAluInstr::Add => (
            regs.update(rd, add_result(op1, op2).result),
            arith_flags(cpsr, s, add_result(op1, op2)),
        ),
        ArmModeAluInstr::Adc => (
            regs.update(rd, adc_result(op1, op2, c).result),
            arith_flags(cpsr, s, adc_result(op1, op2, c)),
        ),
        ArmModeAluInstr::Sbc => (
            regs.update(rd, sbc_result(op1, op2, c).result),
            arith_flags(cpsr, s, sbc_result(op1, op2, c)),
        ),
        ArmModeAluInstr::Rsc => (
            regs.update(rd, sbc_result(op2, op1, c).result),
            arith_flags(cpsr, s, sbc_result(op2, op1, c)),
        ),
        ArmModeAluInstr::Tst => (regs, cpsr.with_nz(sign32(op1 & op2), op1 & op2 == 0)),
        ArmModeAluInstr::Teq => (regs, cpsr.with_nz(sign32(op1 ^ op2), op1 ^ op2 == 0)),
        ArmModeAluInstr::Cmp => (regs, arith_flags(cpsr, true, sub_result(op1, op2))),
        ArmModeAluInstr::Cmn => (regs, arith_flags(cpsr, true, add_result(op1, op2))),
        ArmModeAluInstr::Orr => (regs.update(rd, op1 | op2), logic_flags(cpsr, s, op1 | op2)),
        ArmModeAluInstr::Mov => (regs.update(rd, op2), logic_flags(cpsr, s, op2)),
        ArmModeAluInstr::Bic => (regs.update(rd, op1 & !op2), logic_flags(cpsr, s, op1 & !op2)),
        ArmModeAluInstr::Mvn => (regs.update(rd, !op2), logic_flags(cpsr, s, !op2)),
    }
}

/// The value and CPSR after the barrel shifter works on an operand: a
/// logical instruction with S takes the shifter's carry out.
pub open spec fn shifted_operand(
    cpsr: Psr,
    alu: ArmModeAluInstr,
    s: bool,
    kind: ShiftKind,
    amount: u32,
    value: u32,
) -> (u32, Psr) {
    let (result, carry) = shift_spec(kind, amount, value, cpsr.flag(29));
    (result, if alu.is_logical() && s {
        cpsr.with_flag(29, carry)
    } else {
        cpsr
    })
}

impl Arm7tdmi {
    /// Whether reading the second operand's registers cannot overflow: R15
    /// with a register shift amount reads 4 more, which must fit in a word.
    pub open spec fn operand_fits(self, i: OperandKind, op2: u32) -> bool {
        i == OperandKind::Register && field(op2, 0, 3) == 15 && flag(op2, 4) ==> self.reg(15)
            <= u32::MAX - 4
    }

    /// The second operand of an ALU instruction whose low twelve bits are
    /// `op2`, and the CPSR after the shifter: for a register, Rm shifted by
    /// an immediate amount or by the low byte of Rs (a zero byte leaves Rm
    /// and the carry); for an immediate, the byte rotated right by twice the
    /// rotate field.
    pub open spec fn operand_spec(self, alu: ArmModeAluInstr, s: bool, i: OperandKind, op2: u32) -> (
        u32,
        Psr,
    ) {
        match i {
            OperandKind::Register => {
                let rm = field(op2, 0, 3);
                let r = flag(op2, 4);
                let offset: u32 = if rm == 15 {
                    pc_offset(i, r)
                } else {
                    0
                };
                let value = (self.reg(rm as int) + offset) as u32;
                let kind = shift_kind_of(field(op2, 5, 6));
                if r {
                    let amount = self.reg(field(op2, 8, 11) as int) & 0xFF;
                    if amount == 0 {
                        (value, self.cpsr)
                    } else {
                        shifted_operand(self.cpsr, alu, s, kind, amount, value)
                    }
                } else {
                    shifted_operand(self.cpsr, alu, s, kind, field(op2, 7, 11), value)
                }
            },
            OperandKind::Immediate => {
                let imm = field(op2, 0, 7);
                let rotate = (field(op2, 8, 11) * 2) as u32;
                if rotate == 0 {
                    (imm, self.cpsr)
                } else {
                    shifted_operand(self.cpsr, alu, s, ShiftKind::Ror, rotate, imm)
                }
            },
        }
    }

    /// The offset added to R15 when an ALU instruction reads it.
    pub fn get_pc_offset_alu(i: OperandKind, r: bool) -> (o: u32)
        ensures
            o == pc_offset(i, r),
    {
        if i == OperandKind::Register && r {
            4
        } else {
            0
        }
    }

    /// Shifts `rm` through the barrel shifter; a logical instruction with S
    /// takes the shifter's carry out into C.
    pub fn shift_operand(
        &mut self,
        alu_instruction: ArmModeAluInstr,
        s: bool,
        shift_kind: ShiftKind,
        shift_amount: u32,
        rm: u32,
    ) -> (r: u32)
        ensures
            (r, final(self).cpsr) == shifted_operand(
                old(self).cpsr,
                alu_instruction,
                s,
                shift_kind,
                shift_amount,
                rm,
            ),
            final(self).registers == old(self).registers,
            old(self).keeps_others(*final(self)),
    {
        let result = shift(shift_kind, shift_amount, rm, self.cpsr.carry_flag());

        // A logical ALU instruction with S set takes the carry out.
        if alu_instruction.kind() == AIKind::Logical && s {
            self.cpsr.set_carry_flag(result.carry);
        }

        result.result
    }

    /// The second operand of an ALU instruction whose low twelve bits are
    /// `op2`.
    pub fn get_operand(&mut self, alu_instruction: ArmModeAluInstr, s: bool, i: OperandKind, op2: u32) -> (r: u32)
        requires
            old(self).operand_fits(i, op2),
        ensures
            (r, final(self).cpsr) == old(self).operand_spec(alu_instruction, s, i, op2),
            final(self).registers == old(self).registers,
            old(self).keeps_others(*final(self)),
    {
        proof {
            lemma_field_masks();
            lemma_field_le(op2, 0, 3);
            lemma_field_le(op2, 0, 7);
            lemma_field_le(op2, 5, 6);
            lemma_field_le(op2, 7, 11);
            lemma_field_le(op2, 8, 11);
            lemma_field_le(op2, 4, 4);
        }
        match i {
            // The operand is a register, shifted.
            OperandKind::Register => {
                // Bits 0-3: the register Rm (R15 included).
                let rm = op2.get_bits(0..=3);
                // Bit 4: whether the shift amount comes from a register.
                let r = op2.get_bit(4);
                let offset = if rm == REG_PC {
                    // R15 reads ahead because of the pipeline.
                    Self::get_pc_offset_alu(i, r)
                } else {
                    0
                };
                let rm = self.registers.register_at(rm as usize) + offset;
                let shift_kind = ShiftKind::from(op2.get_bits(5..=6));

                let shift_amount = if r {
                    // Bits 8-11: the register Rs, of which only the low byte counts.
                    let rs = op2.get_bits(8..=11);
                    let rs = self.registers.register_at(rs as usize) & 0xFF;
                    // A zero amount from a register leaves Rm as it is.
                    if rs == 0 {
                        return rm;
                    }
                    rs
                } else {
                    // Bits 7-11: the shift amount.
                    op2.get_bits(7..=11)
                };

                self.shift_operand(alu_instruction, s, shift_kind, shift_amount, rm)
            },
            OperandKind::Immediate => {
                // Bits 0-7: the immediate value.
                let imm = op2.get_bits(0..=7);
                // Bits 8-11: the rotate amount, in steps of two.
                let rotate_amount = op2.get_bits(8..=11) * 2;

                if rotate_amount == 0 {
                    // No rotation: the carry stays.
                    imm
                } else {
                    self.shift_operand(alu_instruction, s, ShiftKind::Ror, rotate_amount, imm)
                }
            },
        }
    }
}

/// A register number as an index into the register file.
pub fn register_index(r: u32) -> (i: usize)
    requires
        r < 16,
    ensures
        i == r,
{
    r as usize
}

/// Writing the condition flags leaves the mode bits.
pub proof fn lemma_flag_writes_keep_mode()
    ensures
        forall|p: Psr, n: bool, z: bool, c: bool, o: bool|
            #[trigger] p.with_nzcv(n, z, c, o).mode_bits() == p.mode_bits(),
        forall|p: Psr, n: bool, z: bool| #[trigger] p.with_nz(n, z).mode_bits() == p.mode_bits(),
        forall|p: Psr, b: bool| #[trigger] p.with_flag(29, b).mode_bits() == p.mode_bits(),
{
    assert forall|p: Psr, n: bool, z: bool, c: bool, o: bool|
        #[trigger] p.with_nzcv(n, z, c, o).mode_bits() == p.mode_bits() by {
        lemma_flags_keep_mode_bits(p.0, n, z, c, o);
    }
    assert forall|p: Psr, n: bool, z: bool| #[trigger] p.with_nz(n, z).mode_bits()
        == p.mode_bits() by {
        lemma_flags_keep_mode_bits(p.0, n, z, false, false);
    }
    assert forall|p: Psr, b: bool| #[trigger] p.with_flag(29, b).mode_bits() == p.mode_bits() by {
        lemma_flags_keep_mode_bits(p.0, false, false, b, false);
    }
}

proof fn lemma_flags_keep_mode_bits(v: u32, n: bool, z: bool, c: bool, o: bool)
    by (bit_vector)
    ensures
        (((v & 0x0FFF_FFFF) | (if n {
            0x8000_0000u32
        } else {
            0u32
        }) | (if z {
            0x4000_0000u32
        } else {
            0u32
        }) | (if c {
            0x2000_0000u32
        } else {
            0u32
        }) | (if o {
            0x1000_0000u32
        } else {
            0u32
        })) & 0x1F) == v & 0x1F,
        (((v & 0x3FFF_FFFF) | (if n {
            0x8000_0000u32
        } else {
            0u32
        }) | (if z {
            0x4000_0000u32
        } else {
            0u32
        })) & 0x1F) == v & 0x1F,
        ((if c {
            v | (1u32 << 29u32)
        } else {
            v & !(1u32 << 29u32)
        }) & 0x1F) == v & 0x1F,
{
}

impl Arm7tdmi {
    /// `new` is `self` after an ALU instruction with S wrote R15: the SPSR
    /// becomes the CPSR, and when its mode bits name a mode the banked
    /// registers are swapped for that mode first.
    pub open spec fn spsr_restored(self, new: Self) -> bool {
        let bits = self.spsr.mode_bits();
        if is_mode_code(bits) {
            exists|sw: Self|
                #[trigger] self.mode_swapped(sw, mode_of(bits)) && new == (Arm7tdmi {
                    cpsr: self.spsr,
                    ..sw
                })
        } else {
            new == (Arm7tdmi { cpsr: self.spsr, ..self })
        }
    }

    /// The steps of a data processing instruction: `mid` has the ALU result
    /// and flags, `after` the CPSR restored from the SPSR when S writes R15,
    /// and `new` an empty pipeline when R15 was written.
    pub open spec fn data_processing_steps(
        self,
        mid: Self,
        after: Self,
        new: Self,
        op_code: ArmModeOpcode,
        alu: ArmModeAluInstr,
        s: bool,
        op_kind: OperandKind,
        rn: u32,
        rd: u32,
    ) -> bool {
        let raw = op_code.raw;
        let offset: u32 = if rn == 15 {
            pc_offset(op_kind, flag(raw, 4))
        } else {
            0
        };
        let op1 = (self.reg(rn as int) + offset) as u32;
        let (op2, cpsr1) = self.operand_spec(alu, s, op_kind, field(raw, 0, 11));
        let (regs2, cpsr2) = alu_spec(self.registers.0@, cpsr1, alu, rd as int, op1, op2, s);
        &&& mid.registers.0@ == regs2
        &&& mid.cpsr == cpsr2
        &&& self.keeps_others(mid)
        &&& if s && rd == 15 {
            mid.spsr_restored(after)
        } else {
            after == mid
        }
        &&& new == if !is_test_instr(alu) && rd == 15 {
            Arm7tdmi { fetched_arm: None, decoded_arm: None, ..after }
        } else {
            after
        }
    }

    /// Executes a data processing (ALU) instruction: `rd` takes the result
    /// of `alu_instruction` on Rn and the second operand (for R15 as Rn, the
    /// pipeline offset is added), the flags follow with S, an S write to R15
    /// restores the CPSR from the SPSR, and a write to R15 empties the
    /// pipeline.
    pub fn data_processing(
        &mut self,
        op_code: ArmModeOpcode,
        alu_instruction: ArmModeAluInstr,
        set_conditions: bool,
        op_kind: OperandKind,
        rn: u32,
        destination: u32,
    )
        requires
            rn < 16,
            destination < 16,
            rn == 15 ==> old(self).reg(15) + pc_offset(op_kind, flag(op_code.raw, 4)) <= u32::MAX,
            old(self).operand_fits(op_kind, field(op_code.raw, 0, 11)),
            set_conditions && destination == 15 ==> is_mode_code(old(self).cpsr.mode_bits())
                && mode_of(old(self).cpsr.mode_bits()) != Mode::User,
        ensures
            exists|mid: Self, after: Self|
                #[trigger] old(self).data_processing_steps(
                    mid,
                    after,
                    *final(self),
                    op_code,
                    alu_instruction,
                    set_conditions,
                    op_kind,
                    rn,
                    destination,
                ),
            final(self).bus == old(self).bus,
    {
        proof {
            lemma_field_masks();
            lemma_field_le(op_code.raw, 0, 11);
            lemma_field_le(op_code.raw, 4, 4);
            lemma_flag_writes_keep_mode();
        }
        let offset = if rn == REG_PC {
            // R15 as Rn reads ahead because of the pipeline.
            Self::get_pc_offset_alu(op_kind, op_code.raw.get_bit(4))
        } else {
            0
        };
        let op1 = self.registers.register_at(register_index(rn)) + offset;

        let op2 = self.get_operand(
            alu_instruction,
            set_conditions,
            op_kind,
            op_code.raw.get_bits(0..=11),
        );

        let rd = register_index(destination);
        match alu_instruction {
            ArmModeAluInstr::And => self.and(rd, op1, op2, set_conditions),
            ArmModeAluInstr::Eor => self.eor(rd, op1, op2, set_conditions),
            ArmModeAluInstr::Sub => self.sub(rd, op1, op2, set_conditions),
            ArmModeAluInstr::Rsb => self.rsb(rd, op1, op2, set_conditions),
            ArmModeAluInstr::Add => self.add(rd, op1, op2, set_conditions),
            ArmModeAluInstr::Adc => self.adc(rd, op1, op2, set_conditions),
            ArmModeAluInstr::Sbc => self.sbc(rd, op1, op2, set_conditions),
            ArmModeAluInstr::Rsc => self.rsc(rd, op1, op2, set_conditions),
            ArmModeAluInstr::Tst => self.tst(op1, op2),
            ArmModeAluInstr::Teq => self.teq(op1, op2),
            ArmModeAluInstr::Cmp => self.cmp(op1, op2),
            ArmModeAluInstr::Cmn => self.cmn(op1, op2),
            ArmModeAluInstr::Orr => self.orr(rd, op1, op2, set_conditions),
            ArmModeAluInstr::Mov => self.mov(rd, op2, set_conditions),
            ArmModeAluInstr::Bic => self.bic(rd, op1, op2, set_conditions),
            ArmModeAluInstr::Mvn => self.mvn(rd, op2, set_conditions),
        }
        let ghost mid = *self;

        if set_conditions && destination == REG_PC {
            // The SPSR becomes the CPSR. It is kept aside first, because
            // swapping the banked registers replaces it. When its mode bits
            // name no mode (the BIOS may have written zero there), the banked
            // registers stay as they are.
            let current_spsr = self.spsr;
            let spsr_value: u32 = u32::from(current_spsr);
            match Mode::try_from(spsr_value & 0b11111) {
                Ok(spsr_mode) => {
                    proof {
                        crate::cpu::arm7tdmi::lemma_mode_of_code(spsr_mode);
                    }
                    self.swap_mode(spsr_mode);
                    let ghost sw = *self;
                    self.cpsr = current_spsr;
                    assert(mid.mode_swapped(sw, mode_of(mid.spsr.mode_bits())));
                },
                Err(_) => {
                    proof {
                        if is_mode_code(spsr_value & 0b11111) {
                            lemma_mode_code_of(spsr_value & 0b11111);
                        }
                    }
                    self.cpsr = current_spsr;
                },
            }
        }
        let ghost after = *self;

        // Test instructions write no register, so they leave the pipeline
        // even with R15 as destination.
        let is_test = match alu_instruction {
            ArmModeAluInstr::Teq | ArmModeAluInstr::Cmn | ArmModeAluInstr::Cmp
            | ArmModeAluInstr::Tst => true,
            _ => false,
        };
        if !is_test && destination == REG_PC {
            self.flush_pipeline();
        }
        assert(old(self).data_processing_steps(
            mid,
            after,
            *self,
            op_code,
            alu_instruction,
            set_conditions,
            op_kind,
            rn,
            destination,
        ));
    }
}

/// A 64-bit value read as a two's complement number.
pub open spec fn signed64(v: int) -> int {
    if v >= 0x8000_0000_0000_0000 {
        v - 0x1_0000_0000_0000_0000
    } else {
        v
    }
}

/// The 64-bit value held in a pair of registers.
pub open spec fn pair_value(hi: u32, lo: u32) -> int {
    hi * 0x1_0000_0000 + lo
}

/// The registers and CPSR after a 64-bit multiply whose 64-bit result is
/// `result`: the low word goes to `rdlo`, then the high word to `rdhi`; with
/// S, N is bit 63 and Z whether the whole result is zero.
pub open spec fn long_result_spec(
    regs: Seq<u32>,
    cpsr: Psr,
    s: bool,
    rdhi: int,
    rdlo: int,
    result: int,
) -> (Seq<u32>, Psr) {
    (
        regs.update(rdlo, (result % 0x1_0000_0000) as u32).update(
            rdhi,
            (result / 0x1_0000_0000) as u32,
        ),
        if s {
            cpsr.with_nz(result >= 0x8000_0000_0000_0000, result == 0)
        } else {
            cpsr
        },
    )
}

/// The halves of a 64-bit word and the word made of two halves.
proof fn lemma_halves(v: u64, hi: u32, lo: u32)
    by (bit_vector)
    ensures
        (v & 0xFFFF_FFFF) as u32 == v % 0x1_0000_0000,
        (v >> 32u64) as u32 == v / 0x1_0000_0000,
        ((hi as u64) << 32u64) | (lo as u64) == hi * 0x1_0000_0000 + lo,
        (((v >> 63u64) & 1) == 1) == (v >= 0x8000_0000_0000_0000),
{
}


impl Arm7tdmi {
    /// `new` is `self` after MUL or MLA: `rd` takes `rm * rs` (plus `rn` for
    /// MLA) modulo 2^32, and with `s` the flags N and Z follow it.
    pub open spec fn multiplied(
        self,
        new: Self,
        mul_variant: ArmModeMultiplyVariant,
        set_condition_codes: bool,
        rd: u32,
        rn: u32,
        rs: u32,
        rm: u32,
    ) -> bool {
        let acc = mul_variant == ArmModeMultiplyVariant::Mla;
        let result = ((self.reg(rm as int) * self.reg(rs as int) + if acc {
            self.reg(rn as int) as int
        } else {
            0
        }) % 0x1_0000_0000) as u32;
        &&& new.registers.0@ == self.registers.0@.update(rd as int, result)
        &&& new.cpsr == logic_flags(self.cpsr, set_condition_codes, result)
        &&& self.keeps_others(new)
    }

    /// `new` is `self` after UMULL, UMLAL, SMULL or SMLAL: the 64-bit product
    /// (plus the pair `rdhi:rdlo` for the accumulating forms), unsigned or
    /// signed, modulo 2^64, split over `rdhi` and `rdlo`.
    pub open spec fn multiplied_long(
        self,
        new: Self,
        mul_variant: ArmModeMultiplyLongVariant,
        set_condition_codes: bool,
        rdhi: u32,
        rdlo: u32,
        rs: u32,
        rm: u32,
    ) -> bool {
        let a = self.reg(rm as int);
        let b = self.reg(rs as int);
        let acc = pair_value(self.reg(rdhi as int), self.reg(rdlo as int));
        let result = match mul_variant {
            ArmModeMultiplyLongVariant::Umull => (a * b) % 0x1_0000_0000_0000_0000,
            ArmModeMultiplyLongVariant::Umlal => (a * b + acc) % 0x1_0000_0000_0000_0000,
            ArmModeMultiplyLongVariant::Smull => (signed32(a) * signed32(b)) % 0x1_0000_0000_0000_0000,
            ArmModeMultiplyLongVariant::Smlal => (signed32(a) * signed32(b) + signed64(acc))
                % 0x1_0000_0000_0000_0000,
        };
        &&& (new.registers.0@, new.cpsr) == long_result_spec(
            self.registers.0@,
            self.cpsr,
            set_condition_codes,
            rdhi as int,
            rdlo as int,
            result,
        )
        &&& self.keeps_others(new)
    }

    /// `new` is `self` after B or BL: the program counter moves by the
    /// sign-extended offset (modulo 2^32), BL saves the address of the next
    /// instruction in the link register, and the pipeline is emptied.
    pub open spec fn branched(self, new: Self, is_link: bool, offset: u32) -> bool {
        let pc = self.reg(15);
        let regs = if is_link {
            self.registers.0@.update(14, ((pc - 4) % 0x1_0000_0000) as u32)
        } else {
            self.registers.0@
        };
        &&& new.registers.0@ == regs.update(15, ((pc + branch_offset(offset)) % 0x1_0000_0000) as u32)
        &&& new == (Arm7tdmi {
            registers: new.registers,
            fetched_arm: None,
            decoded_arm: None,
            ..self
        })
    }

    /// `new` is `self` after BX: bit 0 of the register selects Thumb (T set,
    /// halfword-aligned target) or ARM (word-aligned target), and the
    /// pipeline is emptied.
    pub open spec fn exchanged(self, new: Self, register: int) -> bool {
        let rn = self.reg(register);
        let thumb = rn % 2 == 1;
        &&& new.registers.0@ == self.registers.0@.update(
            15,
            if thumb {
                (rn - rn % 2) as u32
            } else {
                (rn - rn % 4) as u32
            },
        )
        &&& new.cpsr == self.cpsr.with_flag(5, thumb)
        &&& new == (Arm7tdmi {
            registers: new.registers,
            cpsr: new.cpsr,
            fetched_arm: None,
            decoded_arm: None,
            ..self
        })
    }
}

impl Arm7tdmi {
    /// MUL and MLA: `rd` takes `rm * rs` (plus `rn` for MLA), modulo 2^32.
    pub fn multiply(
        &mut self,
        mul_variant: ArmModeMultiplyVariant,
        set_condition_codes: bool,
        rd: u32,
        rn: u32,
        rs: u32,
        rm: u32,
    )
        requires
            rd < 16,
            rn < 16,
            rs < 16,
            rm < 16,
        ensures
            old(self).multiplied(*final(self), mul_variant, set_condition_codes, rd, rn, rs, rm),
    {
        match mul_variant {
            // Multiply: the low 32 bits of the product.
            ArmModeMultiplyVariant::Mul => {
                self.mul_or_mla(set_condition_codes, false, rd, rn, rs, rm);
            },
            // Multiply-accumulate: the low 32 bits of the product plus Rn.
            ArmModeMultiplyVariant::Mla => {
                self.mul_or_mla(set_condition_codes, true, rd, rn, rs, rm);
            },
        }
    }

    /// UMULL, UMLAL, SMULL and SMLAL: the 64-bit product of `rm` and `rs`,
    /// unsigned or signed, plus the 64-bit value in `rdhi:rdlo` for the
    /// accumulating forms, modulo 2^64, into `rdhi:rdlo`.
    pub fn multiply_long(
        &mut self,
        mul_variant: ArmModeMultiplyLongVariant,
        set_condition_codes: bool,
        rdhi: u32,
        rdlo: u32,
        rs: u32,
        rm: u32,
    )
        requires
            rdhi < 16,
            rdlo < 16,
            rs < 16,
            rm < 16,
        ensures
            old(self).multiplied_long(*final(self), mul_variant, set_condition_codes, rdhi, rdlo, rs, rm),
    {
        match mul_variant {
            ArmModeMultiplyLongVariant::Umull => {
                self.umull_or_umlal(set_condition_codes, false, rdhi, rdlo, rs, rm);
            },
            ArmModeMultiplyLongVariant::Umlal => {
                self.umull_or_umlal(set_condition_codes, true, rdhi, rdlo, rs, rm);
            },
            ArmModeMultiplyLongVariant::Smull => {
                self.smull_or_smlal(set_condition_codes, false, rdhi, rdlo, rs, rm);
            },
            ArmModeMultiplyLongVariant::Smlal => {
                self.smull_or_smlal(set_condition_codes, true, rdhi, rdlo, rs, rm);
            },
        }
    }

    /// MUL or MLA: `rd` takes `rm * rs`, plus `rn` when accumulating, modulo
    /// 2^32.
    pub fn mul_or_mla(
        &mut self,
        set_condition_codes: bool,
        does_accumulate: bool,
        rd: u32,
        rn: u32,
        rs: u32,
        rm: u32,
    )
        requires
            rd < 16,
            rn < 16,
            rs < 16,
            rm < 16,
        ensures
            ({
                let result = ((old(self).reg(rm as int) * old(self).reg(rs as int) + if does_accumulate {
                    old(self).reg(rn as int) as int
                } else {
                    0
                }) % 0x1_0000_0000) as u32;
                &&& final(self).registers.0@ == old(self).registers.0@.update(rd as int, result)
                &&& final(self).cpsr == logic_flags(old(self).cpsr, set_condition_codes, result)
            }),
            old(self).keeps_others(*final(self)),
    {
        let rm_operand_value = self.registers.register_at(register_index(rm));
        let rs_operand_value = self.registers.register_at(register_index(rs));

        let mut result = rm_operand_value.wrapping_mul(rs_operand_value);
        if does_accumulate {
            let rn_register_value = self.registers.register_at(register_index(rn));
            proof {
                assert((((rm_operand_value * rs_operand_value) % 0x1_0000_0000) + rn_register_value)
                    % 0x1_0000_0000 == (rm_operand_value * rs_operand_value + rn_register_value)
                    % 0x1_0000_0000) by (nonlinear_arith);
            }
            result = result.wrapping_add(rn_register_value);
        }

        self.registers.set_register_at(register_index(rd), result);

        if set_condition_codes {
            self.set_nz(result);
        }
    }

    /// UMULL or UMLAL: the unsigned 64-bit product of `rm` and `rs`, plus
    /// `rdhi:rdlo` when accumulating, modulo 2^64, into `rdhi:rdlo`.
    pub fn umull_or_umlal(
        &mut self,
        set_condition_codes: bool,
        does_accumulate: bool,
        rdhi: u32,
        rdlo: u32,
        rs: u32,
        rm: u32,
    )
        requires
            rdhi < 16,
            rdlo < 16,
            rs < 16,
            rm < 16,
        ensures
            ({
                let a = old(self).reg(rm as int);
                let b = old(self).reg(rs as int);
                let acc = pair_value(old(self).reg(rdhi as int), old(self).reg(rdlo as int));
                let result = (a * b + if does_accumulate {
                    acc
                } else {
                    0
                }) % 0x1_0000_0000_0000_0000;
                (final(self).registers.0@, final(self).cpsr) == long_result_spec(
                    old(self).registers.0@,
                    old(self).cpsr,
                    set_condition_codes,
                    rdhi as int,
                    rdlo as int,
                    result,
                )
            }),
            old(self).keeps_others(*final(self)),
    {
        let rm_operand_value = self.registers.register_at(register_index(rm)) as u64;
        let rs_operand_value = self.registers.register_at(register_index(rs)) as u64;
        proof {
            assert(rm_operand_value * rs_operand_value <= 0xFFFF_FFFE_0000_0001) by (nonlinear_arith)
                requires
                    rm_operand_value <= 0xFFFF_FFFF,
                    rs_operand_value <= 0xFFFF_FFFF,
            ;
        }

        let mut result = rm_operand_value * rs_operand_value;
        if does_accumulate {
            let rdhi_register_value = self.registers.register_at(register_index(rdhi));
            let rdlo_register_value = self.registers.register_at(register_index(rdlo));
            let rdhilo_register_value = (rdhi_register_value as u64) << 32u64
                | rdlo_register_value as u64;
            proof {
                lemma_halves(0, rdhi_register_value, rdlo_register_value);
            }
            result = result.wrapping_add(rdhilo_register_value);
        }
        proof {
            lemma_halves(result, 0, 0);
        }

        self.registers.set_register_at(register_index(rdlo), (result & 0xFFFF_FFFF) as u32);
        self.registers.set_register_at(register_index(rdhi), (result >> 32u64) as u32);

        if set_condition_codes {
            proof {
                lemma_set_flags(self.cpsr.0, result >= 0x8000_0000_0000_0000, result == 0, false, false);
            }
            self.cpsr.set_zero_flag(result == 0);
            self.cpsr.set_sign_flag((result >> 63u64) & 1 == 1);
        }
    }

    /// SMULL or SMLAL: the signed 64-bit product of `rm` and `rs`, plus the
    /// signed `rdhi:rdlo` when accumulating, modulo 2^64, into `rdhi:rdlo`.
    pub fn smull_or_smlal(
        &mut self,
        set_condition_codes: bool,
        does_accumulate: bool,
        rdhi: u32,
        rdlo: u32,
        rs: u32,
        rm: u32,
    )
        requires
            rdhi < 16,
            rdlo < 16,
            rs < 16,
            rm < 16,
        ensures
            ({
                let a = old(self).reg(rm as int);
                let b = old(self).reg(rs as int);
                let acc = pair_value(old(self).reg(rdhi as int), old(self).reg(rdlo as int));
                let result = (signed32(a) * signed32(b) + if does_accumulate {
                    signed64(acc)
                } else {
                    0
                }) % 0x1_0000_0000_0000_0000;
                (final(self).registers.0@, final(self).cpsr) == long_result_spec(
                    old(self).registers.0@,
                    old(self).cpsr,
                    set_condition_codes,
                    rdhi as int,
                    rdlo as int,
                    result,
                )
            }),
            old(self).keeps_others(*final(self)),
    {
        let rm_operand_value = self.registers.register_at(register_index(rm));
        let rs_operand_value = self.registers.register_at(register_index(rs));
        // The operands as signed numbers.
        let rm_operand_value_sgn: i128 = if rm_operand_value >= 0x8000_0000 {
            rm_operand_value as i128 - 0x1_0000_0000
        } else {
            rm_operand_value as i128
        };
        let rs_operand_value_sgn: i128 = if rs_operand_value >= 0x8000_0000 {
            rs_operand_value as i128 - 0x1_0000_0000
        } else {
            rs_operand_value as i128
        };
        proof {
            assert(-0x4000_0000_0000_0000 <= rm_operand_value_sgn * rs_operand_value_sgn
                <= 0x4000_0000_0000_0000) by (nonlinear_arith)
                requires
                    -0x8000_0000 <= rm_operand_value_sgn <= 0x7FFF_FFFF,
                    -0x8000_0000 <= rs_operand_value_sgn <= 0x7FFF_FFFF,
            ;
        }

        let mut result_sgn: i128 = rm_operand_value_sgn * rs_operand_value_sgn;
        if does_accumulate {
            let rdhi_register_value = self.registers.register_at(register_index(rdhi));
            let rdlo_register_value = self.registers.register_at(register_index(rdlo));
            let rdhilo_register_value = (rdhi_register_value as u64) << 32u64
                | rdlo_register_value as u64;
            proof {
                lemma_halves(0, rdhi_register_value, rdlo_register_value);
            }
            // The accumulator as a signed number.
            let rdhilo_register_value_sgn: i128 = if rdhilo_register_value >= 0x8000_0000_0000_0000 {
                rdhilo_register_value as i128 - 0x1_0000_0000_0000_0000
            } else {
                rdhilo_register_value as i128
            };
            result_sgn = result_sgn + rdhilo_register_value_sgn;
        }

        // The sum modulo 2^64.
        let result: u64 = if result_sgn < 0 {
            (result_sgn + 0x1_0000_0000_0000_0000) as u64
        } else if result_sgn >= 0x1_0000_0000_0000_0000 {
            (result_sgn - 0x1_0000_0000_0000_0000) as u64
        } else {
            result_sgn as u64
        };
        proof {
            lemma_halves(result, 0, 0);
        }

        self.registers.set_register_at(register_index(rdlo), (result & 0xFFFF_FFFF) as u32);
        self.registers.set_register_at(register_index(rdhi), (result >> 32u64) as u32);

        if set_condition_codes {
            proof {
                lemma_set_flags(self.cpsr.0, result >= 0x8000_0000_0000_0000, result == 0, false, false);
            }
            self.cpsr.set_zero_flag(result == 0);
            self.cpsr.set_sign_flag((result >> 63u64) & 1 == 1);
        }
    }
}

/// The byte offset of a branch: its 26-bit field read as a two's complement
/// number.
pub open spec fn branch_offset(offset: u32) -> int {
    signed32(sign_extend(offset as u128, 26, 32) as u32)
}

/// A sign-extended value fits in the width it is extended to.
proof fn lemma_sign_extend_fits(v: u128)
    by (bit_vector)
    ensures
        (((v ^ (1u128 << 25u128)) - (1u128 << 25u128)) as u128) & (((1u128 << 32u128) - 1) as u128)
            <= 0xFFFF_FFFF,
{
}

impl Arm7tdmi {
    /// B and BL: the program counter moves by the signed offset; BL first
    /// puts the address of the next instruction in the link register. The
    /// pipeline empties.
    pub fn branch(&mut self, is_link: bool, offset: u32)
        requires
            i32::MIN <= signed32(old(self).reg(15)) + branch_offset(offset) <= i32::MAX,
        ensures
            old(self).branched(*final(self), is_link, offset),
    {
        proof {
            lemma_sign_extend_fits(offset as u128);
        }
        let offset = offset.sign_extended(26);
        let old_pc = self.registers.register_at(15);

        if is_link {
            self.registers.set_register_at(14, old_pc.wrapping_sub(SIZE_OF_INSTRUCTION));
        }

        let new_pc = old_pc.wrapping_add(offset);
        self.registers.set_program_counter(new_pc);

        self.flush_pipeline();
    }

    /// BX: the program counter takes `register`, whose bit 0 selects Thumb
    /// (bit 0 cleared) or ARM (bits 0 and 1 cleared). The pipeline empties.
    pub fn branch_and_exchange(&mut self, register: usize)
        requires
            register < 16,
        ensures
            old(self).exchanged(*final(self), register as int),
    {
        let mut rn = self.registers.register_at(register);
        let state = CpuState::from(rn.get_bit(0));
        proof {
            lemma_low_bits(rn);
        }

        self.cpsr.set_cpu_state(state);
        proof {
            crate::cpu::psr::lemma_flag_written(old(self).cpsr.0, 5, 5, rn % 2 == 1);
        }

        // Clear the bits below the instruction size of the new state.
        match self.cpsr.cpu_state() {
            CpuState::Thumb => rn.set_bit_off(0),
            CpuState::Arm => {
                rn.set_bit_off(0);
                rn.set_bit_off(1);
            },
        }

        self.registers.set_program_counter(rn);
        self.flush_pipeline();
    }
}

/// Clearing bit 0, or bits 0 and 1, rounds down to an even address or a
/// multiple of four.
proof fn lemma_low_bits(v: u32)
    by (bit_vector)
    ensures
        ((v as u128) >> 0u128) & 1 == 1 <==> v % 2 == 1,
        ((v as u128) & !(1u128 << 0u128)) == (v - v % 2) as u128,
        (((v as u128) & !(1u128 << 0u128)) & !(1u128 << 1u128)) == (v - v % 4) as u128,
{
}

/// A base address moved by an offset, up or down, modulo 2^32.
pub open spec fn offset_applied(address: u32, amount: u32, offsetting: Offsetting) -> u32 {
    match offsetting {
        Offsetting::Down => vstd::wrapping::u32_specs::wrapping_sub(address, amount),
        Offsetting::Up => vstd::wrapping::u32_specs::wrapping_add(address, amount),
    }
}

impl Arm7tdmi {
    /// The offset of a single data transfer: an immediate, or a register
    /// shifted by an immediate amount.
    pub open spec fn transfer_amount(self, info: SingleDataTransferOffsetInfo) -> u32 {
        match info {
            SingleDataTransferOffsetInfo::Immediate { offset } => offset,
            SingleDataTransferOffsetInfo::RegisterImmediate { shift_amount, shift_kind, reg_offset } => {
                shift_spec(shift_kind, shift_amount, self.reg(reg_offset as int), self.cpsr.flag(29)).0
            },
        }
    }

    /// The value that a store of register `rd` writes: R15 reads 12 bytes
    /// past the instruction, 4 more than the pipeline's 8.
    pub open spec fn stored_value(self, rd: int) -> u32 {
        if rd == 15 {
            (self.reg(15) + 4) as u32
        } else {
            self.reg(rd)
        }
    }

    /// `new` is `self` after LDR/STR/LDRB/STRB: the address is the base
    /// register moved by the offset before the transfer (pre-indexing) or
    /// after it (post-indexing, which always writes the base back); the base
    /// register is written back before the load, and a store writes the value
    /// Rd had before the write back. A load into R15 empties the pipeline.
    pub open spec fn single_data_transferred(
        self,
        new: Self,
        kind: SingleDataTransferKind,
        quantity: ReadWriteKind,
        write_back: bool,
        indexing: Indexing,
        rd: u32,
        base_register: u32,
        offset_info: SingleDataTransferOffsetInfo,
        offsetting: Offsetting,
    ) -> bool {
        let base = self.reg(base_register as int);
        let moved = offset_applied(base, self.transfer_amount(offset_info), offsetting);
        let address = (if indexing == Indexing::Post {
            base
        } else {
            moved
        }) as usize;
        let regs1 = if indexing == Indexing::Post || write_back {
            self.registers.0@.update(base_register as int, moved)
        } else {
            self.registers.0@
        };
        let stored = self.stored_value(rd as int);
        &&& new.cpsr == self.cpsr
        &&& new.spsr == self.spsr
        &&& new.register_bank == self.register_bank
        &&& new.current_cycle == self.current_cycle
        &&& if kind == SingleDataTransferKind::Ldr {
            let value = if quantity == ReadWriteKind::Byte {
                self.bus.byte_at(bus_address(address)) as u32
            } else {
                self.loaded_word(address)
            };
            &&& new.registers.0@ == regs1.update(rd as int, value)
            &&& new.bus == self.bus_after_read(address)
        } else {
            &&& new.registers.0@ == regs1
            &&& if quantity == ReadWriteKind::Byte {
                self.bus.byte_written(new.bus, address, stored as u8)
            } else {
                self.bus.word_stored(
                    new.bus,
                    word_aligned(address),
                    byte_of(stored as u128, 0),
                    byte_of(stored as u128, 1),
                    byte_of(stored as u128, 2),
                    byte_of(stored as u128, 3),
                )
            }
            &&& new.bus.wf()
            &&& new.bus.cycles() == self.bus.cycles() + 1
            &&& new.bus.last_address() == address
        }
        &&& if kind == SingleDataTransferKind::Ldr && rd == 15 {
            new.fetched_arm is None && new.decoded_arm is None
        } else {
            new.fetched_arm == self.fetched_arm && new.decoded_arm == self.decoded_arm
        }
    }

    /// Executes LDR, STR, LDRB or STRB.
    #[verifier::rlimit(40)]
    pub fn single_data_transfer(
        &mut self,
        kind: SingleDataTransferKind,
        quantity: ReadWriteKind,
        write_back: bool,
        indexing: Indexing,
        rd: u32,
        base_register: u32,
        offset_info: SingleDataTransferOffsetInfo,
        offsetting: Offsetting,
    )
        requires
            rd < 16,
            base_register < 16,
            offset_info matches SingleDataTransferOffsetInfo::RegisterImmediate { reg_offset, .. }
                ==> reg_offset < 16,
            kind != SingleDataTransferKind::Pld,
            kind == SingleDataTransferKind::Str && rd == 15 ==> old(self).reg(15) <= u32::MAX - 4,
            old(self).bus.wf(),
            old(self).bus.cycles() < u128::MAX,
        ensures
            old(self).single_data_transferred(
                *final(self),
                kind,
                quantity,
                write_back,
                indexing,
                rd,
                base_register,
                offset_info,
                offsetting,
            ),
    {
        let address = self.registers.register_at(register_index(base_register));

        let amount = match offset_info {
            SingleDataTransferOffsetInfo::Immediate { offset } => offset,
            SingleDataTransferOffsetInfo::RegisterImmediate { shift_amount, shift_kind, reg_offset } => {
                let v = self.registers.register_at(register_index(reg_offset));
                let r = shift(shift_kind, shift_amount, v, self.cpsr.carry_flag());
                r.result
            },
        };

        let offset_address = match offsetting {
            Offsetting::Down => address.wrapping_sub(amount),
            Offsetting::Up => address.wrapping_add(amount),
        };

        // A store writes the value Rd has before the base is written back.
        let str_value_before_writeback = if kind == SingleDataTransferKind::Str {
            let mut v = self.registers.register_at(register_index(rd));
            // R15 reads 12 bytes past the instruction (the pipeline gives 8).
            if rd == REG_PC {
                v = v + 4;
            }
            v
        } else {
            0
        };

        let address = match indexing {
            Indexing::Post => {
                // Post-indexing always writes the base back.
                self.registers.set_register_at(register_index(base_register), offset_address);
                address_index(address)
            },
            Indexing::Pre => {
                if write_back {
                    self.registers.set_register_at(register_index(base_register), offset_address);
                }
                address_index(offset_address)
            },
        };

        match kind {
            SingleDataTransferKind::Str => {
                let v = str_value_before_writeback;
                match quantity {
                    ReadWriteKind::Byte => {
                        self.bus.write_byte(address, (v & 0xFF) as u8);
                        proof {
                            assert((v & 0xFF) as u8 == v as u8) by (bit_vector);
                        }
                    },
                    ReadWriteKind::Word => {
                        self.bus.write_word(address, v);
                    },
                }
            },
            _ => match quantity {
                ReadWriteKind::Byte => {
                    let value = self.bus.read_byte(address) as u32;
                    self.registers.set_register_at(register_index(rd), value);
                },
                ReadWriteKind::Word => {
                    let v = self.read_word(address);
                    self.registers.set_register_at(register_index(rd), v);
                },
            },
        }

        // A load into R15 empties the pipeline.
        if kind == SingleDataTransferKind::Ldr && rd == REG_PC {
            self.flush_pipeline();
        }
    }
}

/// An address register's value as a bus address.
pub fn address_index(a: u32) -> (i: usize)
    ensures
        i == a,
{
    a as usize
}

impl Arm7tdmi {
    /// `new` is `self` after LDRH/STRH/LDRSB/LDRSH: the address is the base
    /// moved by the offset (an immediate or a register) before or after the
    /// transfer, as for single data transfers. A store writes the low
    /// halfword of Rd (whatever the SH bits, since the doubleword forms are
    /// undefined on this core); a load reads an unsigned halfword, a signed
    /// byte or a signed halfword. A load into R15 empties the pipeline.
    pub open spec fn half_word_transferred(
        self,
        new: Self,
        indexing: Indexing,
        offsetting: Offsetting,
        write_back: bool,
        load_store_kind: LoadStoreKind,
        offset_kind: HalfwordDataTransferOffsetKind,
        base_register: u32,
        rd: u32,
        transfer_kind: HalfwordTransferKind,
    ) -> bool {
        let amount = match offset_kind {
            HalfwordDataTransferOffsetKind::Immediate { offset } => offset,
            HalfwordDataTransferOffsetKind::Register { register } => self.reg(register as int),
        };
        let base = self.reg(base_register as int);
        let moved = offset_applied(base, amount, offsetting);
        let address = (if indexing == Indexing::Post {
            base
        } else {
            moved
        }) as usize;
        let regs1 = if indexing == Indexing::Post || write_back {
            self.registers.0@.update(base_register as int, moved)
        } else {
            self.registers.0@
        };
        let stored = self.stored_value(rd as int);
        &&& new.cpsr == self.cpsr
        &&& new.spsr == self.spsr
        &&& new.register_bank == self.register_bank
        &&& new.current_cycle == self.current_cycle
        &&& if load_store_kind == LoadStoreKind::Load {
            let value = match transfer_kind {
                HalfwordTransferKind::UnsignedHalfwords => self.loaded_half_word(address, false),
                HalfwordTransferKind::SignedByte => sign_extend(
                    self.bus.byte_at(bus_address(address)) as u128,
                    8,
                    32,
                ) as u32,
                HalfwordTransferKind::SignedHalfwords => self.loaded_half_word(address, true),
            };
            &&& new.registers.0@ == regs1.update(rd as int, value)
            &&& new.bus == self.bus_after_read(address)
        } else {
            &&& new.registers.0@ == regs1
            &&& self.bus.half_word_stored(
                new.bus,
                half_word_aligned(address),
                byte_of(stored as u128, 0),
                byte_of(stored as u128, 1),
            )
            &&& new.bus.wf()
            &&& new.bus.cycles() == self.bus.cycles() + 1
            &&& new.bus.last_address() == address
        }
        &&& if load_store_kind == LoadStoreKind::Load && rd == 15 {
            new.fetched_arm is None && new.decoded_arm is None
        } else {
            new.fetched_arm == self.fetched_arm && new.decoded_arm == self.decoded_arm
        }
    }

    /// Executes a halfword or signed data transfer.
    #[verifier::rlimit(40)]
    pub fn half_word_data_transfer(
        &mut self,
        indexing: Indexing,
        offsetting: Offsetting,
        write_back: bool,
        load_store_kind: LoadStoreKind,
        offset_kind: HalfwordDataTransferOffsetKind,
        base_register: u32,
        source_destination_register: u32,
        transfer_kind: HalfwordTransferKind,
    )
        requires
            base_register < 16,
            source_destination_register < 16,
            offset_kind matches HalfwordDataTransferOffsetKind::Register { register }
                ==> register < 16,
            base_register == 15 ==> !write_back && indexing != Indexing::Post,
            load_store_kind == LoadStoreKind::Store && source_destination_register == 15
                ==> old(self).reg(15) <= u32::MAX - 4,
            old(self).bus.wf(),
            old(self).bus.cycles() < u128::MAX,
        ensures
            old(self).half_word_transferred(
                *final(self),
                indexing,
                offsetting,
                write_back,
                load_store_kind,
                offset_kind,
                base_register,
                source_destination_register,
                transfer_kind,
            ),
    {
        proof {
            crate::bus::lemma_sign_extend_byte_fits();
        }
        let offset = match offset_kind {
            HalfwordDataTransferOffsetKind::Immediate { offset } => offset,
            HalfwordDataTransferOffsetKind::Register { register } => {
                self.registers.register_at(register_index(register))
            },
        };

        let address = self.registers.register_at(register_index(base_register));

        let effective = match offsetting {
            Offsetting::Down => address.wrapping_sub(offset),
            Offsetting::Up => address.wrapping_add(offset),
        };

        // A store writes the value Rd has before the base is written back;
        // R15 reads 12 bytes past the instruction.
        let store_value_before_writeback = if load_store_kind == LoadStoreKind::Store {
            if source_destination_register == REG_PC {
                self.registers.register_at(15) + 4
            } else {
                self.registers.register_at(register_index(source_destination_register))
            }
        } else {
            0
        };

        // The base is written back before the load, so that a load into the
        // base register keeps the loaded value.
        let address: usize = match indexing {
            Indexing::Post => {
                self.registers.set_register_at(register_index(base_register), effective);
                address_index(address)
            },
            Indexing::Pre => {
                if write_back {
                    self.registers.set_register_at(register_index(base_register), effective);
                }
                address_index(effective)
            },
        };

        match load_store_kind {
            LoadStoreKind::Store => {
                // The doubleword forms (SH = 10 and 11 with L = 0) are
                // undefined on this core; they store a halfword too.
                let value = store_value_before_writeback;
                self.bus.write_half_word(address, (value & 0xFFFF) as u16);
                proof {
                    lemma_low_half_bytes(value);
                }
            },
            LoadStoreKind::Load => match transfer_kind {
                HalfwordTransferKind::UnsignedHalfwords => {
                    let v = self.read_half_word(address, false);
                    self.registers.set_register_at(register_index(source_destination_register), v);
                },
                HalfwordTransferKind::SignedByte => {
                    let v = self.bus.read_byte(address) as u32;
                    self.registers.set_register_at(
                        register_index(source_destination_register),
                        v.sign_extended(8),
                    );
                },
                HalfwordTransferKind::SignedHalfwords => {
                    let v = self.read_half_word(address, true);
                    self.registers.set_register_at(register_index(source_destination_register), v);
                },
            },
        }

        if load_store_kind == LoadStoreKind::Load && source_destination_register == REG_PC {
            self.flush_pipeline();
        }
    }
}

/// The low halfword of a word has the word's two low bytes.
proof fn lemma_low_half_bytes(v: u32)
    ensures
        byte_of(((v & 0xFFFF) as u16) as u128, 0) == byte_of(v as u128, 0),
        byte_of(((v & 0xFFFF) as u16) as u128, 1) == byte_of(v as u128, 1),
{
    lemma_low_half_bytes_bv(v);
}

proof fn lemma_low_half_bytes_bv(v: u32)
    by (bit_vector)
    ensures
        (((((v & 0xFFFF) as u16) as u128) >> 0u128) & crate::bitwise::low_mask(8)) == (((
        v as u128) >> 0u128) & crate::bitwise::low_mask(8)),
        (((((v & 0xFFFF) as u16) as u128) >> 8u128) & crate::bitwise::low_mask(8)) == (((
        v as u128) >> 8u128) & crate::bitwise::low_mask(8)),
{
}

/// The carry of a sum is the unsigned carry out and its overflow is the
/// signed overflow: the result is the sum modulo 2^32, and when no overflow
/// is flagged it is also the signed sum.
pub proof fn lemma_add_flags(a: u32, b: u32)
    ensures
        add_result(a, b).result == (a + b) % 0x1_0000_0000,
        add_result(a, b).carry == (a + b > u32::MAX),
        add_result(a, b).overflow == !(i32::MIN <= signed32(a) + signed32(b) <= i32::MAX),
        !add_result(a, b).overflow ==> signed32(add_result(a, b).result) == signed32(a)
            + signed32(b),
{
}

/// The carry of a difference is "no borrow" and its overflow is the signed
/// overflow: the result is the difference modulo 2^32, and when no overflow
/// is flagged it is also the signed difference.
pub proof fn lemma_sub_flags(a: u32, b: u32)
    ensures
        sub_result(a, b).result == (a - b) % 0x1_0000_0000,
        sub_result(a, b).carry == (a >= b),
        sub_result(a, b).overflow == !(i32::MIN <= signed32(a) - signed32(b) <= i32::MAX),
        !sub_result(a, b).overflow ==> signed32(sub_result(a, b).result) == signed32(a)
            - signed32(b),
{
}

/// Add with carry sums the operands and the carry modulo 2^32, and carries
/// exactly when that sum does not fit in a word.
pub proof fn lemma_adc_sum(a: u32, b: u32, carry: bool)
    ensures
        adc_result(a, b, carry).result == (a + b + (if carry {
            1int
        } else {
            0
        })) % 0x1_0000_0000,
        adc_result(a, b, carry).carry == (a + b + (if carry {
            1int
        } else {
            0
        }) > u32::MAX),
{
}

/// After a compare of `a` with `b`, each condition code answers the
/// comparison it names: EQ and NE equality, CS, CC, HI and LS the unsigned
/// order, GE, LT, GT and LE the signed order.
pub proof fn lemma_compare_conditions(a: u32, b: u32)
    ensures
        ({
            let r = sub_result(a, b);
            let holds = |c: Condition| condition_holds(c, r.sign, r.zero, r.carry, r.overflow);
            &&& holds(Condition::EQ) == (a == b)
            &&& holds(Condition::NE) == (a != b)
            &&& holds(Condition::CS) == (a >= b)
            &&& holds(Condition::CC) == (a < b)
            &&& holds(Condition::HI) == (a > b)
            &&& holds(Condition::LS) == (a <= b)
            &&& holds(Condition::GE) == (signed32(a) >= signed32(b))
            &&& holds(Condition::LT) == (signed32(a) < signed32(b))
            &&& holds(Condition::GT) == (signed32(a) > signed32(b))
            &&& holds(Condition::LE) == (signed32(a) <= signed32(b))
        }),
{
}

/// Setting Z, then N, then C equals replacing N, Z and C at once.
proof fn lemma_carry_then_nz(v: u32, n: bool, z: bool, c: bool)
    ensures
        Psr(v).with_flag(30, z).with_flag(31, n).with_flag(29, c) == Psr(v).with_nzcv(
            n,
            z,
            c,
            Psr(v).flag(28),
        ),
{
    lemma_carry_then_nz_bv(v, n, z, c);
}

proof fn lemma_carry_then_nz_bv(v: u32, n: bool, z: bool, c: bool)
    by (bit_vector)
    ensures
        ({
            let a = if z {
                v | (1u32 << 30u32)
            } else {
                v & !(1u32 << 30u32)
            };
            let b = if n {
                a | (1u32 << 31u32)
            } else {
                a & !(1u32 << 31u32)
            };
            if c {
                b | (1u32 << 29u32)
            } else {
                b & !(1u32 << 29u32)
            }
        }) == (v & 0x0FFF_FFFF) | (if n {
            0x8000_0000u32
        } else {
            0u32
        }) | (if z {
            0x4000_0000u32
        } else {
            0u32
        }) | (if c {
            0x2000_0000u32
        } else {
            0u32
        }) | (if (v >> 28u32) & 1 == 1 {
            0x1000_0000u32
        } else {
            0u32
        }),
{
}


/// Whether a mathematical integer fits in a signed 32-bit word.
pub open spec fn fits_i32(x: int) -> bool {
    -0x8000_0000 <= x < 0x8000_0000
}

/// ADD and SUB compute modulo 2^32: the sum is `a + b` wrapped, with the
/// carry set exactly when the unsigned sum passes 2^32 - 1 and the overflow
/// exactly when the signed sum leaves the signed range; the difference
/// plus `b` gives back `a`, with the carry set exactly when nothing is
/// borrowed (`a >= b`) and the overflow exactly when the signed difference
/// leaves the signed range.
pub proof fn lemma_add_sub_laws(a: u32, b: u32)
    ensures
        add_result(a, b).result as int == (a + b) % 0x1_0000_0000,
        add_result(a, b).carry == (a + b >= 0x1_0000_0000),
        add_result(a, b).overflow == !fits_i32(signed32(a) + signed32(b)),
        add_result(a, b).zero == (add_result(a, b).result == 0),
        (sub_result(a, b).result + b) % 0x1_0000_0000 == a as int,
        sub_result(a, b).carry == (a >= b),
        sub_result(a, b).overflow == !fits_i32(signed32(a) - signed32(b)),
        sub_result(a, b).zero == (a == b),
{
}

/// ADC adds the carry flag as a third operand: the result is
/// `a + b + C` modulo 2^32 and the carry is set exactly when that sum passes
/// 2^32 - 1; with the carry clear ADC is ADD.
pub proof fn lemma_adc_law(a: u32, b: u32, c: bool)
    ensures
        adc_result(a, b, c).result as int == (a + b + (if c {
            1int
        } else {
            0int
        })) % 0x1_0000_0000,
        adc_result(a, b, c).carry == (a + b + (if c {
            1int
        } else {
            0int
        }) >= 0x1_0000_0000),
        !c ==> adc_result(a, b, c) == add_result(a, b),
{
}

/// SBC subtracts the operand and, only when the carry flag is clear, one
/// more (the borrow NOT(C)): the result plus the operand plus the borrow
/// gives back `a` modulo 2^32; the carry is set exactly when nothing is
/// borrowed (`a >= b + NOT(C)`); the overflow exactly when the signed
/// `a - b - NOT(C)` leaves the signed range. With the carry set SBC is SUB,
/// and SBC of `b` is ADC of the ones' complement of `b`, in result and carry.
pub proof fn lemma_sbc_law(a: u32, b: u32, c: bool)
    ensures
        ({
            let borrow: int = if c {
                0
            } else {
                1
            };
            &&& (sbc_result(a, b, c).result + b + borrow) % 0x1_0000_0000 == a as int
            &&& sbc_result(a, b, c).result as int == (a - b - borrow) % 0x1_0000_0000
            &&& sbc_result(a, b, c).carry == (a >= b + borrow)
            &&& sbc_result(a, b, c).overflow == !fits_i32(signed32(a) - signed32(b) - borrow)
        }),
        c ==> sbc_result(a, b, c) == sub_result(a, b),
        sbc_result(a, b, c).result == adc_result(a, (0xFFFF_FFFF - b) as u32, c).result,
        sbc_result(a, b, c).carry == adc_result(a, (0xFFFF_FFFF - b) as u32, c).carry,
{
}

} // verus!
