//! The Current Program Status Register: condition flags, interrupt disable
//! bits, the state bit and the mode bits.
use crate::arm::condition::{Condition, ModeBits};
use crate::arm::data_processing::ArithmeticOpResult;
use crate::bitwise::{bit_at, with_bit, Bits};
use vstd::prelude::*;

verus! {

/// Whether an instruction with condition `cond` runs, given the sign (N),
/// zero (Z), carry (C) and overflow (V) flags.
pub open spec fn condition_passes(cond: Condition, n: bool, z: bool, c: bool, v: bool) -> bool {
    match cond {
        Condition::EQ => z,
        Condition::NE => !z,
        Condition::CS => c,
        Condition::CC => !c,
        Condition::MI => n,
        Condition::PL => !n,
        Condition::VS => v,
        Condition::VC => !v,
        Condition::HI => c && !z,
        Condition::LS => !c || z,
        Condition::GE => n == v,
        Condition::LT => n != v,
        Condition::GT => !z && (n == v),
        Condition::LE => z || (n != v),
        Condition::AL => true,
        Condition::NV => false,
    }
}

/// Current Program Status Register.
pub struct Cpsr(pub u32);

impl Default for Cpsr {
    fn default() -> (r: Self)
        ensures
            r.0 == 0,
    {
        Cpsr(0)
    }
}

impl Cpsr {
    /// Bit `i` of the register.
    pub open spec fn flag(self, i: u128) -> bool {
        bit_at(self.0 as u128, i)
    }

    /// The register after setting bit `i` to `value`.
    pub open spec fn with_flag(self, i: u128, value: bool) -> u32 {
        with_bit(self.0 as u128, i, value) as u32
    }

    /// Whether an instruction with condition `cond` runs under the current flags.
    pub fn can_execute(&self, cond: Condition) -> (r: bool)
        ensures
            r == condition_passes(cond, self.flag(31), self.flag(30), self.flag(29), self.flag(28)),
    {
        match cond {
            Condition::EQ => self.zero_flag(),  // Equal (Z=1)
            Condition::NE => !self.zero_flag(),  // Not equal (Z=0)
            Condition::CS => self.carry_flag(),  // Unsigned higher or same (C=1)
            Condition::CC => !self.carry_flag(),  // Unsigned lower (C=0)
            Condition::MI => self.sign_flag(),  // Negative (N=1)
            Condition::PL => !self.sign_flag(),  // Positive or zero (N=0)
            Condition::VS => self.overflow_flag(),  // Overflow (V=1)
            Condition::VC => !self.overflow_flag(),  // No overflow (V=0)
            Condition::HI => self.carry_flag() && !self.zero_flag(),  // Unsigned higher (C=1 and Z=0)
            Condition::LS => !self.carry_flag() || self.zero_flag(),  // Unsigned lower or same (C=0 or Z=1)
            Condition::GE => self.sign_flag() == self.overflow_flag(),  // Greater or equal (N=V)
            Condition::LT => self.sign_flag() != self.overflow_flag(),  // Less than (N<>V)
            Condition::GT => !self.zero_flag() && (self.sign_flag() == self.overflow_flag()),  // Greater than (Z=0 and N=V)
            Condition::LE => self.zero_flag() || (self.sign_flag() != self.overflow_flag()),  // Less or equal (Z=1 or N<>V)
            Condition::AL => true,  // Always (the "AL" suffix can be omitted)
            Condition::NV => false,  // Never (ARMv1, v2 only) (Reserved ARMv3 and up)
        }
    }

    /// N => Bit 31, (0=Not Signed, 1=Signed)
    pub fn sign_flag(&self) -> (r: bool)
        ensures
            r == self.flag(31),
    {
        self.0.get_bit(31)
    }

    /// Z => Bit 30, (0=Not Zero, 1=Zero)
    pub fn zero_flag(&self) -> (r: bool)
        ensures
            r == self.flag(30),
    {
        self.0.get_bit(30)
    }

    /// C => Bit 29, (0=Borrow/No Carry, 1=Carry/No Borrow)
    pub fn carry_flag(&self) -> (r: bool)
        ensures
            r == self.flag(29),
    {
        self.0.get_bit(29)
    }

    /// V => Bit 28, (0=No Overflow, 1=Overflow)
    pub fn overflow_flag(&self) -> (r: bool)
        ensures
            r == self.flag(28),
    {
        self.0.get_bit(28)
    }

    /// Q => Bit 27, (1=Sticky Overflow, ARMv5TE and up only)
    pub fn sticky_overflow(&self) -> (r: bool)
        ensures
            r == self.flag(27),
    {
        self.0.get_bit(27)
    }

    /// Reserved => Bits 26-8, (For future use) - Do not change manually!
    /// These bits are reserved for possible future implementations: the user
    /// should never change them nor expect them to hold a given value.
    pub fn reserved_bits(&self) -> (r: bool)
        ensures
            r,
    {
        true
    }

    /// I => Bit 7, (0=Enable, 1=Disable)
    pub fn irq_disable(&self) -> (r: bool)
        ensures
            r == self.flag(7),
    {
        self.0.get_bit(7)
    }

    /// F => Bit 6, (0=Enable, 1=Disable)
    pub fn fiq_disable(&self) -> (r: bool)
        ensures
            r == self.flag(6),
    {
        self.0.get_bit(6)
    }

    /// T => Bit 5, (0=ARM, 1=THUMB) - Do not change manually!
    pub fn state_bit(&self) -> (r: bool)
        ensures
            r == self.flag(5),
    {
        self.0.get_bit(5)
    }

    /// M4-M0 => Bits 4-0: whether the register is zero or any bit of one of
    /// the mode bit patterns is set.
    pub fn mode_bits(&self) -> (r: bool)
        ensures
            r == (self.0 == 0 || self.0 & 0b0_0001 != 0 || self.0 & 0b0_0010 != 0 || self.0
                & 0b0_0011 != 0 || self.0 & 0b1_0000 != 0 || self.0 & 0b1_0001 != 0 || self.0
                & 0b1_0010 != 0 || self.0 & 0b1_0011 != 0 || self.0 & 0b1_0111 != 0 || self.0
                & 0b1_1011 != 0 || self.0 & 0b1_1111 != 0),
    {
        self.0 == 0 || self.0 & 0b0000_0000_0000_0000_0000_0000_0000_0001 != 0 || self.0
            & 0b0000_0000_0000_0000_0000_0000_0000_0010 != 0 || self.0
            & 0b0000_0000_0000_0000_0000_0000_0000_0011 != 0 || self.0
            & 0b0000_0000_0000_0000_0000_0000_0001_0000 != 0 || self.0
            & 0b0000_0000_0000_0000_0000_0000_0001_0001 != 0 || self.0
            & 0b0000_0000_0000_0000_0000_0000_0001_0010 != 0 || self.0
            & 0b0000_0000_0000_0000_0000_0000_0001_0011 != 0 || self.0
            & 0b0000_0000_0000_0000_0000_0000_0001_0111 != 0 || self.0
            & 0b0000_0000_0000_0000_0000_0000_0001_1011 != 0 || self.0
            & 0b0000_0000_0000_0000_0000_0000_0001_1111 != 0
    }

    pub fn set_sign_flag(&mut self, value: bool)
        ensures
            final(self).0 == old(self).with_flag(31, value),
    {
        self.0.set_bit(31, value);
    }

    pub fn set_zero_flag(&mut self, value: bool)
        ensures
            final(self).0 == old(self).with_flag(30, value),
    {
        self.0.set_bit(30, value);
    }

    pub fn set_carry_flag(&mut self, value: bool)
        ensures
            final(self).0 == old(self).with_flag(29, value),
    {
        self.0.set_bit(29, value);
    }

    /// Copies the carry, zero, sign and overflow flags of an operation result.
    pub fn set_flags(&mut self, op_result: ArithmeticOpResult)
        ensures
            final(self).flag(29) == op_result.carry,
            final(self).flag(30) == op_result.zero,
            final(self).flag(31) == op_result.sign,
            final(self).flag(28) == op_result.overflow,
            forall|j: u128| j < 28 ==> final(self).flag(j) == old(self).flag(j),
    {
        self.set_carry_flag(op_result.carry);
        self.set_zero_flag(op_result.zero);
        self.set_sign_flag(op_result.sign);
        self.set_overflow_flag(op_result.overflow);
        proof {
            assert forall|j: u128| j < 32 implies #[trigger] self.flag(j) == (if j == 29 {
                op_result.carry
            } else if j == 30 {
                op_result.zero
            } else if j == 31 {
                op_result.sign
            } else if j == 28 {
                op_result.overflow
            } else {
                old(self).flag(j)
            }) by {
                lemma_flag_write_reads(old(self).0, 29, j, op_result.carry);
                let a = old(self).with_flag(29, op_result.carry);
                lemma_flag_write_reads(a, 30, j, op_result.zero);
                let b = Cpsr(a).with_flag(30, op_result.zero);
                lemma_flag_write_reads(b, 31, j, op_result.sign);
                let c = Cpsr(b).with_flag(31, op_result.sign);
                lemma_flag_write_reads(c, 28, j, op_result.overflow);
            }
        }
    }

    pub fn set_overflow_flag(&mut self, value: bool)
        ensures
            final(self).0 == old(self).with_flag(28, value),
    {
        self.0.set_bit(28, value);
    }

    /// Used by QADD, QSUB, QDADD, QDSUB, SMLAxy, and SMLAWy only.
    /// The Q-flag can be tested/reset by MSR/MRS opcodes only.
    /// These opcodes set the Q-flag in case of overflows, but leave it unchanged otherwise.
    pub fn set_sticky_overflow(&mut self, value: bool)
        ensures
            final(self).0 == old(self).with_flag(27, value),
    {
        self.0.set_bit(27, value);
    }

    /// The interrupt bit I is used to disable/enable IRQ interrupts respectively (1 means disabled and 0 means enabled).
    pub fn set_irq_disable(&mut self, value: bool)
        ensures
            final(self).0 == old(self).with_flag(7, value),
    {
        self.0.set_bit(7, value);
    }

    /// The interrupt bit F is used to disable/enable FIQ interrupts respectively (1 means disabled and 0 means enabled).
    pub fn set_fiq_disable(&mut self, value: bool)
        ensures
            final(self).0 == old(self).with_flag(6, value),
    {
        self.0.set_bit(6, value);
    }

    /// The T Bit is used to set the current state of the CPU on ARM/THUMB mode.
    pub fn set_state_bit(&mut self, value: bool)
        ensures
            final(self).0 == old(self).with_flag(5, value),
    {
        self.0.set_bit(5, value);
    }

    /// The Mode Bits M4-M0 contain the current operating mode: bits 4-0 are
    /// replaced by the pattern of `control_bits`, bits 31-5 are kept.
    pub fn set_mode_bits(&mut self, control_bits: ModeBits)
        ensures
            final(self).0 == (old(self).0 & !0x1Fu32) | (control_bits.code() as u32),
    {
        let pattern: u32 = match control_bits {
            ModeBits::OldUser => 0b0_0000,
            ModeBits::OldFiq => 0b0_0001,
            ModeBits::OldIrq => 0b0_0010,
            ModeBits::OldSupervisor => 0b0_0011,
            ModeBits::User => 0b1_0000,
            ModeBits::Fiq => 0b1_0001,
            ModeBits::Irq => 0b1_0010,
            ModeBits::Supervisor => 0b1_0011,
            ModeBits::Abort => 0b1_0111,
            ModeBits::Undefined => 0b1_1011,
            ModeBits::System => 0b1_1111,
        };
        self.0 = (self.0 & !0x1Fu32) | pattern;
    }
}

/// Writing flag `i` of a register makes flag `i` read the written value and
/// leaves every other flag of the register as it was.
pub proof fn lemma_flag_write_reads(v: u32, i: u128, j: u128, value: bool)
    requires
        i < 32,
        j < 32,
    ensures
        Cpsr(Cpsr(v).with_flag(i, value)).flag(j) == if i == j {
            value
        } else {
            Cpsr(v).flag(j)
        },
{
    lemma_with_bit_fits_u32(v, i, value);
    crate::bitwise::lemma_with_bit_reads(v as u128, i, j, value);
}

/// Writing a bit below 32 of a 32-bit value gives a 32-bit value.
proof fn lemma_with_bit_fits_u32(v: u32, i: u128, value: bool)
    requires
        i < 32,
    ensures
        with_bit(v as u128, i, value) <= u32::MAX,
{
    lemma_or_fits(v, i);
    lemma_andnot_fits(v, i);
}

proof fn lemma_or_fits(v: u32, i: u128)
    by (bit_vector)
    requires
        i < 32,
    ensures
        ((v as u128) | (1u128 << i)) <= 0xFFFF_FFFFu128,
{
}

proof fn lemma_andnot_fits(v: u32, i: u128)
    by (bit_vector)
    requires
        i < 32,
    ensures
        ((v as u128) & !(1u128 << i)) <= 0xFFFF_FFFFu128,
{
}


/// Each condition reads the flags as the ARM architecture defines it, with
/// N the bit 31, Z the bit 30, C the bit 29 and V the bit 28 of the
/// register: EQ runs when Z is set, CS when C is set, MI when N is set, VS
/// when V is set, HI when C is set and Z clear, GE when N equals V, GT when
/// Z is clear and N equals V, AL always and NV never; NE, CC, PL, VC, LS,
/// LT and LE run exactly when their opposite does not.
pub proof fn lemma_conditions_read_the_flags(p: Cpsr)
    ensures
        ({
            let n = ((p.0 as u128) >> 31u128) & 1 == 1;
            let z = ((p.0 as u128) >> 30u128) & 1 == 1;
            let c = ((p.0 as u128) >> 29u128) & 1 == 1;
            let v = ((p.0 as u128) >> 28u128) & 1 == 1;
            &&& condition_passes(Condition::EQ, p.flag(31), p.flag(30), p.flag(29), p.flag(28)) == (z)
            &&& condition_passes(Condition::NE, p.flag(31), p.flag(30), p.flag(29), p.flag(28)) == (!z)
            &&& condition_passes(Condition::CS, p.flag(31), p.flag(30), p.flag(29), p.flag(28)) == (c)
            &&& condition_passes(Condition::CC, p.flag(31), p.flag(30), p.flag(29), p.flag(28)) == (!c)
            &&& condition_passes(Condition::MI, p.flag(31), p.flag(30), p.flag(29), p.flag(28)) == (n)
            &&& condition_passes(Condition::PL, p.flag(31), p.flag(30), p.flag(29), p.flag(28)) == (!n)
            &&& condition_passes(Condition::VS, p.flag(31), p.flag(30), p.flag(29), p.flag(28)) == (v)
            &&& condition_passes(Condition::VC, p.flag(31), p.flag(30), p.flag(29), p.flag(28)) == (!v)
            &&& condition_passes(Condition::HI, p.flag(31), p.flag(30), p.flag(29), p.flag(28)) == (c && !z)
            &&& condition_passes(Condition::LS, p.flag(31), p.flag(30), p.flag(29), p.flag(28)) == (!c || z)
            &&& condition_passes(Condition::GE, p.flag(31), p.flag(30), p.flag(29), p.flag(28)) == (n == v)
            &&& condition_passes(Condition::LT, p.flag(31), p.flag(30), p.flag(29), p.flag(28)) == (n != v)
            &&& condition_passes(Condition::GT, p.flag(31), p.flag(30), p.flag(29), p.flag(28)) == (!z && n == v)
            &&& condition_passes(Condition::LE, p.flag(31), p.flag(30), p.flag(29), p.flag(28)) == (z || n != v)
            &&& condition_passes(Condition::AL, p.flag(31), p.flag(30), p.flag(29), p.flag(28))
            &&& !condition_passes(Condition::NV, p.flag(31), p.flag(30), p.flag(29), p.flag(28))
            &&& condition_passes(Condition::NE, p.flag(31), p.flag(30), p.flag(29), p.flag(28)) == !condition_passes(Condition::EQ, p.flag(31), p.flag(30), p.flag(29), p.flag(28))
            &&& condition_passes(Condition::CC, p.flag(31), p.flag(30), p.flag(29), p.flag(28)) == !condition_passes(Condition::CS, p.flag(31), p.flag(30), p.flag(29), p.flag(28))
            &&& condition_passes(Condition::PL, p.flag(31), p.flag(30), p.flag(29), p.flag(28)) == !condition_passes(Condition::MI, p.flag(31), p.flag(30), p.flag(29), p.flag(28))
            &&& condition_passes(Condition::VC, p.flag(31), p.flag(30), p.flag(29), p.flag(28)) == !condition_passes(Condition::VS, p.flag(31), p.flag(30), p.flag(29), p.flag(28))
            &&& condition_passes(Condition::LS, p.flag(31), p.flag(30), p.flag(29), p.flag(28)) == !condition_passes(Condition::HI, p.flag(31), p.flag(30), p.flag(29), p.flag(28))
            &&& condition_passes(Condition::LT, p.flag(31), p.flag(30), p.flag(29), p.flag(28)) == !condition_passes(Condition::GE, p.flag(31), p.flag(30), p.flag(29), p.flag(28))
            &&& condition_passes(Condition::LE, p.flag(31), p.flag(30), p.flag(29), p.flag(28)) == !condition_passes(Condition::GT, p.flag(31), p.flag(30), p.flag(29), p.flag(28))
        }),
{
}

} // verus!
