//! Program status registers: the condition flags N, Z, C and V (bits 31 to
//! 28), the interrupt disable bits I and F (bits 7 and 6), the state bit T
//! (bit 5) and the mode bits M4-M0 (bits 4 to 0).
use crate::cpu::arm::alu_instruction::{bit32, ArithmeticOpResult};
use crate::cpu::condition::Condition;
use crate::cpu::cpu_modes::{is_mode_code, Mode};
use vstd::prelude::*;

verus! {

/// Which instruction set the processor runs.
#[derive(Debug, PartialEq, Eq, Structural, Clone, Copy)]
pub enum CpuState {
    /// 32-bit ARM instructions.
    Arm,
    /// 16-bit Thumb instructions.
    Thumb,
}

impl From<bool> for CpuState {
    /// A set T bit means Thumb.
    fn from(thumb: bool) -> (r: Self) {
        if thumb {
            CpuState::Thumb
        } else {
            CpuState::Arm
        }
    }
}

impl vstd::std_specs::convert::FromSpecImpl<bool> for CpuState {
    open spec fn obeys_from_spec() -> bool {
        true
    }

    open spec fn from_spec(thumb: bool) -> CpuState {
        if thumb {
            CpuState::Thumb
        } else {
            CpuState::Arm
        }
    }
}

/// `v` with bit `i` set to `b`.
pub open spec fn set_bit32(v: u32, i: u32, b: bool) -> u32 {
    if b {
        v | (1u32 << i)
    } else {
        v & !(1u32 << i)
    }
}

/// Whether the flags N, Z, C and V let an instruction with condition `cond`
/// run.
pub open spec fn condition_holds(cond: Condition, n: bool, z: bool, c: bool, v: bool) -> bool {
    match cond {
        Condition::EQ => z,
        Condition::NE => !z,
        Condition::CS => c,
        Condition::CC => !c,
        Condition::MI => n,
        Condition::PL => !n,
        Condition::VS => v,
        Condition::VC => !v,
        Condition::HI => c && !z,
        Condition::LS => !c || z,
        Condition::GE => n == v,
        Condition::LT => n != v,
        Condition::GT => !z && n == v,
        Condition::LE => z || n != v,
        Condition::AL => true,
        Condition::NV => false,
    }
}

/// A program status register.
#[derive(Clone, Copy, Debug, PartialEq, Eq, Structural)]
pub struct Psr(pub u32);

/// Setting bits of a register one at a time gives the register with those
/// bits replaced, in whatever order they are set.
pub proof fn lemma_set_flags(v: u32, n: bool, z: bool, c: bool, o: bool)
    ensures
        set_bit32(set_bit32(set_bit32(set_bit32(v, 29, c), 30, z), 31, n), 28, o) == Psr(
            v,
        ).with_nzcv(n, z, c, o).0,
        set_bit32(set_bit32(v, 30, z), 31, n) == Psr(v).with_nz(n, z).0,
        set_bit32(set_bit32(v, 31, n), 30, z) == Psr(v).with_nz(n, z).0,
{
    lemma_set_flags_bv(v, n, z, c, o);
}

proof fn lemma_set_flags_bv(v: u32, n: bool, z: bool, c: bool, o: bool)
    by (bit_vector)
    ensures
        (if o {
            (if n {
                (if z {
                    (if c {
                        v | (1u32 << 29u32)
                    } else {
                        v & !(1u32 << 29u32)
                    }) | (1u32 << 30u32)
                } else {
                    (if c {
                        v | (1u32 << 29u32)
                    } else {
                        v & !(1u32 << 29u32)
                    }) & !(1u32 << 30u32)
                }) | (1u32 << 31u32)
            } else {
                (if z {
                    (if c {
                        v | (1u32 << 29u32)
                    } else {
                        v & !(1u32 << 29u32)
                    }) | (1u32 << 30u32)
                } else {
                    (if c {
                        v | (1u32 << 29u32)
                    } else {
                        v & !(1u32 << 29u32)
                    }) & !(1u32 << 30u32)
                }) & !(1u32 << 31u32)
            }) | (1u32 << 28u32)
        } else {
            (if n {
                (if z {
                    (if c {
                        v | (1u32 << 29u32)
                    } else {
                        v & !(1u32 << 29u32)
                    }) | (1u32 << 30u32)
                } else {
                    (if c {
                        v | (1u32 << 29u32)
                    } else {
                        v & !(1u32 << 29u32)
                    }) & !(1u32 << 30u32)
                }) | (1u32 << 31u32)
            } else {
                (if z {
                    (if c {
                        v | (1u32 << 29u32)
                    } else {
                        v & !(1u32 << 29u32)
                    }) | (1u32 << 30u32)
                } else {
                    (if c {
                        v | (1u32 << 29u32)
                    } else {
                        v & !(1u32 << 29u32)
                    }) & !(1u32 << 30u32)
                }) & !(1u32 << 31u32)
            }) & !(1u32 << 28u32)
        }) == (v & 0x0FFF_FFFF) | (if n {
            0x8000_0000u32
        } else {
            0u32
        }) | (if z {
            0x4000_0000u32
        } else {
            0u32
        }) | (if c {
            0x2000_0000u32
        } else {
            0u32
        }) | (if o {
            0x1000_0000u32
        } else {
            0u32
        }),
        (if n {
            (if z {
                v | (1u32 << 30u32)
            } else {
                v & !(1u32 << 30u32)
            }) | (1u32 << 31u32)
        } else {
            (if z {
                v | (1u32 << 30u32)
            } else {
                v & !(1u32 << 30u32)
            }) & !(1u32 << 31u32)
        }) == (v & 0x3FFF_FFFF) | (if n {
            0x8000_0000u32
        } else {
            0u32
        }) | (if z {
            0x4000_0000u32
        } else {
            0u32
        }),
        (if z {
            (if n {
                v | (1u32 << 31u32)
            } else {
                v & !(1u32 << 31u32)
            }) | (1u32 << 30u32)
        } else {
            (if n {
                v | (1u32 << 31u32)
            } else {
                v & !(1u32 << 31u32)
            }) & !(1u32 << 30u32)
        }) == (v & 0x3FFF_FFFF) | (if n {
            0x8000_0000u32
        } else {
            0u32
        }) | (if z {
            0x4000_0000u32
        } else {
            0u32
        }),
{
}

/// Bit `i` reads what was written to it, and every other bit is unchanged.
pub proof fn lemma_flag_written(v: u32, i: u32, j: u32, b: bool)
    requires
        i < 32,
        j < 32,
    ensures
        Psr(v).with_flag(i, b).flag(j) == if i == j {
            b
        } else {
            Psr(v).flag(j)
        },
{
    lemma_flag_written_bv(v, i, j, b);
}

proof fn lemma_flag_written_bv(v: u32, i: u32, j: u32, b: bool)
    by (bit_vector)
    requires
        i < 32,
        j < 32,
    ensures
        (((if b {
            v | (1u32 << i)
        } else {
            v & !(1u32 << i)
        }) >> j) & 1 == 1) == if i == j {
            b
        } else {
            (v >> j) & 1 == 1
        },
{
}

impl Psr {
    /// Bit `i` of the register.
    pub open spec fn flag(self, i: u32) -> bool {
        bit32(self.0, i)
    }

    /// The mode bits M4-M0.
    pub open spec fn mode_bits(self) -> u32 {
        self.0 & 0x1F
    }

    /// The register with the flags N, Z, C and V replaced.
    pub open spec fn with_nzcv(self, n: bool, z: bool, c: bool, v: bool) -> Psr {
        Psr(
            (self.0 & 0x0FFF_FFFF) | (if n {
                0x8000_0000u32
            } else {
                0u32
            }) | (if z {
                0x4000_0000u32
            } else {
                0u32
            }) | (if c {
                0x2000_0000u32
            } else {
                0u32
            }) | (if v {
                0x1000_0000u32
            } else {
                0u32
            }),
        )
    }

    /// The register with the flags N and Z replaced.
    pub open spec fn with_nz(self, n: bool, z: bool) -> Psr {
        Psr(
            (self.0 & 0x3FFF_FFFF) | (if n {
                0x8000_0000u32
            } else {
                0u32
            }) | (if z {
                0x4000_0000u32
            } else {
                0u32
            }),
        )
    }

    /// The register with bit `i` set to `b`.
    pub open spec fn with_flag(self, i: u32, b: bool) -> Psr {
        Psr(set_bit32(self.0, i, b))
    }

    /// The register with the mode bits replaced by the low five bits of `bits`.
    pub open spec fn with_mode_bits(self, bits: u32) -> Psr {
        Psr((self.0 & !0x1Fu32) | (bits & 0x1F))
    }

    /// Whether an instruction with condition `cond` runs under the flags.
    pub fn can_execute(&self, cond: Condition) -> (r: bool)
        ensures
            r == condition_holds(cond, self.flag(31), self.flag(30), self.flag(29), self.flag(28)),
    {
        let n = self.sign_flag();
        let z = self.zero_flag();
        let c = self.carry_flag();
        let v = self.overflow_flag();
        match cond {
            Condition::EQ => z,
            Condition::NE => !z,
            Condition::CS => c,
            Condition::CC => !c,
            Condition::MI => n,
            Condition::PL => !n,
            Condition::VS => v,
            Condition::VC => !v,
            Condition::HI => c && !z,
            Condition::LS => !c || z,
            Condition::GE => n == v,
            Condition::LT => n != v,
            Condition::GT => !z && n == v,
            Condition::LE => z || n != v,
            Condition::AL => true,
            Condition::NV => false,
        }
    }

    /// N => Bit 31 (0=Not Signed, 1=Signed).
    pub fn sign_flag(&self) -> (r: bool)
        ensures
            r == self.flag(31),
    {
        (self.0 >> 31u32) & 1 == 1
    }

    /// Z => Bit 30 (0=Not Zero, 1=Zero).
    pub fn zero_flag(&self) -> (r: bool)
        ensures
            r == self.flag(30),
    {
        (self.0 >> 30u32) & 1 == 1
    }

    /// C => Bit 29 (0=Borrow/No Carry, 1=Carry/No Borrow).
    pub fn carry_flag(&self) -> (r: bool)
        ensures
            r == self.flag(29),
    {
        (self.0 >> 29u32) & 1 == 1
    }

    /// V => Bit 28 (0=No Overflow, 1=Overflow).
    pub fn overflow_flag(&self) -> (r: bool)
        ensures
            r == self.flag(28),
    {
        (self.0 >> 28u32) & 1 == 1
    }

    /// I => Bit 7 (0=Enable, 1=Disable).
    pub fn irq_disable(&self) -> (r: bool)
        ensures
            r == self.flag(7),
    {
        (self.0 >> 7u32) & 1 == 1
    }

    /// F => Bit 6 (0=Enable, 1=Disable).
    pub fn fiq_disable(&self) -> (r: bool)
        ensures
            r == self.flag(6),
    {
        (self.0 >> 6u32) & 1 == 1
    }

    /// T => Bit 5 (0=ARM, 1=THUMB).
    pub fn state_bit(&self) -> (r: bool)
        ensures
            r == self.flag(5),
    {
        (self.0 >> 5u32) & 1 == 1
    }

    /// Sets bit `i` to `value`.
    fn set_flag(&mut self, i: u32, value: bool)
        requires
            i < 32,
        ensures
            *final(self) == old(self).with_flag(i, value),
    {
        if value {
            self.0 = self.0 | (1u32 << i);
        } else {
            self.0 = self.0 & !(1u32 << i);
        }
    }

    pub fn set_sign_flag(&mut self, value: bool)
        ensures
            *final(self) == old(self).with_flag(31, value),
    {
        self.set_flag(31, value);
    }

    pub fn set_zero_flag(&mut self, value: bool)
        ensures
            *final(self) == old(self).with_flag(30, value),
    {
        self.set_flag(30, value);
    }

    pub fn set_carry_flag(&mut self, value: bool)
        ensures
            *final(self) == old(self).with_flag(29, value),
    {
        self.set_flag(29, value);
    }

    pub fn set_overflow_flag(&mut self, value: bool)
        ensures
            *final(self) == old(self).with_flag(28, value),
    {
        self.set_flag(28, value);
    }

    /// Copies the carry, zero, sign and overflow of an operation result into
    /// the flags.
    pub fn set_flags(&mut self, op_result: &ArithmeticOpResult)
        ensures
            *final(self) == old(self).with_nzcv(
                op_result.sign,
                op_result.zero,
                op_result.carry,
                op_result.overflow,
            ),
    {
        proof {
            lemma_set_flags(self.0, op_result.sign, op_result.zero, op_result.carry, op_result.overflow);
        }
        self.set_carry_flag(op_result.carry);
        self.set_zero_flag(op_result.zero);
        self.set_sign_flag(op_result.sign);
        self.set_overflow_flag(op_result.overflow);
    }

    pub fn set_irq_disable(&mut self, value: bool)
        ensures
            *final(self) == old(self).with_flag(7, value),
    {
        self.set_flag(7, value);
    }

    pub fn set_fiq_disable(&mut self, value: bool)
        ensures
            *final(self) == old(self).with_flag(6, value),
    {
        self.set_flag(6, value);
    }

    pub fn set_state_bit(&mut self, value: bool)
        ensures
            *final(self) == old(self).with_flag(5, value),
    {
        self.set_flag(5, value);
    }

    /// The instruction set that the T bit selects.
    pub fn cpu_state(&self) -> (r: CpuState)
        ensures
            r == (if self.flag(5) {
                CpuState::Thumb
            } else {
                CpuState::Arm
            }),
    {
        if self.state_bit() {
            CpuState::Thumb
        } else {
            CpuState::Arm
        }
    }

    /// Sets the T bit for the instruction set `state`.
    pub fn set_cpu_state(&mut self, state: CpuState)
        ensures
            *final(self) == old(self).with_flag(5, state == CpuState::Thumb),
    {
        match state {
            CpuState::Thumb => self.set_state_bit(true),
            CpuState::Arm => self.set_state_bit(false),
        }
    }

    /// The operating mode that the mode bits select.
    pub fn mode(&self) -> (r: Mode)
        requires
            is_mode_code(self.mode_bits()),
        ensures
            r.code() == self.mode_bits(),
    {
        match self.0 & 0x1F {
            0b10000 => Mode::User,
            0b10001 => Mode::Fiq,
            0b10010 => Mode::Irq,
            0b10011 => Mode::Supervisor,
            0b10111 => Mode::Abort,
            0b11011 => Mode::Undefined,
            _ => Mode::System,
        }
    }

    /// Sets the mode bits to the code of `mode`.
    pub fn set_mode(&mut self, mode: Mode)
        ensures
            *final(self) == old(self).with_mode_bits(mode.code()),
    {
        let code = u32::from(mode);
        self.0 = (self.0 & !0x1Fu32) | (code & 0x1F);
    }

    /// Sets the mode bits to the low five bits of `bits`, whether or not they
    /// name a mode.
    pub fn set_mode_raw(&mut self, bits: u32)
        ensures
            *final(self) == old(self).with_mode_bits(bits),
    {
        self.0 = (self.0 & !0x1Fu32) | (bits & 0x1F);
    }
}

impl From<Mode> for Psr {
    /// A register holding only the mode bits of `mode`.
    fn from(mode: Mode) -> (r: Self) {
        Psr(u32::from(mode))
    }
}

impl vstd::std_specs::convert::FromSpecImpl<Mode> for Psr {
    open spec fn obeys_from_spec() -> bool {
        true
    }

    open spec fn from_spec(mode: Mode) -> Psr {
        Psr(mode.code())
    }
}

impl From<Psr> for u32 {
    fn from(psr: Psr) -> (r: Self) {
        psr.0
    }
}

impl vstd::std_specs::convert::FromSpecImpl<Psr> for u32 {
    open spec fn obeys_from_spec() -> bool {
        true
    }

    open spec fn from_spec(psr: Psr) -> u32 {
        psr.0
    }
}

impl From<u32> for Psr {
    fn from(value: u32) -> (r: Self) {
        Psr(value)
    }
}

impl vstd::std_specs::convert::FromSpecImpl<u32> for Psr {
    open spec fn obeys_from_spec() -> bool {
        true
    }

    open spec fn from_spec(value: u32) -> Psr {
        Psr(value)
    }
}


/// Writing a flag above the mode bits keeps the mode bits.
pub proof fn lemma_high_flag_keeps_mode(p: Psr, i: u32, b: bool)
    requires
        5 <= i < 32,
    ensures
        p.with_flag(i, b).mode_bits() == p.mode_bits(),
{
    lemma_high_bit_keeps_low_bits(p.0, i, b);
}

proof fn lemma_high_bit_keeps_low_bits(v: u32, i: u32, b: bool)
    by (bit_vector)
    requires
        5 <= i < 32,
    ensures
        (if b {
            v | (1u32 << i)
        } else {
            v & !(1u32 << i)
        }) & 0x1F == v & 0x1F,
{
}


/// Each condition reads the flags as the ARM architecture defines it, with
/// N the bit 31, Z the bit 30, C the bit 29 and V the bit 28 of the
/// register: EQ runs when Z is set, CS when C is set, MI when N is set, VS
/// when V is set, HI when C is set and Z clear, GE when N equals V, GT when
/// Z is clear and N equals V, AL always and NV never; NE, CC, PL, VC, LS,
/// LT and LE run exactly when their opposite does not.
pub proof fn lemma_conditions_read_the_flags(p: Psr)
    ensures
        ({
            let n = (p.0 >> 31u32) & 1 == 1;
            let z = (p.0 >> 30u32) & 1 == 1;
            let c = (p.0 >> 29u32) & 1 == 1;
            let v = (p.0 >> 28u32) & 1 == 1;
            &&& condition_holds(Condition::EQ, p.flag(31), p.flag(30), p.flag(29), p.flag(28)) == (z)
            &&& condition_holds(Condition::NE, p.flag(31), p.flag(30), p.flag(29), p.flag(28)) == (!z)
            &&& condition_holds(Condition::CS, p.flag(31), p.flag(30), p.flag(29), p.flag(28)) == (c)
            &&& condition_holds(Condition::CC, p.flag(31), p.flag(30), p.flag(29), p.flag(28)) == (!c)
            &&& condition_holds(Condition::MI, p.flag(31), p.flag(30), p.flag(29), p.flag(28)) == (n)
            &&& condition_holds(Condition::PL, p.flag(31), p.flag(30), p.flag(29), p.flag(28)) == (!n)
            &&& condition_holds(Condition::VS, p.flag(31), p.flag(30), p.flag(29), p.flag(28)) == (v)
            &&& condition_holds(Condition::VC, p.flag(31), p.flag(30), p.flag(29), p.flag(28)) == (!v)
            &&& condition_holds(Condition::HI, p.flag(31), p.flag(30), p.flag(29), p.flag(28)) == (c && !z)
            &&& condition_holds(Condition::LS, p.flag(31), p.flag(30), p.flag(29), p.flag(28)) == (!c || z)
            &&& condition_holds(Condition::GE, p.flag(31), p.flag(30), p.flag(29), p.flag(28)) == (n == v)
            &&& condition_holds(Condition::LT, p.flag(31), p.flag(30), p.flag(29), p.flag(28)) == (n != v)
            &&& condition_holds(Condition::GT, p.flag(31), p.flag(30), p.flag(29), p.flag(28)) == (!z && n == v)
            &&& condition_holds(Condition::LE, p.flag(31), p.flag(30), p.flag(29), p.flag(28)) == (z || n != v)
            &&& condition_holds(Condition::AL, p.flag(31), p.flag(30), p.flag(29), p.flag(28))
            &&& !condition_holds(Condition::NV, p.flag(31), p.flag(30), p.flag(29), p.flag(28))
            &&& condition_holds(Condition::NE, p.flag(31), p.flag(30), p.flag(29), p.flag(28)) == !condition_holds(Condition::EQ, p.flag(31), p.flag(30), p.flag(29), p.flag(28))
            &&& condition_holds(Condition::CC, p.flag(31), p.flag(30), p.flag(29), p.flag(28)) == !condition_holds(Condition::CS, p.flag(31), p.flag(30), p.flag(29), p.flag(28))
            &&& condition_holds(Condition::PL, p.flag(31), p.flag(30), p.flag(29), p.flag(28)) == !condition_holds(Condition::MI, p.flag(31), p.flag(30), p.flag(29), p.flag(28))
            &&& condition_holds(Condition::VC, p.flag(31), p.flag(30), p.flag(29), p.flag(28)) == !condition_holds(Condition::VS, p.flag(31), p.flag(30), p.flag(29), p.flag(28))
            &&& condition_holds(Condition::LS, p.flag(31), p.flag(30), p.flag(29), p.flag(28)) == !condition_holds(Condition::HI, p.flag(31), p.flag(30), p.flag(29), p.flag(28))
            &&& condition_holds(Condition::LT, p.flag(31), p.flag(30), p.flag(29), p.flag(28)) == !condition_holds(Condition::GE, p.flag(31), p.flag(30), p.flag(29), p.flag(28))
            &&& condition_holds(Condition::LE, p.flag(31), p.flag(30), p.flag(29), p.flag(28)) == !condition_holds(Condition::GT, p.flag(31), p.flag(30), p.flag(29), p.flag(28))
        }),
{
}

} // verus!
