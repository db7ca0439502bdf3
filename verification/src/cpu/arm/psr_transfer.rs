//! PSR transfers: MRS reads the CPSR or SPSR into a register, MSR writes a
//! register or a rotated immediate into some of its fields.
use crate::cpu::arm::alu_instruction::{rotate_right, rotr, AluSecondOperandInfo, PsrKind, PsrOpKind};
use crate::cpu::arm::operations::register_index;
use crate::cpu::arm7tdmi::{lemma_mode_code_of, lemma_mode_of_code, mode_of, Arm7tdmi};
use crate::cpu::cpu_modes::{is_mode_code, Mode};
use crate::cpu::psr::{set_bit32, Psr};
use vstd::prelude::*;

verus! {

/// `v` with the bits that `mask` selects taken from `x`.
pub open spec fn fields_written(v: u32, x: u32, mask: u32) -> u32 {
    (v & !mask) | (x & mask)
}

/// The PSR that a transfer really reaches: User and System mode have no
/// SPSR, so there a transfer naming the SPSR reaches the CPSR.
pub open spec fn effective_psr(current: Mode, psr_kind: PsrKind) -> PsrKind {
    if (current == Mode::User || current == Mode::System) && psr_kind == PsrKind::Spsr {
        PsrKind::Cpsr
    } else {
        psr_kind
    }
}

/// The bits an MSR writes: the flags N, Z, C and V (bits 28-31) when it
/// writes the flag field, and, outside User mode, the control bits I, F, T
/// and the mode (bits 0-7) when it writes the control field.
pub open spec fn msr_mask(current: Mode, flags: bool, control: bool) -> u32 {
    (if flags {
        0xF000_0000u32
    } else {
        0u32
    }) | (if control && current != Mode::User {
        0xFFu32
    } else {
        0u32
    })
}

impl Arm7tdmi {
    /// The value, and whether the flag and control fields are written, of an
    /// MSR; `None` for an MRS.
    pub open spec fn msr_operand(self, op_kind: PsrOpKind) -> Option<(u32, bool, bool)> {
        match op_kind {
            PsrOpKind::Mrs { .. } => None,
            PsrOpKind::Msr { source_register } => Some(
                (self.reg(source_register as int), true, true),
            ),
            PsrOpKind::MsrFlg { operand, field_mask } => {
                let value = match operand {
                    AluSecondOperandInfo::Register { register, .. } => self.reg(register as int),
                    AluSecondOperandInfo::Immediate { base, shift } => rotr(base, shift),
                };
                Some((value, field_mask & 0b1000 != 0, field_mask & 0b0001 != 0))
            },
        }
    }

    /// `new` is `self` after an MSR writing `value` under `mask` into the
    /// PSR `eff`: the SPSR, or the CPSR, where a new mode in the control
    /// field first swaps the banked registers.
    pub open spec fn psr_written(
        self,
        new: Self,
        eff: PsrKind,
        value: u32,
        mask: u32,
        control: bool,
    ) -> bool {
        let current = mode_of(self.cpsr.mode_bits());
        let m = mode_of(value & 0x1F);
        let swaps = control && current != Mode::User && is_mode_code(value & 0x1F) && m != current;
        if eff == PsrKind::Spsr {
            &&& new.spsr == Psr(fields_written(self.spsr.0, value, mask))
            &&& new.cpsr == self.cpsr
            &&& new.registers == self.registers
            &&& new.bus == self.bus
            &&& new.register_bank == self.register_bank
            &&& new.fetched_arm == self.fetched_arm
            &&& new.decoded_arm == self.decoded_arm
            &&& new.current_cycle == self.current_cycle
        } else {
            &&& new.cpsr == Psr(fields_written(self.cpsr.0, value, mask))
            &&& if swaps {
                self.mode_swapped(Arm7tdmi { cpsr: self.cpsr.with_mode_bits(m.code()), ..new }, m)
            } else {
                new.registers == self.registers && self.keeps_others(new)
            }
        }
    }

    /// `new` is `self` after a PSR transfer: MRS copies the PSR into the
    /// destination register; MSR writes its fields as `psr_written` says.
    pub open spec fn psr_transferred(self, new: Self, op_kind: PsrOpKind, psr_kind: PsrKind) -> bool {
        let current = mode_of(self.cpsr.mode_bits());
        let eff = effective_psr(current, psr_kind);
        match op_kind {
            PsrOpKind::Mrs { destination_register } => {
                let psr = if eff == PsrKind::Cpsr {
                    self.cpsr
                } else {
                    self.spsr
                };
                &&& new.registers.0@ == self.registers.0@.update(destination_register as int, psr.0)
                &&& new.cpsr == self.cpsr
                &&& self.keeps_others(new)
            },
            _ => {
                let (value, flags, control) = self.msr_operand(op_kind).unwrap();
                self.psr_written(new, eff, value, msr_mask(current, flags, control), control)
            },
        }
    }
}

/// Setting the flag bits, and the control bits and mode, one by one from `x`
/// writes them under a mask; two masked writes make one.
proof fn lemma_psr_fields(v: u32, x: u32)
    by (bit_vector)
    ensures
        set_bit32(
            set_bit32(
                set_bit32(
                    set_bit32(v, 31, (x >> 31u32) & 1 == 1),
                    30,
                    (x >> 30u32) & 1 == 1,
                ),
                29,
                (x >> 29u32) & 1 == 1,
            ),
            28,
            (x >> 28u32) & 1 == 1,
        ) == (v & !0xF000_0000u32) | (x & 0xF000_0000u32),
        ({
            let w = set_bit32(
                set_bit32(set_bit32(v, 7, (x >> 7u32) & 1 == 1), 6, (x >> 6u32) & 1 == 1),
                5,
                (x >> 5u32) & 1 == 1,
            );
            (w & !0x1Fu32) | ((x & 0x1F) & 0x1F)
        }) == (v & !0xFFu32) | (x & 0xFFu32),
        (((v & !0xF000_0000u32) | (x & 0xF000_0000u32)) & !0xFFu32) | (x & 0xFFu32) == (v
            & !0xF000_00FFu32) | (x & 0xF000_00FFu32),
        (v & !0u32) | (x & 0u32) == v,
        0xF000_0000u32 | 0u32 == 0xF000_0000u32,
        0u32 | 0xFFu32 == 0xFFu32,
        0u32 | 0u32 == 0u32,
        0xF000_0000u32 | 0xFFu32 == 0xF000_00FFu32,
        (((v & !0x1Fu32) | ((x & 0x1F) & 0x1F)) & !0xFFu32) | (x & 0xFFu32) == (v & !0xFFu32) | (x
            & 0xFFu32),
        (((v & !0x1Fu32) | ((x & 0x1F) & 0x1F)) & !0xF000_00FFu32) | (x & 0xF000_00FFu32) == (v
            & !0xF000_00FFu32) | (x & 0xF000_00FFu32),
{
}

impl Psr {
    /// Copies the flags N, Z, C and V from bits 28-31 of `value`.
    fn copy_flags(&mut self, value: u32)
        ensures
            *final(self) == Psr(fields_written(old(self).0, value, 0xF000_0000)),
    {
        proof {
            lemma_psr_fields(self.0, value);
        }
        self.set_sign_flag((value >> 31) & 1 == 1);
        self.set_zero_flag((value >> 30) & 1 == 1);
        self.set_carry_flag((value >> 29) & 1 == 1);
        self.set_overflow_flag((value >> 28) & 1 == 1);
    }

    /// Copies the IRQ and FIQ disable bits, the state bit and the mode bits
    /// from bits 0-7 of `value`, whether or not the mode bits name a mode.
    fn copy_control(&mut self, value: u32)
        ensures
            *final(self) == Psr(fields_written(old(self).0, value, 0xFF)),
    {
        proof {
            lemma_psr_fields(self.0, value);
        }
        self.set_irq_disable((value >> 7) & 1 == 1);
        self.set_fiq_disable((value >> 6) & 1 == 1);
        self.set_state_bit((value >> 5) & 1 == 1);
        self.set_mode_raw(value & 0x1F);
    }
}

impl Arm7tdmi {
    /// Writes `value` into the flag field (if `flags`) and, outside User
    /// mode, the control field (if `control`) of the PSR `effective`. When
    /// the CPSR's control field names a mode other than the current one, the
    /// banked registers are swapped before the CPSR is written, so that the
    /// swap sees the mode being left.
    fn write_psr_fields(
        &mut self,
        effective: PsrKind,
        current_mode: Mode,
        value: u32,
        flags: bool,
        control: bool,
    )
        requires
            is_mode_code(old(self).cpsr.mode_bits()),
            current_mode.code() == old(self).cpsr.mode_bits(),
            effective == PsrKind::Spsr ==> current_mode != Mode::User,
        ensures
            old(self).psr_written(
                *final(self),
                effective,
                value,
                msr_mask(current_mode, flags, control),
                control,
            ),
    {
        proof {
            lemma_mode_of_code(current_mode);
            lemma_psr_fields(self.cpsr.0, value);
            lemma_psr_fields(self.spsr.0, value);
        }
        let ghost start = *self;
        let writes_control = control && current_mode != Mode::User;
        if effective == PsrKind::Cpsr && writes_control {
            match Mode::try_from(value & 0x1F) {
                Ok(new_mode) => {
                    if current_mode != new_mode {
                        proof {
                            lemma_mode_of_code(new_mode);
                            lemma_mode_code_of(value & 0x1F);
                        }
                        self.swap_mode(new_mode);
                    }
                },
                Err(_) => {},
            }
        }
        let ghost swapped = *self;
        proof {
            lemma_psr_fields(self.cpsr.0, value);
        }
        match effective {
            PsrKind::Cpsr => {
                if flags {
                    self.cpsr.copy_flags(value);
                }
                if writes_control {
                    self.cpsr.copy_control(value);
                }
            },
            PsrKind::Spsr => {
                if flags {
                    self.spsr.copy_flags(value);
                }
                if writes_control {
                    self.spsr.copy_control(value);
                }
            },
        }
        proof {
            let m = mode_of(value & 0x1F);
            if effective == PsrKind::Cpsr && writes_control && is_mode_code(value & 0x1F) && m
                != current_mode {
                lemma_mode_code_of(value & 0x1F);
                assert(swapped.cpsr == start.cpsr.with_mode_bits(m.code()));
                assert(swapped == Arm7tdmi { cpsr: start.cpsr.with_mode_bits(m.code()), ..*self });
                assert(self.cpsr == Psr(
                    fields_written(start.cpsr.0, value, msr_mask(current_mode, flags, control)),
                ));
            } else if effective == PsrKind::Cpsr {
                assert(swapped == start);
            }
        }
    }

    /// Executes MRS or MSR. In User and System mode, which have no SPSR, a
    /// transfer naming the SPSR reaches the CPSR; in User mode an MSR writes
    /// only the flags.
    pub fn psr_transfer(&mut self, op_kind: PsrOpKind, psr_kind: PsrKind)
        requires
            is_mode_code(old(self).cpsr.mode_bits()),
            op_kind matches PsrOpKind::Mrs { destination_register } ==> destination_register < 15,
            op_kind matches PsrOpKind::Msr { source_register } ==> source_register < 15,
            op_kind matches PsrOpKind::MsrFlg { operand, .. } ==> (
            operand matches AluSecondOperandInfo::Register { register, .. } ==> register < 16),
        ensures
            old(self).psr_transferred(*final(self), op_kind, psr_kind),
    {
        let current_mode = self.cpsr.mode();
        proof {
            lemma_mode_of_code(current_mode);
        }
        // User and System mode have no SPSR: an access to it reaches the CPSR.
        let effective = if (current_mode == Mode::System || current_mode == Mode::User) && psr_kind
            == PsrKind::Spsr {
            PsrKind::Cpsr
        } else {
            psr_kind
        };

        match op_kind {
            PsrOpKind::Mrs { destination_register } => {
                let psr = match effective {
                    PsrKind::Cpsr => self.cpsr,
                    PsrKind::Spsr => self.spsr,
                };
                self.registers.set_register_at(register_index(destination_register), u32::from(psr));
            },
            PsrOpKind::Msr { source_register } => {
                let rm = self.registers.register_at(register_index(source_register));
                self.write_psr_fields(effective, current_mode, rm, true, true);
            },
            PsrOpKind::MsrFlg { operand, field_mask } => {
                let op = match operand {
                    AluSecondOperandInfo::Register { register, .. } => {
                        self.registers.register_at(register_index(register))
                    },
                    AluSecondOperandInfo::Immediate { base, shift } => rotate_right(base, shift),
                };
                // Bit 3 of the mask selects the flag field, bit 0 the control
                // field; the extension and status fields are unused here.
                self.write_psr_fields(
                    effective,
                    current_mode,
                    op,
                    field_mask & 0b1000 != 0,
                    field_mask & 0b0001 != 0,
                );
            },
        }
    }
}


/// MRS reads back what MSR wrote: after an MSR of a whole register into the
/// CPSR, an MRS of the CPSR gives the written fields (the flags, and outside
/// User mode the control bits and mode) from the source register and the
/// other bits from the CPSR as it was.
pub proof fn lemma_msr_then_mrs(s0: Arm7tdmi, s1: Arm7tdmi, s2: Arm7tdmi, rs: u32, rd: u32)
    requires
        is_mode_code(s0.cpsr.mode_bits()),
        rs < 16,
        rd < 16,
        s0.psr_transferred(s1, PsrOpKind::Msr { source_register: rs }, PsrKind::Cpsr),
        s1.psr_transferred(s2, PsrOpKind::Mrs { destination_register: rd }, PsrKind::Cpsr),
    ensures
        s2.reg(rd as int) == fields_written(
            s0.cpsr.0,
            s0.reg(rs as int),
            msr_mask(mode_of(s0.cpsr.mode_bits()), true, true),
        ),
{
    assert(s2.registers.0@[rd as int] == s1.cpsr.0);
}

} // verus!
