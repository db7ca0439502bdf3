//! The ARM7TDMI processor core in ARM state: its registers, program status
//! registers and banked registers, the bus it reads and writes through, and
//! its pipeline; the exceptions it raises (their vector address, the mode
//! they enter and the return address they save) and the kinds of halfword
//! transfer.
use crate::bitwise::{bit_field, lemma_bit_field_le, lemma_field_masks, Bits};
use crate::bitwise::sign_extend;
use crate::bus::{bus_address, half_word_aligned, half_word_of, word_aligned, word_of, Bus};
use crate::cpu::arm::alu_instruction::{rotate_right, rotr};
use crate::cpu::arm::mode::ArmModeOpcode;
use crate::cpu::cpu_modes::{is_mode_code, Mode};
use crate::cpu::psr::{CpuState, Psr};
use crate::cpu::register_bank::RegisterBank;
use crate::cpu::registers::Registers;
use vstd::prelude::*;

verus! {

/// The exceptions that the core raises.
#[derive(Copy, Clone, Debug, PartialEq, Eq, Structural)]
pub enum ExceptionType {
    UndefinedInstruction,
    SoftwareInterrupt,
    Irq,
}

impl ExceptionType {
    /// The vector address that the exception jumps to.
    pub fn address(self) -> (r: usize)
        ensures
            r == (match self {
                ExceptionType::UndefinedInstruction => 0x4usize,
                ExceptionType::SoftwareInterrupt => 0x8usize,
                ExceptionType::Irq => 0x18usize,
            }),
    {
        match self {
            Self::UndefinedInstruction => 0x4,
            Self::SoftwareInterrupt => 0x8,
            Self::Irq => 0x18,
        }
    }

    /// The mode that the exception enters.
    pub fn mode(self) -> (r: Mode)
        ensures
            r == (match self {
                ExceptionType::SoftwareInterrupt => Mode::Supervisor,
                ExceptionType::UndefinedInstruction => Mode::Undefined,
                ExceptionType::Irq => Mode::Irq,
            }),
    {
        match self {
            Self::SoftwareInterrupt => Mode::Supervisor,
            Self::UndefinedInstruction => Mode::Undefined,
            Self::Irq => Mode::Irq,
        }
    }

    /// The return address that the exception saves, given the state and the
    /// program counter (which runs 8 bytes ahead of the executing instruction
    /// in ARM state and 4 in Thumb state): the instruction after the current
    /// one, except that an IRQ in Thumb state returns 4 bytes on.
    pub fn next_instruction_func(self, current_state: CpuState, current_pc: usize) -> (r: usize)
        requires
            current_state == CpuState::Arm ==> current_pc >= 8,
            current_state == CpuState::Thumb ==> current_pc >= 4,
        ensures
            r == next_instruction_address(self, current_state, current_pc as int),
    {
        let current_executing_ins = match current_state {
            CpuState::Arm => current_pc - 8,
            CpuState::Thumb => current_pc - 4,
        };

        match (current_state, self) {
            (CpuState::Thumb, Self::SoftwareInterrupt) | (
                CpuState::Thumb,
                Self::UndefinedInstruction,
            ) => current_executing_ins + 2,
            (CpuState::Arm, Self::SoftwareInterrupt) | (CpuState::Arm, Self::UndefinedInstruction)
            | (CpuState::Arm, Self::Irq) => current_executing_ins + 4,
            (CpuState::Thumb, Self::Irq) => current_executing_ins + 4,
        }
    }
}

/// The return address of an exception: ARM instructions are 4 bytes and the
/// program counter is 8 ahead; Thumb instructions are 2 bytes and it is 4
/// ahead, while an IRQ taken in Thumb state returns 4 bytes after the
/// executing instruction.
pub open spec fn next_instruction_address(e: ExceptionType, state: CpuState, pc: int) -> int {
    match state {
        CpuState::Arm => pc - 8 + 4,
        CpuState::Thumb => if e == ExceptionType::Irq {
            pc - 4 + 4
        } else {
            pc - 4 + 2
        },
    }
}

/// The ARM7TDMI core: the register file, the current and saved program status
/// registers, the banked registers of the other modes, the memory bus, and
/// the fetched and decoded ARM opcodes of the pipeline.
pub struct Arm7tdmi {
    pub bus: Bus,
    pub cpsr: Psr,
    pub spsr: Psr,
    pub registers: Registers,
    pub register_bank: RegisterBank,
    pub fetched_arm: Option<u32>,
    pub decoded_arm: Option<ArmModeOpcode>,
    pub current_cycle: u128,
}

impl Arm7tdmi {
    /// Register `i`.
    pub open spec fn reg(self, i: int) -> u32 {
        self.registers.0[i]
    }

    /// `new` differs from `self` at most in the register file and the CPSR.
    pub open spec fn keeps_others(self, new: Self) -> bool {
        &&& new.bus == self.bus
        &&& new.spsr == self.spsr
        &&& new.register_bank == self.register_bank
        &&& new.fetched_arm == self.fetched_arm
        &&& new.decoded_arm == self.decoded_arm
        &&& new.current_cycle == self.current_cycle
    }

    /// Empties the pipeline, so that the next steps fetch from the program
    /// counter afresh.
    pub fn flush_pipeline(&mut self)
        ensures
            *final(self) == (Arm7tdmi { fetched_arm: None, decoded_arm: None, ..*old(self) }),
    {
        self.decoded_arm = None;
        self.fetched_arm = None;
    }
}

impl Default for Arm7tdmi {
    /// A core in ARM state and Supervisor mode with interrupts disabled, all
    /// registers zero, an empty pipeline and a reset bus.
    fn default() -> (r: Self)
        ensures
            r.cpsr == Psr(Mode::Supervisor.code()).with_flag(5, false).with_flag(7, true).with_flag(
                6,
                true,
            ),
            r.spsr == Psr(Mode::Supervisor.code()),
            forall|i: int| 0 <= i < 16 ==> r.registers.0[i] == 0,
            r.register_bank == RegisterBank::default_spec(),
            r.fetched_arm is None,
            r.decoded_arm is None,
            r.current_cycle == 0,
            r.bus.wf(),
            r.bus.is_reset(),
    {
        let mut s = Arm7tdmi {
            bus: Bus::default(),
            cpsr: Psr::from(Mode::Supervisor),
            spsr: Psr::from(Mode::Supervisor),
            registers: Registers::default(),
            register_bank: RegisterBank::default(),
            fetched_arm: None,
            decoded_arm: None,
            current_cycle: 0,
        };
        // ARM state at startup.
        s.cpsr.set_cpu_state(CpuState::Arm);
        s.cpsr.set_irq_disable(true);
        s.cpsr.set_fiq_disable(true);
        s
    }
}

impl Arm7tdmi {
    /// The word that a load reads at `address`: the word that holds the
    /// address, rotated right so that the addressed byte is the low byte.
    pub open spec fn loaded_word(self, address: usize) -> u32 {
        let a = word_aligned(address);
        rotr(
            word_of(
                self.bus.byte_at(bus_address(a)),
                self.bus.byte_at(bus_address((a + 1) as usize)),
                self.bus.byte_at(bus_address((a + 2) as usize)),
                self.bus.byte_at(bus_address((a + 3) as usize)),
            ),
            ((address % 4) * 8) as u32,
        )
    }

    /// The value that a halfword load reads at `address`: the halfword that
    /// holds the address, rotated right by 8 when the address is odd; when
    /// sign-extended, from bit 15, or from bit 7 at an odd address.
    pub open spec fn loaded_half_word(self, address: usize, sign_extended: bool) -> u32 {
        let a = half_word_aligned(address);
        let value = rotr(
            half_word_of(
                self.bus.byte_at(bus_address(a)),
                self.bus.byte_at(bus_address((a + 1) as usize)),
            ) as u32,
            ((address % 2) * 8) as u32,
        );
        if sign_extended {
            sign_extend(value as u128, if address % 2 == 0 {
                16
            } else {
                8
            }, 32) as u32
        } else {
            value
        }
    }

    /// The bus after one more read at `address`.
    pub open spec fn bus_after_read(self, address: usize) -> Bus {
        Bus {
            cycles_count: (self.bus.cycles_count + 1) as u128,
            last_used_address: address,
            ..self.bus
        }
    }

    /// Reads a word for a load: the word that holds `address`, rotated so
    /// that the addressed byte is the low byte.
    pub fn read_word(&mut self, address: usize) -> (r: u32)
        requires
            old(self).bus.wf(),
            old(self).bus.cycles() < u128::MAX,
        ensures
            r == old(self).loaded_word(address),
            *final(self) == (Arm7tdmi { bus: old(self).bus_after_read(address), ..*old(self) }),
    {
        proof {
            assert(address & 0b11 == address % 4) by (bit_vector);
        }
        let rotation = ((address & 0b11) * 8) as u32;
        rotate_right(self.bus.read_word(address), rotation)
    }

    /// Reads a halfword for a load: the halfword that holds `address`,
    /// rotated right by 8 at an odd address, and sign-extended on request
    /// (from bit 7 at an odd address, which makes it a signed byte load).
    pub fn read_half_word(&mut self, address: usize, sign_extended: bool) -> (r: u32)
        requires
            old(self).bus.wf(),
            old(self).bus.cycles() < u128::MAX,
        ensures
            r == old(self).loaded_half_word(address, sign_extended),
            *final(self) == (Arm7tdmi { bus: old(self).bus_after_read(address), ..*old(self) }),
    {
        // A misaligned halfword read reads the aligned halfword and rotates
        // it so that the addressed byte is the low byte.
        proof {
            assert(address & 0b1 == address % 2) by (bit_vector);
        }
        let rotation = ((address & 0b1) * 8) as u32;
        let mut value = rotate_right(self.bus.read_half_word(address) as u32, rotation);

        if sign_extended {
            // At an odd address the addressed byte is the low byte, so only
            // its 8 bits are extended.
            let is_halfword_aligned: bool = address & 0b1 == 0;
            value = value.sign_extended(if is_halfword_aligned {
                16
            } else {
                8
            });
        }

        value
    }
}

/// The mode whose code is `code`.
pub open spec fn mode_of(code: u32) -> Mode {
    if code == 0b10000 {
        Mode::User
    } else if code == 0b10001 {
        Mode::Fiq
    } else if code == 0b10010 {
        Mode::Irq
    } else if code == 0b10011 {
        Mode::Supervisor
    } else if code == 0b10111 {
        Mode::Abort
    } else if code == 0b11011 {
        Mode::Undefined
    } else {
        Mode::System
    }
}

/// The banked registers once mode `m` puts its registers away: FIQ keeps R8
/// to R14 and the SPSR, User and System keep R13 and R14, every other mode
/// keeps R13, R14 and the SPSR.
pub open spec fn bank_after_leaving(bank: RegisterBank, m: Mode, regs: Seq<u32>, spsr: Psr) -> RegisterBank {
    match m {
        Mode::Fiq => RegisterBank {
            r8_fiq: regs[8],
            r9_fiq: regs[9],
            r10_fiq: regs[10],
            r11_fiq: regs[11],
            r12_fiq: regs[12],
            r13_fiq: regs[13],
            r14_fiq: regs[14],
            spsr_fiq: spsr,
            ..bank
        },
        Mode::System | Mode::User => RegisterBank { r13_old: regs[13], r14_old: regs[14], ..bank },
        Mode::Supervisor => RegisterBank {
            r13_svc: regs[13],
            r14_svc: regs[14],
            spsr_svc: spsr,
            ..bank
        },
        Mode::Abort => RegisterBank { r13_abt: regs[13], r14_abt: regs[14], spsr_abt: spsr, ..bank },
        Mode::Irq => RegisterBank { r13_irq: regs[13], r14_irq: regs[14], spsr_irq: spsr, ..bank },
        Mode::Undefined => RegisterBank {
            r13_und: regs[13],
            r14_und: regs[14],
            spsr_und: spsr,
            ..bank
        },
    }
}

/// The register file once mode `m` is left: leaving FIQ brings back the R8
/// to R12 of the other modes.
pub open spec fn regs_after_leaving(bank: RegisterBank, m: Mode, regs: Seq<u32>) -> Seq<u32> {
    if m == Mode::Fiq {
        regs.update(8, bank.r8_old).update(9, bank.r9_old).update(10, bank.r10_old).update(
            11,
            bank.r11_old,
        ).update(12, bank.r12_old)
    } else {
        regs
    }
}

/// The banked registers once mode `m` is entered: entering FIQ puts away the
/// R8 to R12 of the other modes.
pub open spec fn bank_after_entering(bank: RegisterBank, m: Mode, regs: Seq<u32>) -> RegisterBank {
    if m == Mode::Fiq {
        RegisterBank {
            r8_old: regs[8],
            r9_old: regs[9],
            r10_old: regs[10],
            r11_old: regs[11],
            r12_old: regs[12],
            ..bank
        }
    } else {
        bank
    }
}

/// The register file once mode `m` is entered: its banked registers come
/// back.
pub open spec fn regs_after_entering(bank: RegisterBank, m: Mode, regs: Seq<u32>) -> Seq<u32> {
    match m {
        Mode::Fiq => regs.update(8, bank.r8_fiq).update(9, bank.r9_fiq).update(10, bank.r10_fiq).update(
            11,
            bank.r11_fiq,
        ).update(12, bank.r12_fiq).update(13, bank.r13_fiq).update(14, bank.r14_fiq),
        Mode::System | Mode::User => regs.update(13, bank.r13_old).update(14, bank.r14_old),
        Mode::Supervisor => regs.update(13, bank.r13_svc).update(14, bank.r14_svc),
        Mode::Abort => regs.update(13, bank.r13_abt).update(14, bank.r14_abt),
        Mode::Irq => regs.update(13, bank.r13_irq).update(14, bank.r14_irq),
        Mode::Undefined => regs.update(13, bank.r13_und).update(14, bank.r14_und),
    }
}

/// The SPSR once mode `m` is entered: its own, except that User and System
/// have none and keep the one there was.
pub open spec fn spsr_after_entering(bank: RegisterBank, m: Mode, spsr: Psr) -> Psr {
    match m {
        Mode::Fiq => bank.spsr_fiq,
        Mode::System | Mode::User => spsr,
        Mode::Supervisor => bank.spsr_svc,
        Mode::Abort => bank.spsr_abt,
        Mode::Irq => bank.spsr_irq,
        Mode::Undefined => bank.spsr_und,
    }
}

impl Arm7tdmi {
    /// `new` is `self` after switching from the current mode to `m`: the
    /// current mode's banked registers are put away, those of `m` come back,
    /// and the mode bits become `m`'s. Switching to the current mode changes
    /// nothing.
    pub open spec fn mode_swapped(self, new: Self, m: Mode) -> bool {
        let current = mode_of(self.cpsr.mode_bits());
        if current == m {
            new == self
        } else {
            let bank1 = bank_after_leaving(self.register_bank, current, self.registers.0@, self.spsr);
            let regs1 = regs_after_leaving(self.register_bank, current, self.registers.0@);
            &&& new.register_bank == bank_after_entering(bank1, m, regs1)
            &&& new.registers.0@ == regs_after_entering(bank1, m, regs1)
            &&& new.spsr == spsr_after_entering(bank1, m, self.spsr)
            &&& new.cpsr == self.cpsr.with_mode_bits(m.code())
            &&& new.bus == self.bus
            &&& new.fetched_arm == self.fetched_arm
            &&& new.decoded_arm == self.decoded_arm
            &&& new.current_cycle == self.current_cycle
        }
    }

    /// Switches to mode `new_mode`, swapping the banked registers.
    pub fn swap_mode(&mut self, new_mode: Mode)
        requires
            is_mode_code(old(self).cpsr.mode_bits()),
        ensures
            old(self).mode_swapped(*final(self), new_mode),
    {
        let current = self.cpsr.mode();
        proof {
            lemma_mode_of_code(current);
        }
        if current == new_mode {
            return;
        }

        match current {
            // Leaving FIQ puts away R8 to R14 and the SPSR, and brings back
            // the R8 to R12 of the other modes.
            Mode::Fiq => {
                self.register_bank.r8_fiq = self.registers.register_at(8);
                self.register_bank.r9_fiq = self.registers.register_at(9);
                self.register_bank.r10_fiq = self.registers.register_at(10);
                self.register_bank.r11_fiq = self.registers.register_at(11);
                self.register_bank.r12_fiq = self.registers.register_at(12);
                self.register_bank.r13_fiq = self.registers.register_at(13);
                self.register_bank.r14_fiq = self.registers.register_at(14);
                self.register_bank.spsr_fiq = self.spsr;

                self.registers.set_register_at(8, self.register_bank.r8_old);
                self.registers.set_register_at(9, self.register_bank.r9_old);
                self.registers.set_register_at(10, self.register_bank.r10_old);
                self.registers.set_register_at(11, self.register_bank.r11_old);
                self.registers.set_register_at(12, self.register_bank.r12_old);
            },
            // Leaving System or User puts away R13 and R14.
            Mode::System | Mode::User => {
                self.register_bank.r13_old = self.registers.register_at(13);
                self.register_bank.r14_old = self.registers.register_at(14);
            },
            // Leaving any other mode puts away R13, R14 and the SPSR.
            Mode::Supervisor => {
                self.register_bank.r13_svc = self.registers.register_at(13);
                self.register_bank.r14_svc = self.registers.register_at(14);
                self.register_bank.spsr_svc = self.spsr;
            },
            Mode::Abort => {
                self.register_bank.r13_abt = self.registers.register_at(13);
                self.register_bank.r14_abt = self.registers.register_at(14);
                self.register_bank.spsr_abt = self.spsr;
            },
            Mode::Irq => {
                self.register_bank.r13_irq = self.registers.register_at(13);
                self.register_bank.r14_irq = self.registers.register_at(14);
                self.register_bank.spsr_irq = self.spsr;
            },
            Mode::Undefined => {
                self.register_bank.r13_und = self.registers.register_at(13);
                self.register_bank.r14_und = self.registers.register_at(14);
                self.register_bank.spsr_und = self.spsr;
            },
        }

        match new_mode {
            // Entering FIQ puts away the R8 to R12 of the other modes and
            // brings back R8 to R14 and the SPSR of FIQ.
            Mode::Fiq => {
                self.register_bank.r8_old = self.registers.register_at(8);
                self.register_bank.r9_old = self.registers.register_at(9);
                self.register_bank.r10_old = self.registers.register_at(10);
                self.register_bank.r11_old = self.registers.register_at(11);
                self.register_bank.r12_old = self.registers.register_at(12);

                self.registers.set_register_at(8, self.register_bank.r8_fiq);
                self.registers.set_register_at(9, self.register_bank.r9_fiq);
                self.registers.set_register_at(10, self.register_bank.r10_fiq);
                self.registers.set_register_at(11, self.register_bank.r11_fiq);
                self.registers.set_register_at(12, self.register_bank.r12_fiq);
                self.registers.set_register_at(13, self.register_bank.r13_fiq);
                self.registers.set_register_at(14, self.register_bank.r14_fiq);

                self.spsr = self.register_bank.spsr_fiq;
            },
            // Entering System or User brings back R13 and R14.
            Mode::System | Mode::User => {
                self.registers.set_register_at(13, self.register_bank.r13_old);
                self.registers.set_register_at(14, self.register_bank.r14_old);
            },
            // Entering any other mode brings back R13, R14 and the SPSR.
            Mode::Supervisor => {
                self.registers.set_register_at(13, self.register_bank.r13_svc);
                self.registers.set_register_at(14, self.register_bank.r14_svc);
                self.spsr = self.register_bank.spsr_svc;
            },
            Mode::Abort => {
                self.registers.set_register_at(13, self.register_bank.r13_abt);
                self.registers.set_register_at(14, self.register_bank.r14_abt);
                self.spsr = self.register_bank.spsr_abt;
            },
            Mode::Irq => {
                self.registers.set_register_at(13, self.register_bank.r13_irq);
                self.registers.set_register_at(14, self.register_bank.r14_irq);
                self.spsr = self.register_bank.spsr_irq;
            },
            Mode::Undefined => {
                self.registers.set_register_at(13, self.register_bank.r13_und);
                self.registers.set_register_at(14, self.register_bank.r14_und);
                self.spsr = self.register_bank.spsr_und;
            },
        }

        self.cpsr.set_mode(new_mode);
    }

    /// Register `reg` as User mode sees it: R8 to R14 come from the bank.
    pub fn read_user_register(&self, reg: usize) -> (r: u32)
        requires
            reg < 16,
        ensures
            r == user_register(self.register_bank, self.registers.0@, reg as int),
    {
        match reg {
            8 => self.register_bank.r8_old,
            9 => self.register_bank.r9_old,
            10 => self.register_bank.r10_old,
            11 => self.register_bank.r11_old,
            12 => self.register_bank.r12_old,
            13 => self.register_bank.r13_old,
            14 => self.register_bank.r14_old,
            // R0 to R7 and the program counter are never banked.
            _ => self.registers.register_at(reg),
        }
    }

    /// Writes register `reg` as User mode sees it: R8 to R14 go to the bank.
    pub fn write_user_register(&mut self, reg: usize, value: u32)
        requires
            reg < 16,
        ensures
            8 <= reg <= 14 ==> final(self).registers == old(self).registers,
            !(8 <= reg <= 14) ==> final(self).registers.0@ == old(self).registers.0@.update(
                reg as int,
                value,
            ),
            final(self).register_bank == user_bank_written(old(self).register_bank, reg as int, value),
            final(self).bus == old(self).bus,
            final(self).cpsr == old(self).cpsr,
            final(self).spsr == old(self).spsr,
            final(self).fetched_arm == old(self).fetched_arm,
            final(self).decoded_arm == old(self).decoded_arm,
            final(self).current_cycle == old(self).current_cycle,
    {
        match reg {
            8 => self.register_bank.r8_old = value,
            9 => self.register_bank.r9_old = value,
            10 => self.register_bank.r10_old = value,
            11 => self.register_bank.r11_old = value,
            12 => self.register_bank.r12_old = value,
            13 => self.register_bank.r13_old = value,
            14 => self.register_bank.r14_old = value,
            // R0 to R7 and the program counter are never banked.
            _ => self.registers.set_register_at(reg, value),
        }
    }
}

/// Register `reg` of User mode, for a mode whose R8 to R14 are its own.
pub open spec fn user_register(bank: RegisterBank, regs: Seq<u32>, reg: int) -> u32 {
    if reg == 8 {
        bank.r8_old
    } else if reg == 9 {
        bank.r9_old
    } else if reg == 10 {
        bank.r10_old
    } else if reg == 11 {
        bank.r11_old
    } else if reg == 12 {
        bank.r12_old
    } else if reg == 13 {
        bank.r13_old
    } else if reg == 14 {
        bank.r14_old
    } else {
        regs[reg]
    }
}

/// The bank after writing User mode register `reg` (R8 to R14) with `value`.
pub open spec fn user_bank_written(bank: RegisterBank, reg: int, value: u32) -> RegisterBank {
    if reg == 8 {
        RegisterBank { r8_old: value, ..bank }
    } else if reg == 9 {
        RegisterBank { r9_old: value, ..bank }
    } else if reg == 10 {
        RegisterBank { r10_old: value, ..bank }
    } else if reg == 11 {
        RegisterBank { r11_old: value, ..bank }
    } else if reg == 12 {
        RegisterBank { r12_old: value, ..bank }
    } else if reg == 13 {
        RegisterBank { r13_old: value, ..bank }
    } else if reg == 14 {
        RegisterBank { r14_old: value, ..bank }
    } else {
        bank
    }
}

/// Writing the mode bits twice keeps only the second write, and writing back
/// a register's own mode bits gives the register.
proof fn lemma_mode_bits_rewrite(v: u32, x: u32)
    by (bit_vector)
    ensures
        (((v & !0x1Fu32) | (x & 0x1F)) & !0x1Fu32) | ((v & 0x1F) & 0x1F) == v,
        (((v & !0x1Fu32) | (x & 0x1F)) & 0x1F) == x & 0x1F,
        x < 32 ==> x & 0x1F == x,
        ((v & !0x1Fu32) | (x & 0x1F)) & !0x1Fu32 == v & !0x1Fu32,
        (v & !0x1Fu32) | ((v & 0x1F) & 0x1F) == v,
{
}

/// Writing the mode bits twice keeps only the second write, and writing back
/// the register's own mode bits changes nothing.
pub proof fn lemma_mode_bits_overwrite(p: Psr, a: u32, b: u32)
    ensures
        p.with_mode_bits(a).with_mode_bits(b) == p.with_mode_bits(b),
        p.with_mode_bits(p.mode_bits()) == p,
{
    lemma_mode_bits_rewrite(p.0, a);
}

/// Writing a mode's code into the mode bits makes them that code.
pub proof fn lemma_with_mode_bits(p: Psr, m: Mode)
    ensures
        p.with_mode_bits(m.code()).mode_bits() == m.code(),
        Psr(m.code()).mode_bits() == m.code(),
{
    lemma_mode_bits_rewrite(p.0, m.code());
    lemma_mode_bits_rewrite(0, m.code());
}

/// Switching to another mode and back restores the register file and the
/// CPSR, and the SPSR of a mode that has one.
pub proof fn lemma_swap_mode_round_trip(a: Arm7tdmi, b: Arm7tdmi, c: Arm7tdmi, m: Mode)
    requires
        is_mode_code(a.cpsr.mode_bits()),
        a.mode_swapped(b, m),
        b.mode_swapped(c, mode_of(a.cpsr.mode_bits())),
    ensures
        c.registers.0@ == a.registers.0@,
        c.cpsr == a.cpsr,
        !(mode_of(a.cpsr.mode_bits()) is User || mode_of(a.cpsr.mode_bits()) is System)
            ==> c.spsr == a.spsr,
{
    lemma_mode_bits_rewrite(a.cpsr.0, m.code());
    lemma_mode_of_code(m);
    let current = mode_of(a.cpsr.mode_bits());
    assert(a.registers.0@.len() == 16);
    if current != m {
        assert(mode_of(b.cpsr.mode_bits()) == m);
        match m {
            Mode::Fiq => {
                assert(c.registers.0@ =~= a.registers.0@);
            },
            Mode::System | Mode::User => {
                assert(c.registers.0@ =~= a.registers.0@);
            },
            Mode::Supervisor => {
                assert(c.registers.0@ =~= a.registers.0@);
            },
            Mode::Abort => {
                assert(c.registers.0@ =~= a.registers.0@);
            },
            Mode::Irq => {
                assert(c.registers.0@ =~= a.registers.0@);
            },
            Mode::Undefined => {
                assert(c.registers.0@ =~= a.registers.0@);
            },
        }
    }
}

/// The mode of a mode code has that code.
pub proof fn lemma_mode_code_of(code: u32)
    requires
        is_mode_code(code),
    ensures
        mode_of(code).code() == code,
{
}

/// Switching to a mode that banks R13 and R14, writing its link register
/// and the program counter, and switching back restores every register but
/// the program counter, which keeps what was written.
pub proof fn lemma_swap_back_after_link(
    a: Arm7tdmi,
    b: Arm7tdmi,
    b2: Arm7tdmi,
    c: Arm7tdmi,
    m: Mode,
    lr: u32,
    pc: u32,
)
    requires
        is_mode_code(a.cpsr.mode_bits()),
        mode_of(a.cpsr.mode_bits()) != m,
        m == Mode::Irq || m == Mode::Undefined || m == Mode::Supervisor || m == Mode::Abort,
        a.mode_swapped(b, m),
        b2.registers.0@ == b.registers.0@.update(14, lr).update(15, pc),
        b2.register_bank == b.register_bank,
        mode_of(b2.cpsr.mode_bits()) == m,
        b2.mode_swapped(c, mode_of(a.cpsr.mode_bits())),
    ensures
        c.registers.0@ == a.registers.0@.update(15, pc),
{
    lemma_mode_of_code(m);
    let current = mode_of(a.cpsr.mode_bits());
    assert(a.registers.0@.len() == 16);
    match current {
        Mode::Fiq => {
            assert(c.registers.0@ =~= a.registers.0@.update(15, pc));
        },
        Mode::System | Mode::User => {
            assert(c.registers.0@ =~= a.registers.0@.update(15, pc));
        },
        Mode::Supervisor => {
            assert(c.registers.0@ =~= a.registers.0@.update(15, pc));
        },
        Mode::Abort => {
            assert(c.registers.0@ =~= a.registers.0@.update(15, pc));
        },
        Mode::Irq => {
            assert(c.registers.0@ =~= a.registers.0@.update(15, pc));
        },
        Mode::Undefined => {
            assert(c.registers.0@ =~= a.registers.0@.update(15, pc));
        },
    }
}

/// A mode is the mode of its code.
pub proof fn lemma_mode_of_code(m: Mode)
    ensures
        mode_of(m.code()) == m,
        is_mode_code(m.code()),
{
}

/// The kind of a halfword or signed data transfer (the SH bits).
#[derive(Copy, Clone, Debug, Eq, PartialEq, Structural)]
pub enum HalfwordTransferKind {
    UnsignedHalfwords,
    SignedByte,
    SignedHalfwords,
}

/// The transfer kind of the SH bits `sh` (1, 2 or 3).
pub open spec fn halfword_kind_of(sh: u32) -> HalfwordTransferKind {
    if sh == 1 {
        HalfwordTransferKind::UnsignedHalfwords
    } else if sh == 2 {
        HalfwordTransferKind::SignedByte
    } else {
        HalfwordTransferKind::SignedHalfwords
    }
}

impl HalfwordTransferKind {
    /// The kind given by the low two bits of `value`; both clear is no
    /// halfword transfer.
    pub fn from(value: u8) -> (r: Self)
        requires
            bit_field(value as u128, 0, 2) != 0,
        ensures
            r == halfword_kind_of(bit_field(value as u128, 0, 2) as u32),
    {
        proof {
            lemma_field_masks();
            lemma_bit_field_le(value as u128, 0, 2);
        }
        match value.get_bits(0..=1) {
            0b01 => Self::UnsignedHalfwords,
            0b10 => Self::SignedByte,
            _ => Self::SignedHalfwords,
        }
    }

    /// The mnemonic suffix: `H`, `SB` or `SH`.
    pub open spec fn text(self) -> Seq<char> {
        match self {
            HalfwordTransferKind::UnsignedHalfwords => "H"@,
            HalfwordTransferKind::SignedByte => "SB"@,
            HalfwordTransferKind::SignedHalfwords => "SH"@,
        }
    }

    /// The mnemonic suffix: `H`, `SB` or `SH`.
    pub fn to_str(&self) -> (r: &'static str)
        ensures
            r@ == self.text(),
    {
        match self {
            Self::UnsignedHalfwords => "H",
            Self::SignedByte => "SB",
            Self::SignedHalfwords => "SH",
        }
    }

    /// The mnemonic suffix as a `String`.
    pub fn to_string(&self) -> (r: String)
        ensures
            r@ == self.text(),
    {
        String::from_str(self.to_str())
    }
}

} // verus!
