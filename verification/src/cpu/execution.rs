//! Running ARM instructions: fetching and decoding an opcode, executing it
//! when its condition holds, and taking the exceptions that undefined
//! instructions and software interrupts raise.
use crate::bus::{
    bus_address, keeps_writes, lemma_bus_address_small, lemma_word_write_then_read, word_aligned,
    Bus,
};
use crate::cpu::arm::alu_instruction::{
    field, flag, AluSecondOperandInfo, ArmModeAluInstr, PsrOpKind,
};
use crate::cpu::arm::block_transfer::{bus_word, listed, word_written};
use crate::cpu::arm::instructions::{
    ArmModeInstruction, SingleDataTransferKind, SingleDataTransferOffsetInfo,
};
use crate::cpu::arm::mode::{decode_opcode, ArmModeOpcode};
use crate::cpu::arm::operations::{
    address_index, branch_offset, lemma_flag_writes_keep_mode, pc_offset, register_index, signed32,
};
use crate::cpu::arm7tdmi::{
    lemma_mode_bits_overwrite, lemma_mode_of_code, lemma_swap_back_after_link,
    lemma_with_mode_bits, mode_of, next_instruction_address, Arm7tdmi, ExceptionType,
};
use crate::cpu::cpu_modes::{is_mode_code, Mode};
use crate::cpu::flags::{HalfwordDataTransferOffsetKind, Indexing, LoadStoreKind, OperandKind};
use crate::cpu::psr::{condition_holds, lemma_high_flag_keeps_mode, CpuState, Psr};
use crate::cpu::register_bank::RegisterBank;
use crate::cpu::swi::{
    after_read, bus_half_word, byte_write_step, swi_outcome, ArcTan2Request, SwiOutcome,
};
use vstd::prelude::*;

verus! {

/// The mode that an exception enters.
pub open spec fn exception_mode(e: ExceptionType) -> Mode {
    match e {
        ExceptionType::SoftwareInterrupt => Mode::Supervisor,
        ExceptionType::UndefinedInstruction => Mode::Undefined,
        ExceptionType::Irq => Mode::Irq,
    }
}

/// The vector address of an exception.
pub open spec fn exception_vector(e: ExceptionType) -> u32 {
    match e {
        ExceptionType::UndefinedInstruction => 0x4,
        ExceptionType::SoftwareInterrupt => 0x8,
        ExceptionType::Irq => 0x18,
    }
}

/// The instruction set that the T bit of `psr` selects.
pub open spec fn state_of(psr: Psr) -> CpuState {
    if psr.flag(5) {
        CpuState::Thumb
    } else {
        CpuState::Arm
    }
}

impl Arm7tdmi {
    /// The return address that exception `e` saves.
    pub open spec fn exception_return(self, e: ExceptionType) -> u32 {
        next_instruction_address(e, state_of(self.cpsr), self.reg(15) as int) as u32
    }

    /// The address of the comment field of an SWI: the byte before the
    /// return address in Thumb state, the word 4 bytes before it in ARM
    /// state.
    pub open spec fn swi_address(self) -> u32 {
        let ret = self.exception_return(ExceptionType::SoftwareInterrupt);
        if self.cpsr.flag(5) {
            vstd::wrapping::u32_specs::wrapping_sub(ret, 2)
        } else {
            vstd::wrapping::u32_specs::wrapping_sub(ret, 4)
        }
    }

    /// The number of the BIOS call that an SWI makes: its comment byte in
    /// Thumb state, the low byte of its opcode in ARM state.
    pub open spec fn swi_number(self) -> u32 {
        let a = self.swi_address() as usize;
        if self.cpsr.flag(5) {
            self.bus.byte_at(bus_address(a)) as u32
        } else {
            bus_word(self.bus, a) & 0xFF
        }
    }

    /// The core after the reads that exception `e` makes before it is
    /// taken: an IRQ reads the handler address at 0x03007FFC, an SWI reads
    /// its comment field.
    pub open spec fn exception_read(self, e: ExceptionType) -> Self {
        match e {
            ExceptionType::Irq => Arm7tdmi { bus: after_read(self.bus, 0x0300_7FFC), ..self },
            ExceptionType::SoftwareInterrupt => Arm7tdmi {
                bus: after_read(self.bus, self.swi_address() as usize),
                ..self
            },
            ExceptionType::UndefinedInstruction => self,
        }
    }

    /// `new` is `self` after entering exception `e` that returns to `ret`:
    /// the core goes to ARM state and to the exception's mode (swapping the
    /// banked registers), the link register takes the return address, the
    /// SPSR the CPSR as it was, IRQs are disabled, the program counter
    /// jumps to the vector and the pipeline is emptied.
    pub open spec fn exception_entered(self, new: Self, e: ExceptionType, ret: u32) -> bool {
        exists|swapped: Arm7tdmi|
            #[trigger] Arm7tdmi { cpsr: self.cpsr.with_flag(5, false), ..self }.mode_swapped(
                swapped,
                exception_mode(e),
            ) && {
                &&& new.registers.0@ == swapped.registers.0@.update(14, ret).update(
                    15,
                    exception_vector(e),
                )
                &&& new.cpsr == swapped.cpsr.with_flag(7, true)
                &&& new.spsr == self.cpsr
                &&& new.register_bank == swapped.register_bank
                &&& new.bus == swapped.bus
                &&& new.fetched_arm is None
                &&& new.decoded_arm is None
                &&& new.current_cycle == self.current_cycle
            }
    }

    /// `new` and the outcome `r` after exception `e`: an SWI whose BIOS
    /// call is emulated runs it (ArcTan2 waits for the host's angle and
    /// changes nothing); any other exception, and an SWI that is not
    /// emulated, is entered.
    pub open spec fn exception_handled(self, new: Self, e: ExceptionType, r: Option<ArcTan2Request>) -> bool {
        let ret = self.exception_return(e);
        let read = self.exception_read(e);
        if e == ExceptionType::SoftwareInterrupt {
            let n = self.swi_number();
            let request = ArcTan2Request { x: self.reg(0), y: self.reg(1), old_cpsr: self.cpsr, return_addr: ret };
            match swi_outcome(n, request) {
                SwiOutcome::Handled => r is None && read.swi_hle_done(new, n, self.cpsr, ret),
                SwiOutcome::ArcTan2(q) => r == Some(q) && new == read,
                SwiOutcome::Bios => r is None && read.exception_entered(new, e, ret),
            }
        } else {
            r is None && read.exception_entered(new, e, ret)
        }
    }

    /// What taking exception `e` asks: a mode to leave, a program counter
    /// past the instruction, room on the access counter, and what the BIOS
    /// call of an SWI asks.
    pub open spec fn exception_allowed(self, e: ExceptionType) -> bool {
        &&& is_mode_code(self.cpsr.mode_bits())
        &&& self.reg(15) >= if self.cpsr.flag(5) {
            4u32
        } else {
            8u32
        }
        &&& self.bus.wf()
        &&& self.bus.cycles() < u128::MAX - 0x200_0000
        &&& e == ExceptionType::SoftwareInterrupt ==> self.exception_read(e).swi_hle_allowed(
            self.swi_number(),
        )
    }

    /// Takes exception `e`: see [`Arm7tdmi::exception_handled`].
    fn handle_exception(&mut self, exception_type: ExceptionType) -> (r: Option<ArcTan2Request>)
        requires
            old(self).exception_allowed(exception_type),
        ensures
            old(self).exception_handled(*final(self), exception_type, r),
            final(self).bus.wf(),
            final(self).bus.cycles() <= old(self).bus.cycles() + 0x80_0001,
    {
        proof {
            reveal(bus_word);
        }
        let next_ins = exception_type.next_instruction_func(
            self.cpsr.cpu_state(),
            self.registers.program_counter(),
        );
        let old_cpsr = self.cpsr;

        // An IRQ reads the handler address that the BIOS keeps; the vector
        // is taken all the same.
        if exception_type == ExceptionType::Irq {
            let _handler_addr = self.bus.read_word(0x0300_7FFC);
        }
        // An SWI whose BIOS call is emulated is run here.
        if exception_type == ExceptionType::SoftwareInterrupt {
            let swi_num = match old_cpsr.cpu_state() {
                // In Thumb state the call number is the comment byte.
                CpuState::Thumb => {
                    let swi_pc = (next_ins as u32).wrapping_sub(2);
                    self.bus.read_byte(swi_pc as usize) as u32
                },
                // In ARM state the BIOS only looks at the low byte.
                CpuState::Arm => {
                    let swi_pc = (next_ins as u32).wrapping_sub(4);
                    let swi_instr = self.bus.read_word(swi_pc as usize);
                    swi_instr & 0xFF
                },
            };
            match self.handle_swi_hle(swi_num, old_cpsr, next_ins as u32) {
                SwiOutcome::Handled => {
                    return None;
                },
                SwiOutcome::ArcTan2(request) => {
                    return Some(request);
                },
                SwiOutcome::Bios => {},
            }
        }
        let ghost read = *self;

        // Every exception is handled in ARM state.
        self.cpsr.set_cpu_state(CpuState::Arm);
        proof {
            lemma_high_flag_keeps_mode(read.cpsr, 5, false);
        }
        let ghost arm = *self;
        self.swap_mode(exception_type.mode());

        // The link register takes the return address; the mode to return
        // to is in the SPSR.
        self.registers.set_register_at(14, next_ins as u32);
        self.spsr = old_cpsr;
        self.cpsr.set_irq_disable(true);
        let new_pc = exception_type.address() as u32;
        self.registers.set_program_counter(new_pc);
        self.flush_pipeline();
        proof {
            assert(arm == Arm7tdmi { cpsr: read.cpsr.with_flag(5, false), ..read });
        }
        None
    }

    /// `new` is `self` after SWP or SWPB: the word (rotated, for a
    /// misaligned address) or the byte at the address in `rn` goes to
    /// `rd`, and `rm` as it was is written in its place.
    pub open spec fn data_swapped(self, new: Self, byte: bool, rn: u32, rd: u32, rm: u32) -> bool {
        let address = self.reg(rn as int) as usize;
        let v = self.reg(rm as int);
        let read = self.bus_after_read(address);
        &&& if byte {
            &&& byte_write_step(read, new.bus, address, v as u8)
            &&& new.registers.0@ == self.registers.0@.update(
                rd as int,
                self.bus.byte_at(bus_address(address)) as u32,
            )
        } else {
            &&& word_written(read, new.bus, address as u32, v)
            &&& new.registers.0@ == self.registers.0@.update(rd as int, self.loaded_word(address))
        }
        &&& new.cpsr == self.cpsr
        &&& new.spsr == self.spsr
        &&& new.register_bank == self.register_bank
        &&& new.fetched_arm == self.fetched_arm
        &&& new.decoded_arm == self.decoded_arm
        &&& new.current_cycle == self.current_cycle
    }

    /// Executes SWP or SWPB.
    fn single_data_swap(&mut self, byte: bool, rn: u32, rd: u32, rm: u32)
        requires
            rn < 16,
            rd < 16,
            rm < 16,
            old(self).bus.wf(),
            old(self).bus.cycles() < u128::MAX - 2,
        ensures
            old(self).data_swapped(*final(self), byte, rn, rd, rm),
    {
        let address = address_index(self.registers.register_at(register_index(rn)));
        let rm_value = self.registers.register_at(register_index(rm));

        if byte {
            let old_value = self.bus.read_byte(address) as u32;
            self.bus.write_byte(address, rm_value as u8);
            self.registers.set_register_at(register_index(rd), old_value);
        } else {
            let old_value = self.read_word(address);
            self.bus.write_word(address, rm_value);
            self.registers.set_register_at(register_index(rd), old_value);
        }
    }
}


impl Arm7tdmi {
    /// Whether the flags let `op_code` run.
    pub open spec fn condition_passes(self, op_code: ArmModeOpcode) -> bool {
        condition_holds(
            op_code.condition,
            self.cpsr.flag(31),
            self.cpsr.flag(30),
            self.cpsr.flag(29),
            self.cpsr.flag(28),
        )
    }

    /// What an instruction asks of the core to run: register numbers below
    /// 16 (R15 excluded where the instruction cannot take it), results that
    /// fit in 32 bits where the core computes them unwrapped, a mode to
    /// leave where the mode changes, a well-formed bus with room on its
    /// access counter, and, for an exception, what taking it asks.
    pub open spec fn arm_runnable(self, op_code: ArmModeOpcode) -> bool {
        let bus_ok = self.bus.wf() && self.bus.cycles() < u128::MAX - 16;
        !self.condition_passes(op_code) || match op_code.instruction {
            ArmModeInstruction::DataProcessing {
                alu_instruction,
                set_conditions,
                op_kind,
                rn,
                destination,
                ..
            } => {
                &&& rn < 16
                &&& destination < 16
                &&& rn == 15 ==> self.reg(15) + pc_offset(op_kind, flag(op_code.raw, 4)) <= u32::MAX
                &&& self.operand_fits(op_kind, field(op_code.raw, 0, 11))
                &&& set_conditions && destination == 15 ==> is_mode_code(self.cpsr.mode_bits())
                    && mode_of(self.cpsr.mode_bits()) != Mode::User
            },
            ArmModeInstruction::PSRTransfer { kind, .. } => {
                &&& is_mode_code(self.cpsr.mode_bits())
                &&& kind matches PsrOpKind::Mrs { destination_register } ==> destination_register < 15
                &&& kind matches PsrOpKind::Msr { source_register } ==> source_register < 15
                &&& kind matches PsrOpKind::MsrFlg { operand, .. } ==> (operand matches AluSecondOperandInfo::Register {
                    register,
                    ..
                } ==> register < 16)
            },
            ArmModeInstruction::Multiply {
                rd_destination_register,
                rn_accumulate_register,
                rs_operand_register,
                rm_operand_register,
                ..
            } => rd_destination_register < 16 && rn_accumulate_register < 16 && rs_operand_register < 16
                && rm_operand_register < 16,
            ArmModeInstruction::MultiplyLong {
                rdhi_destination_register,
                rdlo_destination_register,
                rs_operand_register,
                rm_operand_register,
                ..
            } => rdhi_destination_register < 16 && rdlo_destination_register < 16
                && rs_operand_register < 16 && rm_operand_register < 16,
            ArmModeInstruction::SingleDataSwap { rn, rd, rm, .. } => rn < 16 && rd < 16 && rm < 16
                && bus_ok,
            ArmModeInstruction::BranchAndExchange { register, .. } => register < 16,
            ArmModeInstruction::HalfwordDataTransfer {
                indexing,
                write_back,
                load_store_kind,
                offset_kind,
                base_register,
                source_destination_register,
                ..
            } => {
                &&& base_register < 16
                &&& source_destination_register < 16
                &&& offset_kind matches HalfwordDataTransferOffsetKind::Register { register }
                    ==> register < 16
                &&& base_register == 15 ==> !write_back && indexing != Indexing::Post
                &&& load_store_kind == LoadStoreKind::Store && source_destination_register == 15
                    ==> self.reg(15) <= u32::MAX - 4
                &&& bus_ok
            },
            ArmModeInstruction::SingleDataTransfer { kind, rd, base_register, offset_info, .. } => {
                &&& rd < 16
                &&& base_register < 16
                &&& offset_info matches SingleDataTransferOffsetInfo::RegisterImmediate {
                    reg_offset,
                    ..
                } ==> reg_offset < 16
                &&& kind != SingleDataTransferKind::Pld
                &&& kind == SingleDataTransferKind::Str && rd == 15 ==> self.reg(15) <= u32::MAX - 4
                &&& bus_ok
            },
            ArmModeInstruction::Undefined => self.exception_allowed(
                ExceptionType::UndefinedInstruction,
            ),
            ArmModeInstruction::BlockDataTransfer {
                offsetting,
                write_back,
                load_store,
                rn,
                register_list,
                ..
            } => {
                &&& rn < 16
                &&& bus_ok
                &&& load_store == LoadStoreKind::Store && (listed(register_list, 15) || register_list
                    == 0) ==> self.store_sources(rn, register_list, write_back, offsetting)[15]
                    <= u32::MAX - 4
            },
            ArmModeInstruction::Branch { offset, .. } => i32::MIN <= signed32(self.reg(15))
                + branch_offset(offset) <= i32::MAX,
            ArmModeInstruction::SoftwareInterrupt => self.exception_allowed(
                ExceptionType::SoftwareInterrupt,
            ),
            _ => true,
        }
    }

    /// `new` and the outcome `r` after executing `op_code`: nothing when its
    /// condition fails; otherwise what the instruction does, the
    /// coprocessor instructions doing nothing (there is no coprocessor).
    pub open spec fn arm_executed(self, new: Self, op_code: ArmModeOpcode, r: Option<ArcTan2Request>) -> bool {
        if !self.condition_passes(op_code) {
            new == self && r is None
        } else {
            match op_code.instruction {
                ArmModeInstruction::SoftwareInterrupt => self.exception_handled(
                    new,
                    ExceptionType::SoftwareInterrupt,
                    r,
                ),
                ArmModeInstruction::Undefined => self.exception_handled(
                    new,
                    ExceptionType::UndefinedInstruction,
                    r,
                ),
                _ => r is None && match op_code.instruction {
                    ArmModeInstruction::DataProcessing {
                        alu_instruction,
                        set_conditions,
                        op_kind,
                        rn,
                        destination,
                        ..
                    } => exists|mid: Self, after: Self|
                        #[trigger] self.data_processing_steps(
                            mid,
                            after,
                            new,
                            op_code,
                            alu_instruction,
                            set_conditions,
                            op_kind,
                            rn,
                            destination,
                        ),
                    ArmModeInstruction::PSRTransfer { psr_kind, kind, .. } => self.psr_transferred(
                        new,
                        kind,
                        psr_kind,
                    ),
                    ArmModeInstruction::Multiply {
                        variant,
                        should_set_codes,
                        rd_destination_register,
                        rn_accumulate_register,
                        rs_operand_register,
                        rm_operand_register,
                        ..
                    } => self.multiplied(
                        new,
                        variant,
                        should_set_codes,
                        rd_destination_register,
                        rn_accumulate_register,
                        rs_operand_register,
                        rm_operand_register,
                    ),
                    ArmModeInstruction::MultiplyLong {
                        variant,
                        should_set_codes,
                        rdhi_destination_register,
                        rdlo_destination_register,
                        rs_operand_register,
                        rm_operand_register,
                        ..
                    } => self.multiplied_long(
                        new,
                        variant,
                        should_set_codes,
                        rdhi_destination_register,
                        rdlo_destination_register,
                        rs_operand_register,
                        rm_operand_register,
                    ),
                    ArmModeInstruction::SingleDataSwap { byte, rn, rd, rm, .. } => self.data_swapped(
                        new,
                        byte,
                        rn,
                        rd,
                        rm,
                    ),
                    ArmModeInstruction::BranchAndExchange { register, .. } => self.exchanged(
                        new,
                        register as int,
                    ),
                    ArmModeInstruction::HalfwordDataTransfer {
                        indexing,
                        offsetting,
                        write_back,
                        load_store_kind,
                        offset_kind,
                        base_register,
                        source_destination_register,
                        transfer_kind,
                        ..
                    } => self.half_word_transferred(
                        new,
                        indexing,
                        offsetting,
                        write_back,
                        load_store_kind,
                        offset_kind,
                        base_register,
                        source_destination_register,
                        transfer_kind,
                    ),
                    ArmModeInstruction::SingleDataTransfer {
                        kind,
                        quantity,
                        write_back,
                        indexing,
                        rd,
                        base_register,
                        offset_info,
                        offsetting,
                        ..
                    } => self.single_data_transferred(
                        new,
                        kind,
                        quantity,
                        write_back,
                        indexing,
                        rd,
                        base_register,
                        offset_info,
                        offsetting,
                    ),
                    ArmModeInstruction::BlockDataTransfer {
                        indexing,
                        offsetting,
                        load_psr,
                        write_back,
                        load_store,
                        rn,
                        register_list,
                        ..
                    } => self.block_transferred(
                        new,
                        indexing,
                        offsetting,
                        load_psr,
                        write_back,
                        load_store,
                        rn,
                        register_list,
                    ),
                    ArmModeInstruction::Branch { link, offset, .. } => self.branched(
                        new,
                        link,
                        offset,
                    ),
                    _ => new == self,
                },
            }
        }
    }

    /// Executes `op_code` when its condition holds.
    #[verifier::rlimit(40)]
    pub fn execute_arm(&mut self, op_code: ArmModeOpcode) -> (r: Option<ArcTan2Request>)
        requires
            old(self).arm_runnable(op_code),
        ensures
            old(self).arm_executed(*final(self), op_code, r),
            old(self).bus.wf() ==> final(self).bus.wf(),
            final(self).bus.cycles() <= old(self).bus.cycles() + 0x100_0000,
    {
        let can_execute = self.cpsr.can_execute(op_code.condition);
        if !can_execute {
            return None;
        }
        match op_code.instruction {
            ArmModeInstruction::DataProcessing {
                condition: _,
                alu_instruction,
                set_conditions,
                op_kind,
                rn,
                destination,
                op2: _,
            } => {
                self.data_processing(
                    op_code,
                    alu_instruction,
                    set_conditions,
                    op_kind,
                    rn,
                    destination,
                );
                None
            },
            ArmModeInstruction::PSRTransfer { psr_kind, kind, .. } => {
                self.psr_transfer(kind, psr_kind);
                None
            },
            ArmModeInstruction::Multiply {
                variant,
                should_set_codes,
                rd_destination_register,
                rn_accumulate_register,
                rm_operand_register,
                rs_operand_register,
                ..
            } => {
                self.multiply(
                    variant,
                    should_set_codes,
                    rd_destination_register,
                    rn_accumulate_register,
                    rs_operand_register,
                    rm_operand_register,
                );
                None
            },
            ArmModeInstruction::MultiplyLong {
                variant,
                should_set_codes,
                rdhi_destination_register,
                rdlo_destination_register,
                rm_operand_register,
                rs_operand_register,
                ..
            } => {
                self.multiply_long(
                    variant,
                    should_set_codes,
                    rdhi_destination_register,
                    rdlo_destination_register,
                    rs_operand_register,
                    rm_operand_register,
                );
                None
            },
            ArmModeInstruction::SingleDataSwap { condition: _, byte, rn, rd, rm } => {
                self.single_data_swap(byte, rn, rd, rm);
                None
            },
            ArmModeInstruction::BranchAndExchange { condition: _, register } => {
                self.branch_and_exchange(register);
                None
            },
            ArmModeInstruction::HalfwordDataTransfer {
                condition: _,
                indexing,
                offsetting,
                write_back,
                load_store_kind,
                offset_kind,
                base_register,
                source_destination_register,
                transfer_kind,
            } => {
                self.half_word_data_transfer(
                    indexing,
                    offsetting,
                    write_back,
                    load_store_kind,
                    offset_kind,
                    base_register,
                    source_destination_register,
                    transfer_kind,
                );
                None
            },
            ArmModeInstruction::SingleDataTransfer {
                condition: _,
                kind,
                quantity,
                write_back,
                indexing,
                rd,
                base_register,
                offset_info,
                offsetting,
            } => {
                self.single_data_transfer(
                    kind,
                    quantity,
                    write_back,
                    indexing,
                    rd,
                    base_register,
                    offset_info,
                    offsetting,
                );
                None
            },
            ArmModeInstruction::Undefined => self.handle_exception(
                ExceptionType::UndefinedInstruction,
            ),
            ArmModeInstruction::BlockDataTransfer {
                condition: _,
                indexing,
                offsetting,
                load_psr,
                write_back,
                load_store,
                rn,
                register_list,
            } => {
                self.block_data_transfer(
                    indexing,
                    offsetting,
                    load_psr,
                    write_back,
                    load_store,
                    rn,
                    register_list,
                );
                None
            },
            ArmModeInstruction::Branch { condition: _, link, offset } => {
                self.branch(link, offset);
                None
            },
            // There is no coprocessor: its instructions do nothing.
            ArmModeInstruction::CoprocessorDataTransfer { .. } => None,
            ArmModeInstruction::CoprocessorDataOperation => None,
            ArmModeInstruction::CoprocessorRegisterTransfer => None,
            ArmModeInstruction::SoftwareInterrupt => self.handle_exception(
                ExceptionType::SoftwareInterrupt,
            ),
        }
    }

    /// Decodes an ARM opcode.
    pub fn decode(op_code: u32) -> (r: ArmModeOpcode)
        ensures
            r == decode_opcode(op_code),
    {
        ArmModeOpcode::from(op_code)
    }

    /// Fetches the ARM opcode at the program counter, rounded down to a
    /// word; the bus records the program counter for the BIOS read
    /// protection, and an opcode fetched from BIOS as the last one.
    pub fn fetch_arm(&mut self) -> (r: u32)
        requires
            old(self).bus.wf(),
            old(self).bus.cycles() < u128::MAX,
        ensures
            ({
                let pc = old(self).reg(15) & 0xFFFF_FFFC;
                let b1 = Bus { current_pc: pc as usize, ..old(self).bus };
                &&& r == bus_word(b1, pc as usize)
                &&& final(self).bus == if pc < 0x4000 {
                    Bus { last_bios_opcode: r, ..after_read(b1, pc as usize) }
                } else {
                    after_read(b1, pc as usize)
                }
            }),
            *final(self) == (Arm7tdmi { bus: final(self).bus, ..*old(self) }),
    {
        proof {
            reveal(bus_word);
        }
        // An ARM opcode is word-aligned: bits 0 and 1 are cleared.
        let pc = (self.registers.program_counter() as u32) & 0xFFFF_FFFC;

        // The BIOS read protection looks at the program counter.
        self.bus.set_current_pc(pc as usize);

        let opcode = self.bus.read_word(pc as usize);

        // An opcode fetched from BIOS is what BIOS reads give once the
        // program counter has left it.
        if (pc as usize) < 0x4000 {
            self.bus.set_last_bios_opcode(opcode);
        }

        opcode
    }

    /// Fetches the Thumb opcode at the program counter, rounded down to a
    /// halfword; the bus records the program counter for the BIOS read
    /// protection, and an opcode fetched from BIOS as the last one.
    pub fn fetch_thumb(&mut self) -> (r: u16)
        requires
            old(self).bus.wf(),
            old(self).bus.cycles() < u128::MAX,
        ensures
            ({
                let pc = old(self).reg(15) & 0xFFFF_FFFE;
                let b1 = Bus { current_pc: pc as usize, ..old(self).bus };
                &&& r == bus_half_word(b1, pc as usize)
                &&& final(self).bus == if pc < 0x4000 {
                    Bus { last_bios_opcode: r as u32, ..after_read(b1, pc as usize) }
                } else {
                    after_read(b1, pc as usize)
                }
            }),
            *final(self) == (Arm7tdmi { bus: final(self).bus, ..*old(self) }),
    {
        // A Thumb opcode is halfword-aligned: bit 0 is cleared.
        let pc = (self.registers.program_counter() as u32) & 0xFFFF_FFFE;

        // The BIOS read protection looks at the program counter.
        self.bus.set_current_pc(pc as usize);

        let opcode = self.bus.read_half_word(pc as usize);

        // An opcode fetched from BIOS is what BIOS reads give once the
        // program counter has left it.
        if (pc as usize) < 0x4000 {
            self.bus.set_last_bios_opcode(opcode as u32);
        }

        opcode
    }

    /// The core after the first half of a step in ARM state: the cycle
    /// counter moves on, the fetched opcode moves to the decode stage, and
    /// the opcode at the program counter is fetched.
    pub open spec fn arm_refilled(self) -> Self {
        let pc = self.reg(15) & 0xFFFF_FFFC;
        let b1 = Bus { current_pc: pc as usize, ..self.bus };
        let opcode = bus_word(b1, pc as usize);
        Arm7tdmi {
            bus: if pc < 0x4000 {
                Bus { last_bios_opcode: opcode, ..after_read(b1, pc as usize) }
            } else {
                after_read(b1, pc as usize)
            },
            current_cycle: (self.current_cycle + 1) as u128,
            decoded_arm: match self.fetched_arm {
                Some(w) => Some(decode_opcode(w)),
                None => None,
            },
            fetched_arm: Some(opcode),
            ..self
        }
    }

    /// Whether an IRQ is taken before the next instruction: the I flag is
    /// clear, and the bus holds an enabled, requested interrupt while the
    /// master enable is on.
    pub open spec fn irq_taken(self) -> bool {
        &&& !self.cpsr.flag(7)
        &&& self.bus.interrupt_control.interrupt_master_enable == 1
        &&& self.bus.interrupt_control.interrupt_enable & self.bus.interrupt_control.interrupt_request
            != 0
    }

    /// `new` is `self`, just past an instruction of a step in ARM state,
    /// with its pipeline settled: a switch to Thumb state empties the
    /// pipeline, an emptied pipeline loses its decoded opcode too, and
    /// while the pipeline holds an opcode the program counter moves on to
    /// the next word.
    pub open spec fn arm_settled(self, new: Self) -> bool {
        let e = if self.cpsr.flag(5) {
            Arm7tdmi { fetched_arm: None, decoded_arm: None, ..self }
        } else {
            self
        };
        if e.fetched_arm is None {
            new == Arm7tdmi { decoded_arm: None, ..e }
        } else {
            &&& new.registers.0@ == e.registers.0@.update(15, ((e.reg(15) + 4) as u32) & 0xFFFF_FFFC)
            &&& new == Arm7tdmi { registers: new.registers, ..e }
        }
    }

    /// `new` and the outcome `r` after a step in ARM state: the pipeline
    /// is refilled; then, if it held a decoded opcode, a pending IRQ is
    /// taken in its place when the I flag lets it, or else the opcode runs
    /// and the pipeline settles. An ArcTan2 call stops the step where the
    /// call was made: the host's angle completes it.
    pub open spec fn arm_stepped(self, new: Self, r: Option<ArcTan2Request>) -> bool {
        let s = self.arm_refilled();
        match self.decoded_arm {
            None => r is None && s.arm_settled(new),
            Some(d) => if s.irq_taken() {
                s.exception_handled(new, ExceptionType::Irq, r)
            } else {
                exists|e: Self|
                    #[trigger] s.arm_executed(e, d, r) && if r is None {
                        e.arm_settled(new)
                    } else {
                        new == e
                    }
            },
        }
    }

    /// What a step in ARM state asks: ARM state, a well-formed bus with
    /// room on its access counter, room on the cycle counter, what taking
    /// the IRQ or running the decoded opcode asks, and a program counter
    /// that can move on by a word without passing 2^32.
    pub open spec fn arm_step_allowed(self) -> bool {
        let s = self.arm_refilled();
        &&& !self.cpsr.flag(5)
        &&& self.bus.wf()
        &&& self.bus.cycles() < u128::MAX
        &&& self.current_cycle < u128::MAX
        &&& match self.decoded_arm {
            None => self.reg(15) + 4 <= u32::MAX,
            Some(d) => if s.irq_taken() {
                s.exception_allowed(ExceptionType::Irq)
            } else {
                &&& s.arm_runnable(d)
                &&& forall|e: Self|
                    #[trigger] s.arm_executed(e, d, None) && !e.cpsr.flag(5)
                        && e.fetched_arm is Some ==> e.reg(15) + 4 <= u32::MAX
            },
        }
    }

    /// One step of the pipeline in ARM state: see [`Arm7tdmi::arm_stepped`].
    /// The peripherals (timers, LCD) are not stepped here: this library has
    /// no timer or LCD engine.
    pub fn step_arm(&mut self) -> (r: Option<ArcTan2Request>)
        requires
            old(self).arm_step_allowed(),
        ensures
            old(self).arm_stepped(*final(self), r),
    {
        self.current_cycle = self.current_cycle + 1;
        let initial_mode = self.cpsr.cpu_state();
        let to_execute = self.decoded_arm;

        // The fetched opcode moves to the decode stage.
        self.decoded_arm = match self.fetched_arm {
            Some(w) => Some(Self::decode(w)),
            None => None,
        };

        // A new opcode enters the pipeline.
        let fetched = self.fetch_arm();
        self.fetched_arm = Some(fetched);
        let ghost s = *self;
        proof {
            assert(s == old(self).arm_refilled());
        }

        if let Some(decoded) = to_execute {
            if !self.cpsr.irq_disable() && self.bus.is_irq_pending() {
                return self.handle_exception(ExceptionType::Irq);
            }
            let r = self.execute_arm(decoded);
            if r.is_some() {
                // The host's angle completes the call.
                return r;
            }
            let ghost e = *self;

            // A switch of instruction set empties the whole pipeline.
            if self.cpsr.cpu_state() != initial_mode {
                self.flush_pipeline();
            }
            // An emptied pipeline loses its decoded opcode too.
            if self.fetched_arm.is_none() {
                self.decoded_arm = None;
            }
            proof {
                assert(s.arm_executed(e, decoded, r));
            }
        }

        // While the pipeline holds an opcode, the program counter moves on
        // to the next word.
        if self.fetched_arm.is_some() {
            let new_pc = ((self.registers.program_counter() as u32) + 4) & 0xFFFF_FFFC;
            self.registers.set_program_counter(new_pc);
        }
        None
    }
}


impl Arm7tdmi {
    /// Sets the stack pointers of IRQ, Supervisor and System mode as the
    /// BIOS does (0x03007FA0, 0x03007FE0, 0x03007F00), going through each
    /// mode in turn, and returns to Supervisor mode, the mode of a core
    /// just made.
    fn initialize_stack_pointers(&mut self)
        requires
            old(self).cpsr.mode_bits() == Mode::Supervisor.code(),
            forall|i: int| 0 <= i < 16 ==> old(self).registers.0@[i] == 0,
            old(self).register_bank == RegisterBank::default_spec(),
            old(self).spsr == Psr(Mode::Supervisor.code()),
        ensures
            final(self).registers.0@ == Seq::new(
                16,
                |i: int|
                    if i == 13 {
                        0x0300_7FE0u32
                    } else {
                        0u32
                    },
            ),
            final(self).register_bank == (RegisterBank {
                r13_svc: 0x0300_7FE0,
                spsr_svc: Psr(Mode::Supervisor.code()),
                r13_irq: 0x0300_7FA0,
                r13_old: 0x0300_7F00,
                ..RegisterBank::default_spec()
            }),
            final(self).spsr == Psr(Mode::Supervisor.code()),
            final(self).cpsr == old(self).cpsr,
            final(self).bus == old(self).bus,
            final(self).fetched_arm == old(self).fetched_arm,
            final(self).decoded_arm == old(self).decoded_arm,
            final(self).current_cycle == old(self).current_cycle,
    {
        let ghost c = old(self).cpsr;
        let current_mode = self.cpsr.mode();
        proof {
            lemma_mode_of_code(current_mode);
            lemma_mode_of_code(Mode::Irq);
            lemma_mode_of_code(Mode::Supervisor);
            lemma_mode_of_code(Mode::System);
        }
        // IRQ mode.
        self.swap_mode(Mode::Irq);
        proof {
            lemma_with_mode_bits(c, Mode::Irq);
        }
        self.registers.set_register_at(13, 0x0300_7FA0);

        // Supervisor mode.
        self.swap_mode(Mode::Supervisor);
        proof {
            lemma_with_mode_bits(c.with_mode_bits(Mode::Irq.code()), Mode::Supervisor);
        }
        self.registers.set_register_at(13, 0x0300_7FE0);

        // System mode.
        self.swap_mode(Mode::System);
        proof {
            lemma_with_mode_bits(
                c.with_mode_bits(Mode::Irq.code()).with_mode_bits(Mode::Supervisor.code()),
                Mode::System,
            );
        }
        self.registers.set_register_at(13, 0x0300_7F00);

        // Back to the mode the core was in.
        self.swap_mode(current_mode);
        proof {
            lemma_mode_bits_overwrite(c, Mode::Irq.code(), Mode::Supervisor.code());
            lemma_mode_bits_overwrite(c, Mode::Supervisor.code(), Mode::System.code());
            lemma_mode_bits_overwrite(c, Mode::System.code(), Mode::Supervisor.code());
            lemma_mode_bits_overwrite(c, 0, 0);
            assert(self.registers.0@ =~= Seq::new(
                16,
                |i: int|
                    if i == 13 {
                        0x0300_7FE0u32
                    } else {
                        0u32
                    },
            ));
        }
    }

    /// A core on `bus`, in ARM state and Supervisor mode with interrupts
    /// disabled, every register zero but the stack pointers, which are where
    /// the BIOS puts them: R13 of Supervisor mode (the current one), of IRQ
    /// mode and of System mode.
    pub fn new(bus: Bus) -> (r: Self)
        ensures
            r.bus == bus,
            r.cpsr == Psr(Mode::Supervisor.code()).with_flag(5, false).with_flag(7, true).with_flag(
                6,
                true,
            ),
            r.spsr == Psr(Mode::Supervisor.code()),
            r.registers.0@ == Seq::new(16, |i: int| if i == 13 { 0x0300_7FE0u32 } else { 0u32 }),
            r.register_bank == (RegisterBank {
                r13_svc: 0x0300_7FE0,
                spsr_svc: Psr(Mode::Supervisor.code()),
                r13_irq: 0x0300_7FA0,
                r13_old: 0x0300_7F00,
                ..RegisterBank::default_spec()
            }),
            r.fetched_arm is None,
            r.decoded_arm is None,
            r.current_cycle == 0,
    {
        let d = Arm7tdmi::default();
        let mut cpu = Arm7tdmi {
            bus,
            cpsr: d.cpsr,
            spsr: d.spsr,
            registers: d.registers,
            register_bank: d.register_bank,
            fetched_arm: None,
            decoded_arm: None,
            current_cycle: d.current_cycle,
        };
        proof {
            let p = Psr(Mode::Supervisor.code());
            lemma_high_flag_keeps_mode(p, 5, false);
            lemma_high_flag_keeps_mode(p.with_flag(5, false), 7, true);
            lemma_high_flag_keeps_mode(p.with_flag(5, false).with_flag(7, true), 6, true);
            lemma_mode_of_code(Mode::Supervisor);
            lemma_with_mode_bits(p, Mode::Supervisor);
        }
        // The stack pointers of the modes the BIOS sets up.
        cpu.initialize_stack_pointers();
        cpu
    }
}


/// SWP exchanges a register with memory: after a word swap at a
/// word-aligned address whose bytes keep what is written (work RAM, video
/// memories, most I/O registers), the word there is the source register as
/// it was, and the destination register holds the word that was there.
pub proof fn lemma_swap_exchanges(s: Arm7tdmi, t: Arm7tdmi, rn: u32, rd: u32, rm: u32)
    requires
        s.bus.wf(),
        s.data_swapped(t, false, rn, rd, rm),
        rd < 16,
        s.reg(rn as int) % 4 == 0,
        s.reg(rn as int) <= 0xFFFF_FFFC,
        keeps_writes(s.reg(rn as int) as usize),
        keeps_writes((s.reg(rn as int) + 1) as usize),
        keeps_writes((s.reg(rn as int) + 2) as usize),
        keeps_writes((s.reg(rn as int) + 3) as usize),
    ensures
        bus_word(t.bus, s.reg(rn as int) as usize) == s.reg(rm as int),
        t.reg(rd as int) == bus_word(s.bus, s.reg(rn as int) as usize),
{
    reveal(bus_word);
    let a = s.reg(rn as int) as usize;
    let read = s.bus_after_read(a);
    assert(word_aligned(a) == a);
    lemma_word_write_then_read(read, t.bus, a, s.reg(rm as int));
    lemma_bus_address_small(a);
    lemma_bus_address_small((a + 1) as usize);
    lemma_bus_address_small((a + 2) as usize);
    lemma_bus_address_small((a + 3) as usize);
    assert(t.registers.0@[rd as int] == s.loaded_word(a));
    assert((a % 4) * 8 == 0);
}


/// Returning from an IRQ or an undefined instruction with MOVS PC undoes
/// taking it: the CPSR is the one the exception interrupted and every
/// register but the program counter is as it was; the program counter is
/// the operand of the MOVS, which for MOVS PC, LR is the return address the
/// exception saved in the link register. (The mode interrupted must differ
/// from the exception's, or the exception's link register is its own.)
pub proof fn lemma_exception_return(
    s: Arm7tdmi,
    t: Arm7tdmi,
    mid: Arm7tdmi,
    after: Arm7tdmi,
    u: Arm7tdmi,
    e: ExceptionType,
    op_code: ArmModeOpcode,
    op_kind: OperandKind,
    rn: u32,
)
    requires
        e == ExceptionType::Irq || e == ExceptionType::UndefinedInstruction,
        is_mode_code(s.cpsr.mode_bits()),
        mode_of(s.cpsr.mode_bits()) != exception_mode(e),
        s.exception_read(e).exception_entered(t, e, s.exception_return(e)),
        t.data_processing_steps(mid, after, u, op_code, ArmModeAluInstr::Mov, true, op_kind, rn, 15),
    ensures
        t.reg(14) == s.exception_return(e),
        u.cpsr == s.cpsr,
        u.registers.0@ == s.registers.0@.update(
            15,
            t.operand_spec(ArmModeAluInstr::Mov, true, op_kind, field(op_code.raw, 0, 11)).0,
        ),
{
    let r = s.exception_read(e);
    let a = Arm7tdmi { cpsr: r.cpsr.with_flag(5, false), ..r };
    let m = exception_mode(e);
    let ret = s.exception_return(e);
    let sw = choose|sw: Arm7tdmi|
        #[trigger] a.mode_swapped(sw, m) && {
            &&& t.registers.0@ == sw.registers.0@.update(14, ret).update(15, exception_vector(e))
            &&& t.cpsr == sw.cpsr.with_flag(7, true)
            &&& t.spsr == r.cpsr
            &&& t.register_bank == sw.register_bank
            &&& t.bus == sw.bus
            &&& t.fetched_arm is None
            &&& t.decoded_arm is None
            &&& t.current_cycle == r.current_cycle
        };
    lemma_high_flag_keeps_mode(r.cpsr, 5, false);
    lemma_mode_of_code(m);
    lemma_with_mode_bits(a.cpsr, m);
    lemma_high_flag_keeps_mode(sw.cpsr, 7, true);
    lemma_flag_writes_keep_mode();
    let op2 = t.operand_spec(ArmModeAluInstr::Mov, true, op_kind, field(op_code.raw, 0, 11)).0;
    assert(mid.registers.0@ =~= sw.registers.0@.update(14, ret).update(15, op2));
    assert(mode_of(mid.cpsr.mode_bits()) == m);
    let current = mode_of(s.cpsr.mode_bits());
    let sw2 = choose|sw2: Arm7tdmi|
        #[trigger] mid.mode_swapped(sw2, current) && after == (Arm7tdmi { cpsr: mid.spsr, ..sw2 });
    lemma_swap_back_after_link(a, sw, mid, sw2, m, ret, op2);
    assert(t.registers.0@[14] == ret);
}

} // verus!
