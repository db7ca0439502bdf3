use emu::bus::Bus;
use emu::cpu::arm::instructions::ArmModeInstruction;
use emu::cpu::arm7tdmi::Arm7tdmi;
use emu::cpu::cpu_modes::Mode;
use emu::cpu::psr::Psr;

/// Where the tests put code: work RAM.
const CODE: u32 = 0x0200_0100;

/// A core about to execute `op_code`, placed at `CODE` (the program counter
/// is 8 bytes ahead, as the pipeline has it).
fn core_at(op_code: u32) -> Arm7tdmi {
    let mut cpu = Arm7tdmi::default();
    cpu.bus.write_word(CODE as usize, op_code);
    cpu.registers.set_program_counter(CODE + 8);
    cpu
}

/// Runs the BIOS call `n` with R0, R1 and R2 set.
fn bios_call(n: u32, r0: u32, r1: u32, r2: u32) -> Arm7tdmi {
    let op_code = 0xEF00_0000 | n;
    let mut cpu = core_at(op_code);
    cpu.registers.set_register_at(0, r0);
    cpu.registers.set_register_at(1, r1);
    cpu.registers.set_register_at(2, r2);
    let decoded = Arm7tdmi::decode(op_code);
    assert_eq!(decoded.instruction, ArmModeInstruction::SoftwareInterrupt);
    assert!(cpu.execute_arm(decoded).is_none());
    cpu
}

#[test]
fn bios_div_rounds_towards_zero() {
    let cpu = bios_call(0x06, (-7i32) as u32, 2, 0);
    assert_eq!(cpu.registers.register_at(0) as i32, -3);
    assert_eq!(cpu.registers.register_at(1) as i32, -1);
    assert_eq!(cpu.registers.register_at(3), 3);
    // The call returns to the instruction after the SWI.
    assert_eq!(cpu.registers.program_counter(), (CODE + 4) as usize);
    assert_eq!(cpu.cpsr.mode(), Mode::Supervisor);
    // Quotient times denominator plus remainder is the numerator.
    let q = cpu.registers.register_at(0) as i32;
    let r = cpu.registers.register_at(1) as i32;
    assert_eq!(q * 2 + r, -7);
}

#[test]
fn bios_div_by_zero_gives_zeros() {
    let cpu = bios_call(0x06, 100, 0, 0);
    assert_eq!(cpu.registers.register_at(0), 0);
    assert_eq!(cpu.registers.register_at(1), 0);
    assert_eq!(cpu.registers.register_at(3), 0);
}

#[test]
fn bios_div_arm_swaps_the_operands() {
    let cpu = bios_call(0x07, 5, 23, 0);
    assert_eq!(cpu.registers.register_at(0), 4);
    assert_eq!(cpu.registers.register_at(1), 3);
    assert_eq!(cpu.registers.register_at(3), 4);
}

#[test]
fn bios_sqrt() {
    assert_eq!(bios_call(0x08, 17, 0, 0).registers.register_at(0), 4);
    assert_eq!(bios_call(0x08, 16, 0, 0).registers.register_at(0), 4);
    assert_eq!(bios_call(0x08, 0, 0, 0).registers.register_at(0), 0);
    assert_eq!(bios_call(0x08, 1, 0, 0).registers.register_at(0), 1);
    assert_eq!(bios_call(0x08, u32::MAX, 0, 0).registers.register_at(0), 0xFFFF);
}

#[test]
fn bios_arc_tan_halves_the_tangent() {
    assert_eq!(bios_call(0x09, 7, 0, 0).registers.register_at(0), 3);
    assert_eq!(bios_call(0x09, 0xFFF9, 0, 0).registers.register_at(0) as i32, -3);
    assert_eq!(bios_call(0x09, 0xFFFF, 0, 0).registers.register_at(0), 0);
}

#[test]
fn bios_arc_tan2_waits_for_the_angle() {
    let op_code = 0xEF00_000A;
    let mut cpu = core_at(op_code);
    cpu.registers.set_register_at(0, 3);
    cpu.registers.set_register_at(1, 4);
    let old_cpsr = cpu.cpsr;
    let request = cpu.execute_arm(Arm7tdmi::decode(op_code)).unwrap();
    assert_eq!(request.x, 3);
    assert_eq!(request.y, 4);
    assert_eq!(request.return_addr, CODE + 4);
    assert_eq!(request.old_cpsr, old_cpsr);
    cpu.complete_arctan2(request, 0x1_2345);
    assert_eq!(cpu.registers.register_at(0), 0x2345);
    assert_eq!(cpu.registers.program_counter(), (CODE + 4) as usize);
}

#[test]
fn bios_cpu_set_copies_halfwords() {
    let mut cpu = core_at(0xEF00_000B);
    for i in 0..4u32 {
        cpu.bus.write_half_word((0x0200_1000 + 2 * i) as usize, (0x1111 * (i + 1)) as u16);
    }
    cpu.registers.set_register_at(0, 0x0200_1000);
    cpu.registers.set_register_at(1, 0x0200_2000);
    cpu.registers.set_register_at(2, 4);
    cpu.execute_arm(Arm7tdmi::decode(0xEF00_000B));
    for i in 0..4u32 {
        assert_eq!(cpu.bus.read_half_word((0x0200_2000 + 2 * i) as usize), (0x1111 * (i + 1)) as u16);
    }
    // Only the four halfwords are written.
    assert_eq!(cpu.bus.read_half_word(0x0200_2008), 0);
}

#[test]
fn bios_cpu_set_fills_words() {
    let mut cpu = core_at(0xEF00_000B);
    cpu.bus.write_word(0x0200_1000, 0xDEAD_BEEF);
    cpu.registers.set_register_at(0, 0x0200_1000);
    cpu.registers.set_register_at(1, 0x0300_0000);
    cpu.registers.set_register_at(2, 3 | (1 << 24) | (1 << 26));
    cpu.execute_arm(Arm7tdmi::decode(0xEF00_000B));
    for i in 0..3usize {
        assert_eq!(cpu.bus.read_word(0x0300_0000 + 4 * i), 0xDEAD_BEEF);
    }
    assert_eq!(cpu.bus.read_word(0x0300_000C), 0);
}

#[test]
fn bios_cpu_fast_set_copies_words() {
    let mut cpu = core_at(0xEF00_000C);
    cpu.bus.write_word(0x0200_1000, 1);
    cpu.bus.write_word(0x0200_1004, 2);
    cpu.registers.set_register_at(0, 0x0200_1000);
    cpu.registers.set_register_at(1, 0x0200_3000);
    cpu.registers.set_register_at(2, 2);
    cpu.execute_arm(Arm7tdmi::decode(0xEF00_000C));
    assert_eq!(cpu.bus.read_word(0x0200_3000), 1);
    assert_eq!(cpu.bus.read_word(0x0200_3004), 2);
}

#[test]
fn bios_soft_reset_enters_rom_in_system_mode() {
    let mut cpu = core_at(0xEF00_0000);
    cpu.bus.write_byte(0x0300_7E10, 0x55);
    for i in 0..13usize {
        cpu.registers.set_register_at(i, 0x1234);
    }
    cpu.execute_arm(Arm7tdmi::decode(0xEF00_0000));
    for i in 0..13usize {
        assert_eq!(cpu.registers.register_at(i), 0);
    }
    assert_eq!(cpu.registers.register_at(13), 0x0300_7F00);
    assert_eq!(cpu.registers.program_counter(), 0x0800_0000);
    assert_eq!(cpu.cpsr.mode(), Mode::System);
    assert!(!cpu.cpsr.irq_disable());
    assert!(!cpu.cpsr.state_bit());
    assert_eq!(cpu.bus.read_byte(0x0300_7E10), 0);
}

#[test]
fn bios_register_ram_reset_clears_work_ram() {
    let mut cpu = core_at(0xEF00_0001);
    cpu.bus.write_byte(0x0200_0010, 0x77);
    cpu.bus.write_byte(0x0203_FF00, 0x66);
    cpu.registers.set_register_at(0, 0x01);
    cpu.execute_arm(Arm7tdmi::decode(0xEF00_0001));
    assert_eq!(cpu.bus.read_byte(0x0200_0010), 0);
    // The top 0x200 bytes of work RAM are kept.
    assert_eq!(cpu.bus.read_byte(0x0203_FF00), 0x66);
    assert_eq!(cpu.registers.program_counter(), (CODE + 4) as usize);
}

#[test]
fn bios_halt_returns_at_once() {
    let cpu = bios_call(0x02, 9, 8, 7);
    assert_eq!(cpu.registers.register_at(0), 9);
    assert_eq!(cpu.registers.program_counter(), (CODE + 4) as usize);
}

#[test]
fn unknown_bios_call_enters_supervisor_vector() {
    let op_code = 0xEF00_0020;
    let mut cpu = core_at(op_code);
    cpu.cpsr.set_mode(Mode::System);
    cpu.cpsr.set_irq_disable(false);
    let old_cpsr = cpu.cpsr;
    cpu.execute_arm(Arm7tdmi::decode(op_code));
    assert_eq!(cpu.registers.program_counter(), 0x08);
    assert_eq!(cpu.cpsr.mode(), Mode::Supervisor);
    assert!(cpu.cpsr.irq_disable());
    assert_eq!(cpu.spsr, old_cpsr);
    assert_eq!(cpu.registers.register_at(14), CODE + 4);
}

#[test]
fn undefined_instruction_enters_undefined_mode() {
    let op_code = 0xE7F0_00F0;
    let mut cpu = core_at(op_code);
    let decoded = Arm7tdmi::decode(op_code);
    assert_eq!(decoded.instruction, ArmModeInstruction::Undefined);
    let old_cpsr = cpu.cpsr;
    assert!(cpu.execute_arm(decoded).is_none());
    assert_eq!(cpu.registers.program_counter(), 0x04);
    assert_eq!(cpu.cpsr.mode(), Mode::Undefined);
    assert_eq!(cpu.spsr, old_cpsr);
    assert_eq!(cpu.registers.register_at(14), CODE + 4);
}

#[test]
fn failed_condition_changes_nothing() {
    // MOVEQ R0, #1 with Z clear.
    let op_code = 0x03A0_0001;
    let mut cpu = core_at(op_code);
    cpu.execute_arm(Arm7tdmi::decode(op_code));
    assert_eq!(cpu.registers.register_at(0), 0);
    assert_eq!(cpu.registers.program_counter(), (CODE + 8) as usize);
}

#[test]
fn swap_exchanges_register_and_memory() {
    // SWP R0, R1, [R2]
    let op_code = 0xE102_0091;
    let mut cpu = core_at(op_code);
    cpu.bus.write_word(0x0200_2000, 0xAAAA_5555);
    cpu.registers.set_register_at(1, 0x1234_5678);
    cpu.registers.set_register_at(2, 0x0200_2000);
    cpu.execute_arm(Arm7tdmi::decode(op_code));
    assert_eq!(cpu.registers.register_at(0), 0xAAAA_5555);
    assert_eq!(cpu.bus.read_word(0x0200_2000), 0x1234_5678);
}

#[test]
fn swap_byte_exchanges_one_byte() {
    // SWPB R0, R1, [R2]
    let op_code = 0xE142_0091;
    let mut cpu = core_at(op_code);
    cpu.bus.write_word(0x0200_2000, 0xAAAA_5555);
    cpu.registers.set_register_at(1, 0x1234_5678);
    cpu.registers.set_register_at(2, 0x0200_2000);
    cpu.execute_arm(Arm7tdmi::decode(op_code));
    assert_eq!(cpu.registers.register_at(0), 0x55);
    assert_eq!(cpu.bus.read_word(0x0200_2000), 0xAAAA_5578);
}

#[test]
fn msr_then_mrs_reads_back_the_fields() {
    // MSR CPSR, R1 then MRS R2, CPSR.
    let mut cpu = Arm7tdmi::default();
    let value = 0xF000_0000 | 0b1_1111;
    cpu.registers.set_register_at(1, value);
    cpu.execute_arm(Arm7tdmi::decode(0xE129_F001));
    assert_eq!(cpu.cpsr.mode(), Mode::System);
    cpu.execute_arm(Arm7tdmi::decode(0xE10F_2000));
    assert_eq!(cpu.registers.register_at(2), value);
}

#[test]
fn fetch_arm_reads_the_aligned_word() {
    let mut cpu = Arm7tdmi::default();
    cpu.bus.write_word(0x0200_0100, 0xE3A0_0001);
    cpu.registers.set_program_counter(0x0200_0102);
    assert_eq!(cpu.fetch_arm(), 0xE3A0_0001);
}

#[test]
fn fetch_thumb_reads_the_aligned_halfword() {
    let mut cpu = Arm7tdmi::default();
    cpu.bus.write_half_word(0x0200_0100, 0x2001);
    cpu.registers.set_program_counter(0x0200_0101);
    assert_eq!(cpu.fetch_thumb(), 0x2001);
}

#[test]
fn new_core_has_bios_stack_pointers() {
    let cpu = Arm7tdmi::new(Bus::default());
    assert_eq!(cpu.registers.register_at(13), 0x0300_7FE0);
    assert_eq!(cpu.register_bank.r13_irq, 0x0300_7FA0);
    assert_eq!(cpu.register_bank.r13_old, 0x0300_7F00);
    assert_eq!(cpu.cpsr.mode(), Mode::Supervisor);
    assert_eq!(cpu.spsr, Psr::from(Mode::Supervisor));
    for i in 0..16usize {
        if i != 13 {
            assert_eq!(cpu.registers.register_at(i), 0);
        }
    }
}

#[test]
fn stm_then_ldm_restores_registers() {
    // STMDB R13!, {R0-R3} then LDMIA R13!, {R4-R7}.
    let mut cpu = Arm7tdmi::default();
    cpu.registers.set_register_at(13, 0x0300_7F00);
    for i in 0..4usize {
        cpu.registers.set_register_at(i, 10 * (i as u32 + 1));
    }
    cpu.execute_arm(Arm7tdmi::decode(0xE92D_000F));
    assert_eq!(cpu.registers.register_at(13), 0x0300_7EF0);
    cpu.execute_arm(Arm7tdmi::decode(0xE8BD_00F0));
    assert_eq!(cpu.registers.register_at(13), 0x0300_7F00);
    for i in 0..4usize {
        assert_eq!(cpu.registers.register_at(4 + i), 10 * (i as u32 + 1));
    }
}

#[test]
fn empty_register_list_moves_r15_and_sixteen_words() {
    // STMIA R0!, {} stores R15 + 4 and moves the base by 0x40.
    let mut cpu = Arm7tdmi::default();
    cpu.registers.set_register_at(0, 0x0200_4000);
    cpu.registers.set_program_counter(0x0200_0108);
    cpu.execute_arm(Arm7tdmi::decode(0xE8A0_0000));
    assert_eq!(cpu.bus.read_word(0x0200_4000), 0x0200_010C);
    assert_eq!(cpu.registers.register_at(0), 0x0200_4040);
}

#[test]
fn movs_pc_lr_returns_from_undefined_instruction() {
    let op_code = 0xE7F0_00F0;
    let mut cpu = core_at(op_code);
    cpu.cpsr.set_mode(Mode::System);
    cpu.cpsr.set_carry_flag(true);
    for i in 0..15usize {
        cpu.registers.set_register_at(i, 100 + i as u32);
    }
    let before = cpu.registers.to_vec();
    let old_cpsr = cpu.cpsr;
    cpu.execute_arm(Arm7tdmi::decode(op_code));
    assert_eq!(cpu.cpsr.mode(), Mode::Undefined);
    // MOVS PC, LR
    cpu.execute_arm(Arm7tdmi::decode(0xE1B0_F00E));
    assert_eq!(cpu.cpsr, old_cpsr);
    assert_eq!(cpu.registers.program_counter(), (CODE + 4) as usize);
    let after = cpu.registers.to_vec();
    assert_eq!(&after[0..15], &before[0..15]);
}

/// A core with MOV R0, #5; MOV R1, #7; B . at `CODE` and the program
/// counter there, the pipeline empty.
fn program_core() -> Arm7tdmi {
    let mut cpu = Arm7tdmi::default();
    cpu.bus.write_word(CODE as usize, 0xE3A0_0005);
    cpu.bus.write_word((CODE + 4) as usize, 0xE3A0_1007);
    cpu.bus.write_word((CODE + 8) as usize, 0xEAFF_FFFE);
    cpu.registers.set_program_counter(CODE);
    cpu
}

#[test]
fn step_arm_fills_the_pipeline_then_executes() {
    let mut cpu = program_core();
    assert!(cpu.step_arm().is_none());
    assert_eq!(cpu.fetched_arm, Some(0xE3A0_0005));
    assert!(cpu.decoded_arm.is_none());
    assert_eq!(cpu.registers.program_counter(), (CODE + 4) as usize);
    assert!(cpu.step_arm().is_none());
    assert_eq!(cpu.decoded_arm, Some(Arm7tdmi::decode(0xE3A0_0005)));
    assert_eq!(cpu.fetched_arm, Some(0xE3A0_1007));
    assert_eq!(cpu.registers.program_counter(), (CODE + 8) as usize);
    assert_eq!(cpu.registers.register_at(0), 0);
    assert!(cpu.step_arm().is_none());
    assert_eq!(cpu.registers.register_at(0), 5);
    assert_eq!(cpu.registers.program_counter(), (CODE + 12) as usize);
    assert!(cpu.step_arm().is_none());
    assert_eq!(cpu.registers.register_at(1), 7);
    assert_eq!(cpu.current_cycle, 4);
}

#[test]
fn step_arm_branch_empties_the_pipeline() {
    let mut cpu = program_core();
    for _ in 0..5 {
        assert!(cpu.step_arm().is_none());
    }
    // B . jumps back to itself and empties the pipeline: no advance.
    assert_eq!(cpu.registers.program_counter(), (CODE + 8) as usize);
    assert!(cpu.fetched_arm.is_none());
    assert!(cpu.decoded_arm.is_none());
}

#[test]
fn step_arm_takes_a_pending_irq() {
    let mut cpu = program_core();
    cpu.cpsr.set_irq_disable(false);
    cpu.bus.interrupt_control.interrupt_master_enable = 1;
    cpu.bus.interrupt_control.interrupt_enable = 1;
    cpu.bus.interrupt_control.interrupt_request = 1;
    let old_cpsr = cpu.cpsr;
    assert!(cpu.step_arm().is_none());
    assert!(cpu.step_arm().is_none());
    // The third step has an opcode to run: the IRQ is taken in its place.
    assert!(cpu.step_arm().is_none());
    assert_eq!(cpu.registers.register_at(0), 0);
    assert_eq!(cpu.cpsr.mode(), Mode::Irq);
    assert!(cpu.cpsr.irq_disable());
    assert_eq!(cpu.spsr, old_cpsr);
    assert_eq!(cpu.registers.program_counter(), 0x18);
    assert!(cpu.fetched_arm.is_none());
}

#[test]
fn step_arm_with_irq_disabled_runs_on() {
    let mut cpu = program_core();
    cpu.bus.interrupt_control.interrupt_master_enable = 1;
    cpu.bus.interrupt_control.interrupt_enable = 1;
    cpu.bus.interrupt_control.interrupt_request = 1;
    for _ in 0..3 {
        assert!(cpu.step_arm().is_none());
    }
    assert_eq!(cpu.registers.register_at(0), 5);
    assert_eq!(cpu.cpsr.mode(), Mode::Supervisor);
}
