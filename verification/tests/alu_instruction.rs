use emu::cpu::alu_instruction::{
    AluInstructionKind, ArmModeAluInstruction, Kind, ThumbModeAluInstruction,
};
use emu::cpu::arm::alu_instruction::Kind as ArmKind;
use emu::cpu::arm::alu_instruction::{
    rotate_right, shift, AIKind, AluSecondOperandInfo, ArmModeAluInstr, PsrKind, PsrOpKind,
    ShiftOperator,
};
use emu::cpu::flags::ShiftKind;

#[test]
fn alu_instruction_test_logical_instruction() {
    let alu_op_code = 9;
    let instruction_kind = ArmModeAluInstruction::from(alu_op_code).kind();

    assert_eq!(instruction_kind, AluInstructionKind::Logical);
}

#[test]
fn alu_instruction_test_arithmetic_instruction() {
    let alu_op_code = 2;
    let instruction_kind = ArmModeAluInstruction::from(alu_op_code).kind();

    assert_eq!(instruction_kind, AluInstructionKind::Arithmetic);
}

#[test]
fn test_conversion_thumb_alu_op() {
    let op: ThumbModeAluInstruction = ThumbModeAluInstruction::from(0b0000);
    assert_eq!(op, ThumbModeAluInstruction::And);
    let op: ThumbModeAluInstruction = ThumbModeAluInstruction::from(0b0001);
    assert_eq!(op, ThumbModeAluInstruction::Eor);
    let op: ThumbModeAluInstruction = ThumbModeAluInstruction::from(0b1110);
    assert_eq!(op, ThumbModeAluInstruction::Bic);
    let op: ThumbModeAluInstruction = ThumbModeAluInstruction::from(0b1111);
    assert_eq!(op, ThumbModeAluInstruction::Mvn);
}

#[test]
fn test_logical_instruction() {
    let alu_op_code = 9;
    let instruction_kind = ArmKind::kind(&ArmModeAluInstr::from(alu_op_code));

    assert_eq!(instruction_kind, AIKind::Logical);
}

#[test]
fn test_arithmetic_instruction() {
    let alu_op_code = 2;
    let instruction_kind = ArmKind::kind(&ArmModeAluInstr::from(alu_op_code));

    assert_eq!(instruction_kind, AIKind::Arithmetic);
}

#[test]
fn alu_opcodes_and_names() {
    assert_eq!(ArmModeAluInstr::from(0b0000), ArmModeAluInstr::And);
    assert_eq!(ArmModeAluInstr::from(0b0100), ArmModeAluInstr::Add);
    assert_eq!(ArmModeAluInstr::from(0b1101), ArmModeAluInstr::Mov);
    assert_eq!(ArmModeAluInstr::from(0b1111), ArmModeAluInstr::Mvn);
    assert_eq!(ArmModeAluInstr::Add.to_string(), "ADD");
    assert_eq!(ArmModeAluInstr::Teq.to_string(), "TEQ");
    assert_eq!(ArmModeAluInstruction::from(0b1010), ArmModeAluInstruction::Cmp);
    assert_eq!(
        ArmModeAluInstruction::from(0b1010).kind(),
        AluInstructionKind::Arithmetic
    );
    assert_eq!(
        ArmModeAluInstruction::from(0b1100).kind(),
        AluInstructionKind::Logical
    );
}

#[test]
fn rotate_right_wraps_around() {
    assert_eq!(rotate_right(0x0000_0001, 1), 0x8000_0000);
    assert_eq!(rotate_right(0x1234_5678, 8), 0x7812_3456);
    assert_eq!(rotate_right(0x1234_5678, 0), 0x1234_5678);
    assert_eq!(rotate_right(0x1234_5678, 32), 0x1234_5678);
    assert_eq!(rotate_right(0x1234_5678, 40), 0x7812_3456);
}

#[test]
fn shift_logical_left() {
    let r = shift(ShiftKind::Lsl, 0, 0x8000_0001, true);
    assert_eq!((r.result, r.carry), (0x8000_0001, true));
    let r = shift(ShiftKind::Lsl, 1, 0x8000_0001, false);
    assert_eq!((r.result, r.carry), (0x0000_0002, true));
    let r = shift(ShiftKind::Lsl, 32, 0x0000_0001, false);
    assert_eq!((r.result, r.carry), (0, true));
    let r = shift(ShiftKind::Lsl, 33, 0xFFFF_FFFF, true);
    assert_eq!((r.result, r.carry), (0, false));
    assert!(!r.overflow && !r.sign && !r.zero);
}

#[test]
fn shift_logical_right() {
    // LSR #0 encodes LSR #32.
    let r = shift(ShiftKind::Lsr, 0, 0x8000_0000, false);
    assert_eq!((r.result, r.carry), (0, true));
    let r = shift(ShiftKind::Lsr, 4, 0x0000_00F8, false);
    assert_eq!((r.result, r.carry), (0x0000_000F, true));
    let r = shift(ShiftKind::Lsr, 4, 0x0000_00F0, true);
    assert_eq!((r.result, r.carry), (0x0000_000F, false));
    let r = shift(ShiftKind::Lsr, 40, 0xFFFF_FFFF, true);
    assert_eq!((r.result, r.carry), (0, false));
}

#[test]
fn shift_arithmetic_right() {
    // ASR #0 encodes ASR #32.
    let r = shift(ShiftKind::Asr, 0, 0x8000_0000, false);
    assert_eq!((r.result, r.carry), (0xFFFF_FFFF, true));
    let r = shift(ShiftKind::Asr, 0, 0x7FFF_FFFF, true);
    assert_eq!((r.result, r.carry), (0, false));
    let r = shift(ShiftKind::Asr, 4, 0x8000_0000, true);
    assert_eq!((r.result, r.carry), (0xF800_0000, false));
    let r = shift(ShiftKind::Asr, 4, 0x0000_0018, false);
    assert_eq!((r.result, r.carry), (0x0000_0001, true));
}

#[test]
fn shift_rotate_right() {
    // ROR #0 encodes RRX: the carry comes in at the top.
    let r = shift(ShiftKind::Ror, 0, 0x0000_0001, true);
    assert_eq!((r.result, r.carry), (0x8000_0000, true));
    let r = shift(ShiftKind::Ror, 4, 0x0000_000F, false);
    assert_eq!((r.result, r.carry), (0xF000_0000, true));
    let r = shift(ShiftKind::Ror, 4, 0x0000_0001, true);
    assert_eq!((r.result, r.carry), (0x1000_0000, false));
    // ROR by a multiple of 32 above 32 is ROR #32: the value stays, bit 31 is the carry.
    let r = shift(ShiftKind::Ror, 64, 0x8000_0001, false);
    assert_eq!((r.result, r.carry), (0x8000_0001, true));
    // ROR by more than 32 rotates by the amount modulo 32.
    let r = shift(ShiftKind::Ror, 36, 0x0000_000F, false);
    assert_eq!((r.result, r.carry), (0xF000_0000, true));
}

#[test]
fn psr_transfer_kinds() {
    // MRS R3, CPSR
    let op = PsrOpKind::try_from(0xE10F_3000).unwrap();
    assert_eq!(
        op,
        PsrOpKind::Mrs {
            destination_register: 3
        }
    );
    // MSR CPSR, R2
    let op = PsrOpKind::try_from(0xE129_F002).unwrap();
    assert_eq!(op, PsrOpKind::Msr { source_register: 2 });
    // MSR CPSR_f, #0xF0000000 (immediate 0xF rotated right by 4)
    let op = PsrOpKind::try_from(0xE328_F20F).unwrap();
    assert_eq!(
        op,
        PsrOpKind::MsrFlg {
            operand: AluSecondOperandInfo::Immediate { base: 0x0F, shift: 4 },
            field_mask: 0b1000,
        }
    );
    // MSR CPSR_f, R1
    let op = PsrOpKind::try_from(0xE128_F001).unwrap();
    assert_eq!(
        op,
        PsrOpKind::MsrFlg {
            operand: AluSecondOperandInfo::Register {
                shift_op: ShiftOperator::Immediate(0),
                shift_kind: ShiftKind::Lsl,
                register: 1,
            },
            field_mask: 0b1000,
        }
    );
}

#[test]
fn psr_transfer_error_message() {
    let err = PsrOpKind::try_from(0xE3A0_0001).unwrap_err();
    assert_eq!(
        err,
        "Invalid PSR operation opcode: 0xE3A00001\nBits 23-27: 0b00111, Bits 16-21: 0b100000, Bits 12-21: 0b1000000000, Bits 0-11: 0b000000000001"
    );
}

#[test]
fn psr_kind_from_flag() {
    assert_eq!(PsrKind::from(false), PsrKind::Cpsr);
    assert_eq!(PsrKind::from(true), PsrKind::Spsr);
    assert_eq!(PsrKind::from(true).to_string(), "SPSR");
}
