use emu::cpu::arm::alu_instruction::{
    AluSecondOperandInfo, ArmModeAluInstr, PsrKind, PsrOpKind, ShiftOperator,
};
use emu::cpu::arm::instructions::{
    ArmModeInstruction, ArmModeMultiplyLongVariant, ArmModeMultiplyVariant,
    SingleDataTransferKind, SingleDataTransferOffsetInfo,
};
use emu::cpu::arm7tdmi::HalfwordTransferKind;
use emu::cpu::condition::Condition;
use emu::cpu::flags::{
    HalfwordDataTransferOffsetKind, Indexing, LoadStoreKind, Offsetting, OperandKind,
    ReadWriteKind, ShiftKind,
};

#[test]
fn decode_branch() {
    let output = ArmModeInstruction::from(0b1110_1011_0000_0000_0000_0000_0111_1111);
    assert_eq!(
        ArmModeInstruction::Branch {
            condition: Condition::AL,
            link: true,
            offset: 508,
        },
        output
    );
    assert_eq!("BL 0x000001FC", output.disassembler());

    let output = ArmModeInstruction::from(0b1110_1010_0000_0000_0000_0000_0111_1111);
    assert_eq!(
        ArmModeInstruction::Branch {
            condition: Condition::AL,
            link: false,
            offset: 508,
        },
        output
    );
    assert_eq!("B 0x000001FC", output.disassembler());

    let output = ArmModeInstruction::from(0b0000_1010_0000_0000_0000_0000_0111_1111);
    assert_eq!(
        ArmModeInstruction::Branch {
            condition: Condition::EQ,
            link: false,
            offset: 508,
        },
        output
    );
    assert_eq!("BEQ 0x000001FC", output.disassembler());

    let output = ArmModeInstruction::from(0b0000_1011_0000_0000_0000_0000_0111_1111);
    assert_eq!(
        ArmModeInstruction::Branch {
            condition: Condition::EQ,
            link: true,
            offset: 508,
        },
        output
    );
    assert_eq!("BLEQ 0x000001FC", output.disassembler());
}

#[test]
fn decode_branch_and_exchange() {
    let output = ArmModeInstruction::from(0b1110_0001_0010_1111_1111_1111_0001_0001);
    assert_eq!(
        ArmModeInstruction::BranchAndExchange {
            condition: Condition::AL,
            register: 1
        },
        output
    );
    assert_eq!("BX R1", output.disassembler());

    let output = ArmModeInstruction::from(0b0000_0001_0010_1111_1111_1111_0001_0001);
    assert_eq!(
        ArmModeInstruction::BranchAndExchange {
            condition: Condition::EQ,
            register: 1
        },
        output
    );
    assert_eq!("BXEQ R1", output.disassembler());
}

#[test]
fn decode_data_processing() {
    let output = ArmModeInstruction::from(0b1110_00_0_1011_0_1001_1111_000000001110);
    assert_eq!(
        ArmModeInstruction::PSRTransfer {
            condition: Condition::AL,
            psr_kind: PsrKind::Spsr,
            kind: PsrOpKind::Msr {
                source_register: 14
            }
        },
        output
    );
    assert_eq!("MSR SPSR, R14", output.disassembler());
}

#[test]
fn decode_half_word_data_transfer_immediate_offset() {
    let output = ArmModeInstruction::from(0b1110_0001_1100_0001_0000_0000_1011_0000);
    assert_eq!(
        ArmModeInstruction::HalfwordDataTransfer {
            condition: Condition::AL,
            indexing: Indexing::Pre,
            offsetting: Offsetting::Up,
            write_back: false,
            load_store_kind: LoadStoreKind::Store,
            offset_kind: HalfwordDataTransferOffsetKind::Immediate { offset: 0 },
            base_register: 1,
            source_destination_register: 0,
            transfer_kind: HalfwordTransferKind::UnsignedHalfwords,
        },
        output
    );
}

#[test]
fn decode_half_word_data_transfer_register_offset() {
    let output = ArmModeInstruction::from(0b1110_0001_1000_0010_0000_0000_1011_0001);
    assert_eq!(
        ArmModeInstruction::HalfwordDataTransfer {
            condition: Condition::AL,
            indexing: Indexing::Pre,
            offsetting: Offsetting::Up,
            write_back: false,
            load_store_kind: LoadStoreKind::Store,
            offset_kind: HalfwordDataTransferOffsetKind::Register { register: 1 },
            base_register: 2,
            source_destination_register: 0,
            transfer_kind: HalfwordTransferKind::UnsignedHalfwords,
        },
        output
    );
}

#[test]
fn decode_single_data_transfer() {
    let output = ArmModeInstruction::from(0b11100111010100010101000000001100);
    assert_eq!(
        output,
        ArmModeInstruction::SingleDataTransfer {
            condition: Condition::AL,
            kind: SingleDataTransferKind::Ldr,
            quantity: ReadWriteKind::Byte,
            write_back: false,
            indexing: Indexing::Pre,
            rd: 5,
            base_register: 1,
            offset_info: SingleDataTransferOffsetInfo::RegisterImmediate {
                shift_amount: 0,
                shift_kind: ShiftKind::Lsl,
                reg_offset: 12
            },
            offsetting: Offsetting::Down
        }
    );

    assert_eq!("LDRB R5, 12, LSL #0", output.disassembler());
}

#[test]
fn decode_single_data_swap() {
    // SWP R1, R2, [R3] - swap word
    let output = ArmModeInstruction::from(0b1110_0001_0000_0011_0001_0000_1001_0010);
    assert_eq!(
        output,
        ArmModeInstruction::SingleDataSwap {
            condition: Condition::AL,
            byte: false,
            rn: 3,
            rd: 1,
            rm: 2,
        }
    );
    assert_eq!("swp r1, r2, [r3]", output.disassembler());

    // SWPB R4, R5, [R6] - swap byte
    let output = ArmModeInstruction::from(0b1110_0001_0100_0110_0100_0000_1001_0101);
    assert_eq!(
        output,
        ArmModeInstruction::SingleDataSwap {
            condition: Condition::AL,
            byte: true,
            rn: 6,
            rd: 4,
            rm: 5,
        }
    );
    assert_eq!("swpb r4, r5, [r6]", output.disassembler());

    // SWPNE R0, R1, [R2] - conditional swap
    let output = ArmModeInstruction::from(0b0001_0001_0000_0010_0000_0000_1001_0001);
    assert_eq!(
        output,
        ArmModeInstruction::SingleDataSwap {
            condition: Condition::NE,
            byte: false,
            rn: 2,
            rd: 0,
            rm: 1,
        }
    );
    assert_eq!("swpNE r0, r1, [r2]", output.disassembler());
}

#[test]
fn decode_swap_vs_halfword_transfer() {
    // SWP has bits 6-5 = 00, halfword transfers have bits 6-5 != 00
    let swp_opcode = 0b1110_0001_0000_0011_0001_0000_1001_0010;
    let output = ArmModeInstruction::from(swp_opcode);
    assert!(matches!(output, ArmModeInstruction::SingleDataSwap { .. }));

    // This is STRH (bits 6-5 = 01, unsigned halfword)
    let strh_opcode = 0b1110_0001_1100_0001_0000_0000_1011_0000;
    let output = ArmModeInstruction::from(strh_opcode);
    assert!(matches!(
        output,
        ArmModeInstruction::HalfwordDataTransfer { .. }
    ));
}

#[test]
fn decode_and_disassemble_data_processing() {
    // ADD R0, R1, R2, LSL #3
    let output = ArmModeInstruction::from(0b1110_00_0_0100_0_0001_0000_00011_00_0_0010);
    assert_eq!(
        output,
        ArmModeInstruction::DataProcessing {
            condition: Condition::AL,
            alu_instruction: ArmModeAluInstr::Add,
            set_conditions: false,
            op_kind: OperandKind::Register,
            rn: 1,
            destination: 0,
            op2: AluSecondOperandInfo::Register {
                shift_op: ShiftOperator::Immediate(3),
                shift_kind: ShiftKind::Lsl,
                register: 2,
            },
        }
    );
    assert_eq!("ADD R0, R1, R2, LSL #3", output.disassembler());

    // MOVS R3, #0xFF00 (0xFF rotated right by 24)
    let output = ArmModeInstruction::from(0b1110_00_1_1101_1_0000_0011_1100_11111111);
    assert_eq!("MOVS R3, #65280", output.disassembler());

    // CMP R4, R5, LSR R6
    let output = ArmModeInstruction::from(0b1110_00_0_1010_1_0100_0000_0110_0_01_1_0101);
    assert_eq!("CMP R4, R5, LSR R6", output.disassembler());

    // MOV R0, R1, ROR #0 is RRX
    let output = ArmModeInstruction::from(0b1110_00_0_1101_0_0000_0000_00000_11_0_0001);
    assert_eq!("MOV R0, R1, RRX", output.disassembler());
}

#[test]
fn test_without_s_bit_and_psr_pattern_is_nop() {
    // TST with S clear that matches no PSR pattern
    let output = ArmModeInstruction::from(0b1110_00_0_1000_0_0001_0010_000000000011);
    assert_eq!(
        output,
        ArmModeInstruction::DataProcessing {
            condition: Condition::AL,
            alu_instruction: ArmModeAluInstr::Mov,
            set_conditions: false,
            op_kind: OperandKind::Register,
            rn: 0,
            destination: 0,
            op2: AluSecondOperandInfo::Register {
                shift_op: ShiftOperator::Immediate(0),
                shift_kind: ShiftKind::Lsl,
                register: 0,
            },
        }
    );
    assert_eq!("MOV R0, R0", output.disassembler());
}

#[test]
fn decode_psr_transfers() {
    // MRS R0, CPSR
    let output = ArmModeInstruction::from(0xE10F_0000);
    assert_eq!(
        output,
        ArmModeInstruction::PSRTransfer {
            condition: Condition::AL,
            psr_kind: PsrKind::Cpsr,
            kind: PsrOpKind::Mrs {
                destination_register: 0
            },
        }
    );
    assert_eq!("MRS R0, CPSR", output.disassembler());
    // MSR CPSR_f, #0xF0000000
    let output = ArmModeInstruction::from(0xE328_F20F);
    assert_eq!("MSR CPSR, #4026531840 (mask: 0x8)", output.disassembler());
}

#[test]
fn decode_multiplies() {
    // MLA R1, R2, R3, R4 with S
    let output = ArmModeInstruction::from(0b1110_000000_1_1_0001_0100_0011_1001_0010);
    assert_eq!(
        output,
        ArmModeInstruction::Multiply {
            variant: ArmModeMultiplyVariant::Mla,
            condition: Condition::AL,
            should_set_codes: true,
            rd_destination_register: 1,
            rn_accumulate_register: 4,
            rs_operand_register: 3,
            rm_operand_register: 2,
        }
    );
    assert_eq!("MLAtrue 1, 2, 3, 4", output.disassembler());
    // SMULL R0, R1, R2, R3
    let output = ArmModeInstruction::from(0b1110_00001_1_0_0_0001_0000_0011_1001_0010);
    assert!(matches!(
        output,
        ArmModeInstruction::MultiplyLong {
            variant: ArmModeMultiplyLongVariant::Smull,
            ..
        }
    ));
    assert_eq!("SMULLfalse 0, 1, 2, 3", output.disassembler());
}

#[test]
fn decode_block_transfer_and_others() {
    let output = ArmModeInstruction::from(0b1110_100_1_0_0_1_0_1101_1000000010100010);
    assert_eq!("STMDB, R13! {R1-R5-R7-R15}", output.disassembler());
    let output = ArmModeInstruction::from(0b1110_100_0_1_1_0_1_0000_0000000000000000);
    assert_eq!("LDMIA, R0 {}^", output.disassembler());
    assert_eq!(
        ArmModeInstruction::from(0xEF00_0000),
        ArmModeInstruction::SoftwareInterrupt
    );
    assert_eq!(
        ArmModeInstruction::from(0xE600_0010),
        ArmModeInstruction::Undefined
    );
    assert_eq!(
        ArmModeInstruction::from(0xEE00_0010),
        ArmModeInstruction::CoprocessorRegisterTransfer
    );
    assert_eq!(
        ArmModeInstruction::from(0xEE00_0000),
        ArmModeInstruction::CoprocessorDataOperation
    );
    // LDRH R0, [R1], #-4
    let output = ArmModeInstruction::from(0b1110_000_0_0_1_0_1_0001_0000_0000_1011_0100);
    assert_eq!("LDRH R0, [R1],#-4", output.disassembler());
    // STRSB R2, [R3, +R4]!
    let output = ArmModeInstruction::from(0b1110_000_1_1_0_1_0_0011_0010_0000_1101_0100);
    assert_eq!("STRSB R2, [R3,+R4!]", output.disassembler());
    // LDC p5,c2,...
    let output = ArmModeInstruction::from(0b1110_110_1_1_1_0_1_0000_0010_0101_00000011);
    assert_eq!("LDCL p5,2,00000003", output.disassembler());
}

#[test]
fn single_data_transfer_kind_from_opcode() {
    assert_eq!(SingleDataTransferKind::from(0xF010_0000), SingleDataTransferKind::Pld);
    assert_eq!(SingleDataTransferKind::from(0xE010_0000), SingleDataTransferKind::Ldr);
    assert_eq!(SingleDataTransferKind::from(0xF000_0000), SingleDataTransferKind::Str);
}
