use emu::arm7tdmi::Registers;
use emu::cpu::arm7tdmi::{ExceptionType, HalfwordTransferKind};
use emu::cpu::condition::Condition;
use emu::cpu::cpu_modes::Mode;
use emu::cpu::flags::{
    Indexing, LoadStoreKind, Offsetting, OperandKind, Operation, ReadWriteKind, ShiftKind,
};
use emu::cpu::psr::CpuState;

#[test]
fn mode_codes_round_trip() {
    let modes = [
        Mode::User,
        Mode::Fiq,
        Mode::Irq,
        Mode::Supervisor,
        Mode::Abort,
        Mode::Undefined,
        Mode::System,
    ];
    for m in modes {
        let code = u32::from(m);
        assert_eq!(Mode::try_from(code), Ok(m));
    }
    assert_eq!(u32::from(Mode::Supervisor), 0b10011);
    assert_eq!(Mode::try_from(0b11011), Ok(Mode::Undefined));
}

#[test]
fn mode_rejects_unknown_code() {
    assert_eq!(
        Mode::try_from(0b10100),
        Err(String::from("Unexpected value for Mode"))
    );
    assert_eq!(
        Mode::try_from(0),
        Err(String::from("Unexpected value for Mode"))
    );
}

#[test]
fn condition_codes_and_text() {
    assert_eq!(Condition::from(0x0), Condition::EQ);
    assert_eq!(Condition::from(0xB), Condition::LT);
    assert_eq!(Condition::from(0xE), Condition::AL);
    assert_eq!(Condition::from(0xF), Condition::NV);
    assert_eq!(Condition::GE.to_string(), "GE");
    assert_eq!(Condition::AL.to_string(), "");
    assert_eq!(Condition::NV.to_string(), "_NEVER");
}

#[test]
fn instruction_flags_from_bits() {
    assert_eq!(OperandKind::from(true), OperandKind::Immediate);
    assert_eq!(OperandKind::from(false), OperandKind::Register);
    assert_eq!(Operation::from(2), Operation::Add);
    assert_eq!(Operation::from(1).to_string(), "CMP");
    assert_eq!(ShiftKind::from(3), ShiftKind::Ror);
    assert_eq!(ShiftKind::from_u16(1), ShiftKind::Lsr);
    assert_eq!(ShiftKind::Asr.to_string(), "ASR");
    assert_eq!(LoadStoreKind::from(true), LoadStoreKind::Load);
    assert_eq!(LoadStoreKind::from(false).to_string(), "STR");
    assert_eq!(Indexing::from(true), Indexing::Pre);
    assert_eq!(Offsetting::from(false), Offsetting::Down);
    assert_eq!(ReadWriteKind::from(true), ReadWriteKind::Byte);
    assert_eq!(ReadWriteKind::default(), ReadWriteKind::Word);
}

#[test]
fn exception_vectors_and_modes() {
    assert_eq!(ExceptionType::UndefinedInstruction.address(), 0x4);
    assert_eq!(ExceptionType::SoftwareInterrupt.address(), 0x8);
    assert_eq!(ExceptionType::Irq.address(), 0x18);
    assert_eq!(ExceptionType::SoftwareInterrupt.mode(), Mode::Supervisor);
    assert_eq!(ExceptionType::UndefinedInstruction.mode(), Mode::Undefined);
    assert_eq!(ExceptionType::Irq.mode(), Mode::Irq);
}

#[test]
fn exception_return_addresses() {
    // ARM: the program counter is 8 bytes ahead; return to the next instruction.
    assert_eq!(
        ExceptionType::SoftwareInterrupt.next_instruction_func(CpuState::Arm, 0x108),
        0x104
    );
    assert_eq!(
        ExceptionType::Irq.next_instruction_func(CpuState::Arm, 0x108),
        0x104
    );
    // Thumb: the program counter is 4 bytes ahead; instructions are 2 bytes.
    assert_eq!(
        ExceptionType::SoftwareInterrupt.next_instruction_func(CpuState::Thumb, 0x104),
        0x102
    );
    assert_eq!(
        ExceptionType::Irq.next_instruction_func(CpuState::Thumb, 0x104),
        0x104
    );
}

#[test]
fn halfword_transfer_kinds() {
    assert_eq!(
        HalfwordTransferKind::from(0b01),
        HalfwordTransferKind::UnsignedHalfwords
    );
    assert_eq!(HalfwordTransferKind::from(0b10), HalfwordTransferKind::SignedByte);
    assert_eq!(
        HalfwordTransferKind::from(0b111),
        HalfwordTransferKind::SignedHalfwords
    );
    assert_eq!(HalfwordTransferKind::SignedByte.to_string(), "SB");
}

#[test]
fn registers_read_back_what_was_written() {
    let mut registers = Registers::default();
    assert_eq!(registers.to_vec(), vec![0; 16]);
    registers.set_register_at(3, 0xDEAD_BEEF);
    assert_eq!(registers.register_at(3), 0xDEAD_BEEF);
    assert_eq!(registers.register_at(4), 0);
    registers.set_program_counter(0x0800_0000);
    assert_eq!(registers.program_counter(), 0x0800_0000);
    registers.advance_program_counter(4);
    assert_eq!(registers.program_counter(), 0x0800_0004);
    registers.set_program_counter(0xFFFF_FFFE);
    registers.advance_program_counter(4);
    assert_eq!(registers.program_counter(), 2);
    assert_eq!(registers.to_vec()[15], 2);
}
