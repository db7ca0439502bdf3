//! Decoding 32-bit ARM instructions into their fields, and writing them back
//! as assembler text.
//!
//! The decoder checks the instruction categories in this priority order, as
//! some bit patterns overlap: Branch and Exchange, Single Data Swap, Multiply
//! Long, Multiply, Halfword Data Transfer (or Swap), Undefined, Software
//! Interrupt, Coprocessor operations, Block Data Transfer, Branch, Single Data
//! Transfer and finally Data Processing (with PSR transfers).
use crate::bitwise::{bit_at, Bits};
use crate::cpu::arm::alu_instruction::{
    alu_instr_of, field, flag, is_mrs, is_msr, is_msr_flg, lemma_field_le, psr_op_kind_of,
    AluSecondOperandInfo, ArmModeAluInstr, PsrKind, PsrOpKind, ShiftOperator,
};
use crate::cpu::arm7tdmi::{halfword_kind_of, HalfwordTransferKind};
use crate::cpu::condition::{condition_of, Condition};
use crate::cpu::text::{bool_text, decimal, hex, push_bool, push_decimal, push_decimal_usize, push_hex};
use crate::cpu::flags::{
    shift_kind_of, HalfwordDataTransferOffsetKind, Indexing, LoadStoreKind, Offsetting,
    OperandKind, ReadWriteKind, ShiftKind,
};
use vstd::prelude::*;

verus! {

/// The type of single data transfer operation (LDR/STR/PLD).
#[derive(Debug, Eq, PartialEq, Structural, Copy, Clone)]
pub enum SingleDataTransferKind {
    /// Load from memory into a register (`LDR`).
    Ldr,
    /// Store from a register into memory (`STR`).
    Str,
    /// Preload Data cache hint (`ARMv5TE`+, not commonly used on GBA).
    Pld,
}

/// The transfer kind of a single data transfer opcode: the L bit (20) selects
/// a load, which is a preload when the condition bits are all ones.
pub open spec fn single_data_transfer_kind_of(op_code: u32) -> SingleDataTransferKind {
    if flag(op_code, 20) {
        if flag(op_code, 28) && flag(op_code, 29) && flag(op_code, 30) && flag(op_code, 31) {
            SingleDataTransferKind::Pld
        } else {
            SingleDataTransferKind::Ldr
        }
    } else {
        SingleDataTransferKind::Str
    }
}

impl From<u32> for SingleDataTransferKind {
    fn from(op_code: u32) -> (r: Self) {
        let range = 28..=31;
        assert(range@.start == 28 && range@.end == 31);
        assert(crate::bitwise::range_len(range) == 4);
        let must_for_pld = op_code.are_bits_on(range);
        proof {
            let v = op_code as u128;
            if flag(op_code, 28) && flag(op_code, 29) && flag(op_code, 30) && flag(op_code, 31) {
                assert forall|i: u128| 28 <= i < 32 implies #[trigger] bit_at(v, i) by {
                    assert(i == 28 || i == 29 || i == 30 || i == 31);
                }
            }
            if must_for_pld {
                assert(bit_at(op_code.value(), 28));
                assert(bit_at(v, 28) && bit_at(v, 29) && bit_at(v, 30) && bit_at(v, 31));
            }
        }
        if op_code.get_bit(20) {
            if must_for_pld {
                Self::Pld
            } else {
                Self::Ldr
            }
        } else {
            Self::Str
        }
    }
}

impl vstd::std_specs::convert::FromSpecImpl<u32> for SingleDataTransferKind {
    open spec fn obeys_from_spec() -> bool {
        true
    }

    open spec fn from_spec(op_code: u32) -> SingleDataTransferKind {
        single_data_transfer_kind_of(op_code)
    }
}

/// The offset of a single data transfer: an immediate, or a register shifted
/// by an immediate.
#[derive(Clone, Copy, Debug, Eq, PartialEq, Structural)]
pub enum SingleDataTransferOffsetInfo {
    Immediate { offset: u32 },
    RegisterImmediate { shift_amount: u32, shift_kind: ShiftKind, reg_offset: u32 },
}

/// All ARM instruction types after decoding.
#[derive(Debug, PartialEq, Eq, Structural, Copy, Clone)]
pub enum ArmModeInstruction {
    /// Data Processing: ALU operations (AND, ADD, CMP, MOV, etc.)
    DataProcessing {
        condition: Condition,
        alu_instruction: ArmModeAluInstr,
        set_conditions: bool,
        op_kind: OperandKind,
        rn: u32,
        destination: u32,
        op2: AluSecondOperandInfo,
    },
    Multiply {
        variant: ArmModeMultiplyVariant,
        condition: Condition,
        should_set_codes: bool,
        rd_destination_register: u32,
        rn_accumulate_register: u32,
        rs_operand_register: u32,
        rm_operand_register: u32,
    },
    MultiplyLong {
        variant: ArmModeMultiplyLongVariant,
        condition: Condition,
        should_set_codes: bool,
        rdhi_destination_register: u32,
        rdlo_destination_register: u32,
        rs_operand_register: u32,
        rm_operand_register: u32,
    },
    PSRTransfer { condition: Condition, psr_kind: PsrKind, kind: PsrOpKind },
    SingleDataSwap {
        condition: Condition,
        byte: bool,  // true = byte, false = word
        rn: u32,  // base register (address)
        rd: u32,  // destination register
        rm: u32,  // source register
    },
    BranchAndExchange { condition: Condition, register: usize },
    HalfwordDataTransfer {
        condition: Condition,
        indexing: Indexing,
        offsetting: Offsetting,
        write_back: bool,
        load_store_kind: LoadStoreKind,
        offset_kind: HalfwordDataTransferOffsetKind,
        base_register: u32,
        source_destination_register: u32,
        transfer_kind: HalfwordTransferKind,
    },
    SingleDataTransfer {
        condition: Condition,
        kind: SingleDataTransferKind,
        quantity: ReadWriteKind,
        write_back: bool,
        indexing: Indexing,
        rd: u32,
        base_register: u32,
        offset_info: SingleDataTransferOffsetInfo,
        offsetting: Offsetting,
    },
    Undefined,
    BlockDataTransfer {
        condition: Condition,
        indexing: Indexing,
        offsetting: Offsetting,
        load_psr: bool,
        write_back: bool,
        load_store: LoadStoreKind,
        rn: u32,
        register_list: u32,
    },
    Branch { condition: Condition, link: bool, offset: u32 },
    CoprocessorDataTransfer {
        condition: Condition,
        indexing: Indexing,
        offsetting: Offsetting,
        transfer_length: bool,
        write_back: bool,
        load_store: LoadStoreKind,
        rn: u32,
        crd: u32,
        cp_number: u32,
        offset: u32,
    },
    CoprocessorDataOperation,
    CoprocessorRegisterTransfer,
    SoftwareInterrupt,
}

/// The two 32-bit multiplies.
#[derive(Debug, Copy, Clone, PartialEq, Eq, Structural)]
pub enum ArmModeMultiplyVariant {
    Mul,
    Mla,
}

/// The four 64-bit multiplies.
#[derive(Debug, Copy, Clone, PartialEq, Eq, Structural)]
pub enum ArmModeMultiplyLongVariant {
    Umull,
    Umlal,
    Smull,
    Smlal,
}

impl ArmModeMultiplyLongVariant {
    /// The mnemonic of the multiply.
    pub open spec fn text(self) -> Seq<char> {
        match self {
            ArmModeMultiplyLongVariant::Umull => "UMULL"@,
            ArmModeMultiplyLongVariant::Umlal => "UMLAL"@,
            ArmModeMultiplyLongVariant::Smull => "SMULL"@,
            ArmModeMultiplyLongVariant::Smlal => "SMLAL"@,
        }
    }

    /// The mnemonic of the multiply.
    pub fn to_str(&self) -> (r: &'static str)
        ensures
            r@ == self.text(),
    {
        match self {
            Self::Umull => "UMULL",
            Self::Umlal => "UMLAL",
            Self::Smull => "SMULL",
            Self::Smlal => "SMLAL",
        }
    }

    /// The mnemonic of the multiply as a `String`.
    pub fn to_string(&self) -> (r: String)
        ensures
            r@ == self.text(),
    {
        String::from_str(self.to_str())
    }

    /// The 64-bit multiply whose opcode (bits 21-24 of `op_code`) is 4 to 7.
    pub fn from(op_code: u32) -> (r: Self)
        requires
            4 <= field(op_code, 21, 24) <= 7,
        ensures
            r == multiply_long_variant_of(field(op_code, 21, 24)),
    {
        let mul_op_code: u32 = op_code.get_bits(21..=24);
        match mul_op_code {
            0b0100 => Self::Umull,
            0b0101 => Self::Umlal,
            0b0110 => Self::Smull,
            _ => Self::Smlal,
        }
    }
}

impl ArmModeMultiplyVariant {
    /// The 32-bit multiply whose opcode (bits 21-24 of `op_code`) is 0 or 1.
    pub fn from(op_code: u32) -> (r: Self)
        requires
            field(op_code, 21, 24) <= 1,
        ensures
            r == multiply_variant_of(field(op_code, 21, 24)),
    {
        let mul_op_code: u32 = op_code.get_bits(21..=24);
        match mul_op_code {
            0b0000 => Self::Mul,
            _ => Self::Mla,
        }
    }
}

/// `MUL` for opcode 0, `MLA` for 1.
pub open spec fn multiply_variant_of(op: u32) -> ArmModeMultiplyVariant {
    if op == 0 {
        ArmModeMultiplyVariant::Mul
    } else {
        ArmModeMultiplyVariant::Mla
    }
}

/// `UMULL`, `UMLAL`, `SMULL`, `SMLAL` for opcodes 4 to 7.
pub open spec fn multiply_long_variant_of(op: u32) -> ArmModeMultiplyLongVariant {
    if op == 4 {
        ArmModeMultiplyLongVariant::Umull
    } else if op == 5 {
        ArmModeMultiplyLongVariant::Umlal
    } else if op == 6 {
        ArmModeMultiplyLongVariant::Smull
    } else {
        ArmModeMultiplyLongVariant::Smlal
    }
}

/// `Pre` for a set P bit, `Post` otherwise.
pub open spec fn indexing_of(b: bool) -> Indexing {
    if b {
        Indexing::Pre
    } else {
        Indexing::Post
    }
}

/// `Up` for a set U bit, `Down` otherwise.
pub open spec fn offsetting_of(b: bool) -> Offsetting {
    if b {
        Offsetting::Up
    } else {
        Offsetting::Down
    }
}

/// `Load` for a set L bit, `Store` otherwise.
pub open spec fn load_store_of(b: bool) -> LoadStoreKind {
    if b {
        LoadStoreKind::Load
    } else {
        LoadStoreKind::Store
    }
}

/// `MOV R0, R0`: what the decoder returns for a TST/TEQ/CMP/CMN without the S
/// bit that is no PSR transfer.
pub open spec fn nop(condition: Condition) -> ArmModeInstruction {
    ArmModeInstruction::DataProcessing {
        condition,
        alu_instruction: ArmModeAluInstr::Mov,
        set_conditions: false,
        op_kind: OperandKind::Register,
        rn: 0,
        destination: 0,
        op2: AluSecondOperandInfo::Register {
            shift_op: ShiftOperator::Immediate(0),
            shift_kind: ShiftKind::Lsl,
            register: 0,
        },
    }
}

/// The ALU instructions that only set flags.
pub open spec fn is_test_instr(alu: ArmModeAluInstr) -> bool {
    alu == ArmModeAluInstr::Tst || alu == ArmModeAluInstr::Teq || alu == ArmModeAluInstr::Cmp
        || alu == ArmModeAluInstr::Cmn
}

/// A halfword transfer, or a swap when the SH bits are zero.
pub open spec fn decode_halfword_or_swap(op: u32, condition: Condition) -> ArmModeInstruction {
    if field(op, 5, 6) == 0b00 {
        ArmModeInstruction::SingleDataSwap {
            condition,
            byte: flag(op, 22),
            rn: field(op, 16, 19),
            rd: field(op, 12, 15),
            rm: field(op, 0, 3),
        }
    } else {
        ArmModeInstruction::HalfwordDataTransfer {
            condition,
            indexing: indexing_of(flag(op, 24)),
            offsetting: offsetting_of(flag(op, 23)),
            write_back: flag(op, 21),
            load_store_kind: load_store_of(flag(op, 20)),
            offset_kind: if !flag(op, 22) {
                HalfwordDataTransferOffsetKind::Register { register: field(op, 0, 3) }
            } else {
                HalfwordDataTransferOffsetKind::Immediate {
                    offset: (field(op, 8, 11) << 4u32) | field(op, 0, 3),
                }
            },
            base_register: field(op, 16, 19),
            source_destination_register: field(op, 12, 15),
            transfer_kind: halfword_kind_of(field(op, 5, 6)),
        }
    }
}

/// A single data transfer (LDR/STR).
pub open spec fn decode_single_data_transfer(op: u32, condition: Condition) -> ArmModeInstruction {
    ArmModeInstruction::SingleDataTransfer {
        condition,
        kind: single_data_transfer_kind_of(op),
        quantity: if flag(op, 22) {
            ReadWriteKind::Byte
        } else {
            ReadWriteKind::Word
        },
        write_back: flag(op, 21),
        indexing: indexing_of(flag(op, 24)),
        rd: field(op, 12, 15),
        base_register: field(op, 16, 19),
        // The I bit (25) has the inverted meaning here: clear is an immediate.
        offset_info: if !flag(op, 25) {
            SingleDataTransferOffsetInfo::Immediate { offset: field(op, 0, 11) }
        } else {
            SingleDataTransferOffsetInfo::RegisterImmediate {
                shift_amount: field(op, 7, 11),
                shift_kind: shift_kind_of(field(op, 5, 6)),
                reg_offset: field(op, 0, 3),
            }
        },
        offsetting: offsetting_of(flag(op, 23)),
    }
}

/// A data processing instruction, a PSR transfer, or the NOP that a test
/// instruction without the S bit and without a PSR pattern decodes to.
pub open spec fn decode_data_processing(op: u32, condition: Condition) -> ArmModeInstruction {
    let alu_instruction = alu_instr_of(field(op, 21, 24));
    let set_conditions = flag(op, 20);
    if is_test_instr(alu_instruction) && !set_conditions {
        if is_mrs(op) || is_msr(op) || is_msr_flg(op) {
            ArmModeInstruction::PSRTransfer {
                condition,
                psr_kind: if flag(op, 22) {
                    PsrKind::Spsr
                } else {
                    PsrKind::Cpsr
                },
                kind: psr_op_kind_of(op),
            }
        } else {
            nop(condition)
        }
    } else {
        ArmModeInstruction::DataProcessing {
            condition,
            alu_instruction,
            set_conditions,
            op_kind: if flag(op, 25) {
                OperandKind::Immediate
            } else {
                OperandKind::Register
            },
            rn: field(op, 16, 19),
            destination: field(op, 12, 15),
            op2: if flag(op, 25) {
                AluSecondOperandInfo::Immediate {
                    base: field(op, 0, 7),
                    shift: (field(op, 8, 11) * 2) as u32,
                }
            } else {
                AluSecondOperandInfo::Register {
                    shift_op: if flag(op, 4) {
                        ShiftOperator::Register(field(op, 8, 11))
                    } else {
                        ShiftOperator::Immediate(field(op, 7, 11))
                    },
                    shift_kind: shift_kind_of(field(op, 5, 6)),
                    register: field(op, 0, 3),
                }
            },
        }
    }
}

/// The instruction that a 32-bit ARM opcode encodes.
pub open spec fn decode(op: u32) -> ArmModeInstruction {
    let condition = condition_of(field(op, 28, 31) as u8);
    if field(op, 4, 27) == 0b0001_0010_1111_1111_1111_0001 {
        ArmModeInstruction::BranchAndExchange { condition, register: field(op, 0, 3) as usize }
    } else if field(op, 23, 27) == 0b00010 && field(op, 20, 21) == 0b00 && field(op, 4, 11)
        == 0b0000_1001 {
        ArmModeInstruction::SingleDataSwap {
            condition,
            byte: flag(op, 22),
            rn: field(op, 16, 19),
            rd: field(op, 12, 15),
            rm: field(op, 0, 3),
        }
    } else if field(op, 23, 27) == 0b00001 && field(op, 4, 7) == 0b1001 {
        ArmModeInstruction::MultiplyLong {
            variant: multiply_long_variant_of(field(op, 21, 24)),
            condition,
            should_set_codes: flag(op, 20),
            rdhi_destination_register: field(op, 16, 19),
            rdlo_destination_register: field(op, 12, 15),
            rs_operand_register: field(op, 8, 11),
            rm_operand_register: field(op, 0, 3),
        }
    } else if field(op, 22, 27) == 0b00_0000 && field(op, 4, 7) == 0b1001 {
        ArmModeInstruction::Multiply {
            variant: multiply_variant_of(field(op, 21, 24)),
            condition,
            should_set_codes: flag(op, 20),
            rd_destination_register: field(op, 16, 19),
            rn_accumulate_register: field(op, 12, 15),
            rs_operand_register: field(op, 8, 11),
            rm_operand_register: field(op, 0, 3),
        }
    } else if field(op, 25, 27) == 0b000 && flag(op, 7) && flag(op, 4) {
        decode_halfword_or_swap(op, condition)
    } else if field(op, 25, 27) == 0b011 && flag(op, 4) {
        ArmModeInstruction::Undefined
    } else if field(op, 24, 27) == 0b1111 {
        ArmModeInstruction::SoftwareInterrupt
    } else if field(op, 24, 27) == 0b1110 && flag(op, 4) {
        ArmModeInstruction::CoprocessorRegisterTransfer
    } else if field(op, 24, 27) == 0b1110 && !flag(op, 4) {
        ArmModeInstruction::CoprocessorDataOperation
    } else if field(op, 25, 27) == 0b110 {
        ArmModeInstruction::CoprocessorDataTransfer {
            condition,
            indexing: indexing_of(flag(op, 24)),
            offsetting: offsetting_of(flag(op, 23)),
            transfer_length: flag(op, 22),
            write_back: flag(op, 21),
            load_store: load_store_of(flag(op, 20)),
            rn: field(op, 16, 19),
            crd: field(op, 12, 15),
            cp_number: field(op, 8, 11),
            offset: field(op, 0, 7),
        }
    } else if field(op, 25, 27) == 0b100 {
        ArmModeInstruction::BlockDataTransfer {
            condition,
            indexing: indexing_of(flag(op, 24)),
            offsetting: offsetting_of(flag(op, 23)),
            load_psr: flag(op, 22),
            write_back: flag(op, 21),
            load_store: load_store_of(flag(op, 20)),
            rn: field(op, 16, 19),
            register_list: field(op, 0, 15),
        }
    } else if field(op, 25, 27) == 0b101 {
        ArmModeInstruction::Branch {
            condition,
            link: flag(op, 24),
            offset: field(op, 0, 23) << 2u32,
        }
    } else if field(op, 26, 27) == 0b01 {
        decode_single_data_transfer(op, condition)
    } else {
        decode_data_processing(op, condition)
    }
}

impl SingleDataTransferOffsetInfo {
    /// `#offset`, or `reg, SHIFT #amount`.
    pub open spec fn text(self) -> Seq<char> {
        match self {
            SingleDataTransferOffsetInfo::Immediate { offset } => "#"@ + decimal(offset as nat),
            SingleDataTransferOffsetInfo::RegisterImmediate {
                shift_amount,
                shift_kind,
                reg_offset,
            } => decimal(reg_offset as nat) + ", "@ + shift_kind.text() + " #"@ + decimal(
                shift_amount as nat,
            ),
        }
    }

    /// Appends the text of the offset.
    pub fn write_to(&self, s: &mut String)
        ensures
            final(s)@ == old(s)@ + self.text(),
    {
        match self {
            Self::Immediate { offset } => {
                s.append("#");
                push_decimal(s, *offset);
            },
            Self::RegisterImmediate { shift_amount, shift_kind, reg_offset } => {
                push_decimal(s, *reg_offset);
                s.append(", ");
                s.append(shift_kind.to_str());
                s.append(" #");
                push_decimal(s, *shift_amount);
            },
        }
        proof {
            assert(s@ =~= old(s)@ + self.text());
        }
    }

    /// The text of the offset as a `String`.
    pub fn to_string(&self) -> (r: String)
        ensures
            r@ == self.text(),
    {
        let mut s = String::new();
        self.write_to(&mut s);
        proof {
            assert(s@ =~= self.text());
        }
        s
    }
}

/// The names `R<i>` of the registers whose bit is set in `list`, among the
/// first `n` registers, lowest first.
pub open spec fn register_names(list: u32, n: nat) -> Seq<Seq<char>>
    decreases n,
{
    if n == 0 {
        seq![]
    } else {
        let prev = register_names(list, (n - 1) as nat);
        if bit_at(list as u128, (n - 1) as u128) {
            prev.push("R"@ + decimal((n - 1) as nat))
        } else {
            prev
        }
    }
}

/// The parts joined with `-` between them.
pub open spec fn join_dash(parts: Seq<Seq<char>>) -> Seq<char>
    decreases parts.len(),
{
    if parts.len() == 0 {
        seq![]
    } else if parts.len() == 1 {
        parts[0]
    } else {
        join_dash(parts.drop_last()) + "-"@ + parts.last()
    }
}

/// The offset of a halfword transfer: nothing for a zero immediate, else a
/// comma, the sign of the offset and the immediate or register.
pub open spec fn halfword_offset_text(
    offset_kind: HalfwordDataTransferOffsetKind,
    offsetting: Offsetting,
) -> Seq<char> {
    let sign = if offsetting == Offsetting::Up {
        "+"@
    } else {
        "-"@
    };
    match offset_kind {
        HalfwordDataTransferOffsetKind::Immediate { offset } => if offset == 0 {
            ""@
        } else {
            ",#"@ + sign + decimal(offset as nat)
        },
        HalfwordDataTransferOffsetKind::Register { register } => ","@ + sign + "R"@ + decimal(
            register as nat,
        ),
    }
}

/// The offset text of a halfword transfer.
fn halfword_offset(offset_kind: HalfwordDataTransferOffsetKind, offsetting: Offsetting) -> (r:
    String)
    ensures
        r@ == halfword_offset_text(offset_kind, offsetting),
{
    let sign = match offsetting {
        Offsetting::Up => "+",
        Offsetting::Down => "-",
    };
    let mut offset = String::new();
    match offset_kind {
        HalfwordDataTransferOffsetKind::Immediate { offset: value } => {
            if value != 0 {
                offset.append(",#");
                offset.append(sign);
                push_decimal(&mut offset, value);
            }
        },
        HalfwordDataTransferOffsetKind::Register { register } => {
            offset.append(",");
            offset.append(sign);
            offset.append("R");
            push_decimal(&mut offset, register);
        },
    }
    proof {
        reveal_strlit("");
        assert(offset@ =~= halfword_offset_text(offset_kind, offsetting));
    }
    offset
}

/// The text of a block transfer: `LDM`/`STM`, the condition, `I`/`D`, `B`/`A`,
/// the base register with `!` for write-back, the register list in braces and
/// `^` when the PSR is loaded.
pub open spec fn block_transfer_text(
    condition: Condition,
    indexing: Indexing,
    offsetting: Offsetting,
    load_psr: bool,
    write_back: bool,
    load_store: LoadStoreKind,
    rn: u32,
    register_list: u32,
) -> Seq<char> {
    let op = if load_store == LoadStoreKind::Store {
        "STM"@
    } else {
        "LDM"@
    };
    let offset_modifier = if offsetting == Offsetting::Down {
        "D"@
    } else {
        "I"@
    };
    let index_type = if indexing == Indexing::Pre {
        "B"@
    } else {
        "A"@
    };
    let w = if write_back {
        "!"@
    } else {
        ""@
    };
    let f = if load_psr {
        "^"@
    } else {
        ""@
    };
    op + condition.text() + offset_modifier + index_type + ", R"@ + decimal(rn as nat) + w
        + " {"@ + join_dash(register_names(register_list, 16)) + "}"@ + f
}

/// The instructions that the disassembler writes: all but the undefined
/// instruction, software interrupts, coprocessor data operations and register
/// transfers, and preloads.
pub open spec fn has_disassembly(i: ArmModeInstruction) -> bool {
    match i {
        ArmModeInstruction::Undefined | ArmModeInstruction::CoprocessorDataOperation
        | ArmModeInstruction::CoprocessorRegisterTransfer
        | ArmModeInstruction::SoftwareInterrupt => false,
        ArmModeInstruction::SingleDataTransfer { kind, .. } => kind
            != SingleDataTransferKind::Pld,
        _ => true,
    }
}

/// The assembler text of a decoded instruction.
pub open spec fn disassembly(i: ArmModeInstruction) -> Seq<char> {
    match i {
        ArmModeInstruction::DataProcessing {
            condition,
            alu_instruction,
            set_conditions,
            rn,
            destination,
            op2,
            ..
        } => {
            let set = if set_conditions {
                "S"@
            } else {
                ""@
            };
            if is_test_instr(alu_instruction) {
                alu_instruction.text() + condition.text() + " R"@ + decimal(rn as nat) + ", "@
                    + op2.text()
            } else if alu_instruction == ArmModeAluInstr::Mov || alu_instruction
                == ArmModeAluInstr::Mvn {
                alu_instruction.text() + condition.text() + set + " R"@ + decimal(
                    destination as nat,
                ) + ", "@ + op2.text()
            } else {
                alu_instruction.text() + condition.text() + set + " R"@ + decimal(
                    destination as nat,
                ) + ", R"@ + decimal(rn as nat) + ", "@ + op2.text()
            }
        },
        ArmModeInstruction::Multiply {
            variant,
            condition,
            should_set_codes,
            rd_destination_register,
            rn_accumulate_register,
            rs_operand_register,
            rm_operand_register,
        } => {
            let common = condition.text() + bool_text(should_set_codes) + " "@ + decimal(
                rd_destination_register as nat,
            ) + ", "@ + decimal(rm_operand_register as nat) + ", "@ + decimal(
                rs_operand_register as nat,
            );
            match variant {
                ArmModeMultiplyVariant::Mul => "MUL"@ + common,
                ArmModeMultiplyVariant::Mla => "MLA"@ + common + ", "@ + decimal(
                    rn_accumulate_register as nat,
                ),
            }
        },
        ArmModeInstruction::MultiplyLong {
            variant,
            condition,
            should_set_codes,
            rdhi_destination_register,
            rdlo_destination_register,
            rs_operand_register,
            rm_operand_register,
        } => variant.text() + condition.text() + bool_text(should_set_codes) + " "@ + decimal(
            rdlo_destination_register as nat,
        ) + ", "@ + decimal(rdhi_destination_register as nat) + ", "@ + decimal(
            rm_operand_register as nat,
        ) + ", "@ + decimal(rs_operand_register as nat),
        ArmModeInstruction::PSRTransfer { condition, psr_kind, kind } => match kind {
            PsrOpKind::Mrs { destination_register } => "MRS"@ + condition.text() + " R"@
                + decimal(destination_register as nat) + ", "@ + psr_kind.text(),
            PsrOpKind::Msr { source_register } => "MSR"@ + condition.text() + " "@
                + psr_kind.text() + ", R"@ + decimal(source_register as nat),
            PsrOpKind::MsrFlg { operand, field_mask } => "MSR"@ + condition.text() + " "@
                + psr_kind.text() + ", "@ + operand.text() + " (mask: 0x"@ + hex(
                field_mask as nat,
                0,
            ) + ")"@,
        },
        ArmModeInstruction::SingleDataSwap { condition, byte, rn, rd, rm } => (if byte {
            "swpb"@
        } else {
            "swp"@
        }) + condition.text() + " r"@ + decimal(rd as nat) + ", r"@ + decimal(rm as nat)
            + ", [r"@ + decimal(rn as nat) + "]"@,
        ArmModeInstruction::BranchAndExchange { condition, register } => "BX"@
            + condition.text() + " R"@ + decimal(register as nat),
        ArmModeInstruction::HalfwordDataTransfer {
            condition,
            indexing,
            offsetting,
            write_back,
            load_store_kind,
            offset_kind,
            base_register,
            source_destination_register,
            transfer_kind,
        } => {
            let offset = halfword_offset_text(offset_kind, offsetting);
            let w = if write_back {
                "!"@
            } else {
                ""@
            };
            let address = if indexing == Indexing::Pre {
                "[R"@ + decimal(base_register as nat) + offset + w + "]"@
            } else {
                "[R"@ + decimal(base_register as nat) + "]"@ + offset
            };
            load_store_kind.text() + condition.text() + transfer_kind.text() + " R"@ + decimal(
                source_destination_register as nat,
            ) + ", "@ + address
        },
        ArmModeInstruction::SingleDataTransfer { condition, kind, quantity, rd, offset_info, .. } => {
            let op = if kind == SingleDataTransferKind::Ldr {
                "LDR"@
            } else {
                "STR"@
            };
            let b = if quantity == ReadWriteKind::Byte {
                "B"@
            } else {
                ""@
            };
            op + condition.text() + b + " R"@ + decimal(rd as nat) + ", "@ + offset_info.text()
        },
        ArmModeInstruction::BlockDataTransfer {
            condition,
            indexing,
            offsetting,
            load_psr,
            write_back,
            load_store,
            rn,
            register_list,
        } => block_transfer_text(
            condition,
            indexing,
            offsetting,
            load_psr,
            write_back,
            load_store,
            rn,
            register_list,
        ),
        ArmModeInstruction::Branch { condition, link, offset } => "B"@ + (if link {
            "L"@
        } else {
            ""@
        }) + condition.text() + " 0x"@ + hex(offset as nat, 8),
        ArmModeInstruction::CoprocessorDataTransfer {
            condition,
            transfer_length,
            load_store,
            crd,
            cp_number,
            offset,
            ..
        } => (if load_store == LoadStoreKind::Store {
            "SDC"@
        } else {
            "LDC"@
        }) + condition.text() + (if transfer_length {
            "L"@
        } else {
            ""@
        }) + " p"@ + decimal(cp_number as nat) + ","@ + decimal(crd as nat) + ","@ + hex(
            offset as nat,
            8,
        ),
        _ => seq![],
    }
}

impl ArmModeInstruction {
    /// The assembler text of the instruction.
    pub fn disassembler(&self) -> (r: String)
        requires
            has_disassembly(*self),
        ensures
            r@ == disassembly(*self),
    {
        let mut s = String::new();
        match self {
            Self::DataProcessing {
                condition,
                alu_instruction,
                set_conditions,
                op_kind: _,
                rn,
                destination,
                op2,
            } => {
                let set_string = if *set_conditions {
                    "S"
                } else {
                    ""
                };
                s.append(alu_instruction.to_str());
                s.append(condition.to_str());
                match alu_instruction {
                    ArmModeAluInstr::Tst | ArmModeAluInstr::Teq | ArmModeAluInstr::Cmp
                    | ArmModeAluInstr::Cmn => {
                        s.append(" R");
                        push_decimal(&mut s, *rn);
                        s.append(", ");
                        op2.write_to(&mut s);
                    },
                    ArmModeAluInstr::Mov | ArmModeAluInstr::Mvn => {
                        s.append(set_string);
                        s.append(" R");
                        push_decimal(&mut s, *destination);
                        s.append(", ");
                        op2.write_to(&mut s);
                    },
                    _ => {
                        s.append(set_string);
                        s.append(" R");
                        push_decimal(&mut s, *destination);
                        s.append(", R");
                        push_decimal(&mut s, *rn);
                        s.append(", ");
                        op2.write_to(&mut s);
                    },
                }
            },
            Self::Multiply {
                variant,
                condition,
                should_set_codes,
                rd_destination_register,
                rn_accumulate_register,
                rs_operand_register,
                rm_operand_register,
            } => {
                match variant {
                    ArmModeMultiplyVariant::Mul => s.append("MUL"),
                    ArmModeMultiplyVariant::Mla => s.append("MLA"),
                }
                s.append(condition.to_str());
                push_bool(&mut s, *should_set_codes);
                s.append(" ");
                push_decimal(&mut s, *rd_destination_register);
                s.append(", ");
                push_decimal(&mut s, *rm_operand_register);
                s.append(", ");
                push_decimal(&mut s, *rs_operand_register);
                if *variant == ArmModeMultiplyVariant::Mla {
                    s.append(", ");
                    push_decimal(&mut s, *rn_accumulate_register);
                }
            },
            Self::MultiplyLong {
                variant,
                condition,
                should_set_codes,
                rdhi_destination_register,
                rdlo_destination_register,
                rs_operand_register,
                rm_operand_register,
            } => {
                s.append(variant.to_str());
                s.append(condition.to_str());
                push_bool(&mut s, *should_set_codes);
                s.append(" ");
                push_decimal(&mut s, *rdlo_destination_register);
                s.append(", ");
                push_decimal(&mut s, *rdhi_destination_register);
                s.append(", ");
                push_decimal(&mut s, *rm_operand_register);
                s.append(", ");
                push_decimal(&mut s, *rs_operand_register);
            },
            Self::PSRTransfer { condition, psr_kind, kind } => match kind {
                PsrOpKind::Mrs { destination_register } => {
                    s.append("MRS");
                    s.append(condition.to_str());
                    s.append(" R");
                    push_decimal(&mut s, *destination_register);
                    s.append(", ");
                    s.append(psr_kind.to_str());
                },
                PsrOpKind::Msr { source_register } => {
                    s.append("MSR");
                    s.append(condition.to_str());
                    s.append(" ");
                    s.append(psr_kind.to_str());
                    s.append(", R");
                    push_decimal(&mut s, *source_register);
                },
                PsrOpKind::MsrFlg { operand, field_mask } => {
                    s.append("MSR");
                    s.append(condition.to_str());
                    s.append(" ");
                    s.append(psr_kind.to_str());
                    s.append(", ");
                    operand.write_to(&mut s);
                    s.append(" (mask: 0x");
                    push_hex(&mut s, *field_mask, 0);
                    s.append(")");
                },
            },
            Self::SingleDataSwap { condition, byte, rn, rd, rm } => {
                let mnemonic = if *byte {
                    "swpb"
                } else {
                    "swp"
                };
                s.append(mnemonic);
                s.append(condition.to_str());
                s.append(" r");
                push_decimal(&mut s, *rd);
                s.append(", r");
                push_decimal(&mut s, *rm);
                s.append(", [r");
                push_decimal(&mut s, *rn);
                s.append("]");
            },
            Self::BranchAndExchange { condition, register } => {
                s.append("BX");
                s.append(condition.to_str());
                s.append(" R");
                push_decimal_usize(&mut s, *register);
            },
            Self::HalfwordDataTransfer { .. } => {
                self.write_halfword_transfer(&mut s);
            },
            Self::SingleDataTransfer { condition, kind, quantity, rd, offset_info, .. } => {
                let b = match quantity {
                    ReadWriteKind::Word => "",
                    ReadWriteKind::Byte => "B",
                };
                let op = match kind {
                    SingleDataTransferKind::Ldr => "LDR",
                    _ => "STR",
                };
                s.append(op);
                s.append(condition.to_str());
                s.append(b);
                s.append(" R");
                push_decimal(&mut s, *rd);
                s.append(", ");
                offset_info.write_to(&mut s);
            },
            Self::BlockDataTransfer {
                condition,
                indexing,
                offsetting,
                load_psr,
                write_back,
                load_store,
                rn,
                register_list,
            } => {
                Self::write_block_transfer(
                    &mut s,
                    *condition,
                    *indexing,
                    *offsetting,
                    *load_psr,
                    *write_back,
                    *load_store,
                    *rn,
                    *register_list,
                );
            },
            Self::Branch { condition, link, offset } => {
                s.append("B");
                let link = if *link {
                    "L"
                } else {
                    ""
                };
                s.append(link);
                s.append(condition.to_str());
                s.append(" 0x");
                push_hex(&mut s, *offset, 8);
            },
            Self::CoprocessorDataTransfer {
                condition,
                transfer_length,
                load_store,
                crd,
                cp_number,
                offset,
                ..
            } => {
                // <LDC|STC>{cond}{L} p#,cd,<Address>
                let op = match load_store {
                    LoadStoreKind::Store => "SDC",
                    LoadStoreKind::Load => "LDC",
                };
                let long_transfer = if *transfer_length {
                    "L"
                } else {
                    ""
                };
                s.append(op);
                s.append(condition.to_str());
                s.append(long_transfer);
                s.append(" p");
                push_decimal(&mut s, *cp_number);
                s.append(",");
                push_decimal(&mut s, *crd);
                s.append(",");
                push_hex(&mut s, *offset, 8);
            },
            _ => {
                proof {
                    assert(false);
                }
            },
        }
        proof {
            assert(s@ =~= disassembly(*self));
        }
        s
    }

    /// Appends the text of a halfword transfer.
    fn write_halfword_transfer(&self, s: &mut String)
        requires
            self is HalfwordDataTransfer,
        ensures
            final(s)@ == old(s)@ + disassembly(*self),
    {
        match self {
            Self::HalfwordDataTransfer {
                condition,
                indexing,
                offsetting,
                load_store_kind,
                transfer_kind,
                source_destination_register,
                offset_kind,
                base_register,
                write_back,
            } => {
                let offset = halfword_offset(*offset_kind, *offsetting);
                let w = if *write_back {
                    "!"
                } else {
                    ""
                };
                s.append(load_store_kind.to_str());
                s.append(condition.to_str());
                s.append(transfer_kind.to_str());
                s.append(" R");
                push_decimal(s, *source_destination_register);
                s.append(", ");
                s.append("[R");
                push_decimal(s, *base_register);
                match indexing {
                    Indexing::Pre => {
                        s.append(offset.as_str());
                        s.append(w);
                        s.append("]");
                    },
                    Indexing::Post => {
                        s.append("]");
                        s.append(offset.as_str());
                    },
                }
                proof {
                    assert(s@ =~= old(s)@ + disassembly(*self));
                }
            },
            _ => {},
        }
    }

    /// Appends the text of a block transfer.
    fn write_block_transfer(
        s: &mut String,
        condition: Condition,
        indexing: Indexing,
        offsetting: Offsetting,
        load_psr: bool,
        write_back: bool,
        load_store: LoadStoreKind,
        rn: u32,
        register_list: u32,
    )
        ensures
            final(s)@ == old(s)@ + block_transfer_text(
                condition,
                indexing,
                offsetting,
                load_psr,
                write_back,
                load_store,
                rn,
                register_list,
            ),
    {
        let op = match load_store {
            LoadStoreKind::Store => "STM",
            LoadStoreKind::Load => "LDM",
        };
        let offset_modifier = match offsetting {
            Offsetting::Down => "D",
            Offsetting::Up => "I",
        };
        let index_type = match indexing {
            Indexing::Pre => "B",
            Indexing::Post => "A",
        };
        let registers = register_list_text(register_list);
        let w = if write_back {
            "!"
        } else {
            ""
        };
        let f = if load_psr {
            "^"
        } else {
            ""
        };
        s.append(op);
        s.append(condition.to_str());
        s.append(offset_modifier);
        s.append(index_type);
        s.append(", R");
        push_decimal(s, rn);
        s.append(w);
        s.append(" {");
        s.append(registers.as_str());
        s.append("}");
        s.append(f);
        proof {
            assert(s@ =~= old(s)@ + block_transfer_text(
                condition,
                indexing,
                offsetting,
                load_psr,
                write_back,
                load_store,
                rn,
                register_list,
            ));
        }
    }
}

/// The registers set in `register_list`, as `R<i>` joined with `-`.
fn register_list_text(register_list: u32) -> (r: String)
    ensures
        r@ == join_dash(register_names(register_list, 16)),
{
    let mut regs = String::new();
    let mut first = true;
    let mut i: u8 = 0;
    while i <= 15
        invariant
            i <= 16,
            regs@ == join_dash(register_names(register_list, i as nat)),
            first == (register_names(register_list, i as nat).len() == 0),
        decreases 16 - i,
    {
        let ghost names = register_names(register_list, i as nat);
        if register_list.get_bit(i) {
            if !first {
                regs.append("-");
            }
            regs.append("R");
            push_decimal(&mut regs, i as u32);
            first = false;
            proof {
                let next = register_names(register_list, (i + 1) as nat);
                assert(next == names.push("R"@ + decimal(i as nat)));
                assert(next.drop_last() =~= names);
                if names.len() == 0 {
                    assert(regs@ =~= join_dash(next));
                } else {
                    assert(regs@ =~= join_dash(next));
                }
            }
        }
        i = i + 1;
    }
    regs
}

/// How the category fields of an opcode nest: bits 25-27 are bits 26-27 and
/// bit 25; bits 24-27 are bits 25-27 and bit 24.
proof fn lemma_category_fields(op: u32)
    ensures
        field(op, 25, 27) == field(op, 26, 27) * 2 + (if flag(op, 25) {
            1u32
        } else {
            0
        }),
        field(op, 24, 27) == field(op, 25, 27) * 2 + (if flag(op, 24) {
            1u32
        } else {
            0
        }),
        field(op, 26, 27) <= 3,
{
    crate::bitwise::lemma_field_masks();
    lemma_field_le(op, 25, 27);
    lemma_field_le(op, 26, 27);
    lemma_field_le(op, 24, 27);
    lemma_category_bits(op as u128);
}

proof fn lemma_category_bits(v: u128)
    by (bit_vector)
    requires
        v <= 0xFFFF_FFFF,
    ensures
        (v >> 25u128) & 7 == ((v >> 26u128) & 3) * 2 + (if (v >> 25u128) & 1 == 1 {
            1u128
        } else {
            0
        }),
        (v >> 24u128) & 15 == ((v >> 25u128) & 7) * 2 + (if (v >> 24u128) & 1 == 1 {
            1u128
        } else {
            0
        }),
{
}

impl From<u32> for ArmModeInstruction {
    fn from(op_code: u32) -> (r: Self) {
        proof {
            crate::bitwise::lemma_field_masks();
            lemma_field_le(op_code, 28, 31);
            lemma_field_le(op_code, 0, 3);
            lemma_field_le(op_code, 5, 6);
            lemma_field_le(op_code, 8, 11);
            lemma_field_le(op_code, 21, 24);
            lemma_field_le(op_code, 23, 27);
            lemma_field_le(op_code, 22, 27);
            lemma_category_fields(op_code);
        }
        let condition = Condition::from(op_code.get_bits(28..=31) as u8);
        // The fields that tell the instruction categories apart.
        let f4_27 = op_code.get_bits(4..=27);
        let f4_11 = op_code.get_bits(4..=11);
        let f4_7 = op_code.get_bits(4..=7);
        let f20_21 = op_code.get_bits(20..=21);
        let f22_27 = op_code.get_bits(22..=27);
        let f23_27 = op_code.get_bits(23..=27);
        let f24_27 = op_code.get_bits(24..=27);
        let f25_27 = op_code.get_bits(25..=27);
        let f26_27 = op_code.get_bits(26..=27);
        let bit4 = op_code.get_bit(4);
        let bit7 = op_code.get_bit(7);
        // NOTE: The order is based on how many bits are already know at decoding time.
        if f4_27 == 0b0001_0010_1111_1111_1111_0001 {
            let register = op_code.get_bits(0..=3) as usize;
            Self::BranchAndExchange { condition, register }
        } else if f23_27 == 0b00010 && f20_21 == 0b00
            && f4_11 == 0b0000_1001 {
            let byte = op_code.get_bit(22);
            let rn = op_code.get_bits(16..=19);
            let rd = op_code.get_bits(12..=15);
            let rm = op_code.get_bits(0..=3);
            Self::SingleDataSwap { condition, byte, rn, rd, rm }
        } else if f23_27 == 0b00001 && f4_7 == 0b1001 {
            proof {
                lemma_multiply_long_opcode(op_code);
            }
            let variant = ArmModeMultiplyLongVariant::from(op_code);
            let should_set_codes = op_code.get_bit(20);
            let rm_operand_register = op_code.get_bits(0..=3);
            let rs_operand_register = op_code.get_bits(8..=11);
            let rdlo_destination_register = op_code.get_bits(12..=15);
            let rdhi_destination_register = op_code.get_bits(16..=19);
            Self::MultiplyLong {
                variant,
                condition,
                should_set_codes,
                rdhi_destination_register,
                rdlo_destination_register,
                rm_operand_register,
                rs_operand_register,
            }
        } else if f22_27 == 0b00_0000 && f4_7 == 0b1001 {
            proof {
                lemma_multiply_opcode(op_code);
            }
            let variant = ArmModeMultiplyVariant::from(op_code);
            let should_set_codes = op_code.get_bit(20);
            let rm_operand_register = op_code.get_bits(0..=3);
            let rs_operand_register = op_code.get_bits(8..=11);
            let rn_accumulate_register = op_code.get_bits(12..=15);
            let rd_destination_register = op_code.get_bits(16..=19);
            Self::Multiply {
                variant,
                condition,
                should_set_codes,
                rd_destination_register,
                rn_accumulate_register,
                rm_operand_register,
                rs_operand_register,
            }
        } else if f25_27 == 0b000 && bit7 && bit4 {
            Self::from_halfword_or_swap(op_code, condition)
        } else if f25_27 == 0b011 && bit4 {
            Self::Undefined
        } else if f24_27 == 0b1111 {
            Self::SoftwareInterrupt
        } else if f24_27 == 0b1110 && bit4 {
            Self::CoprocessorRegisterTransfer
        } else if f24_27 == 0b1110 && !bit4 {
            Self::CoprocessorDataOperation
        } else if f25_27 == 0b110 {
            let indexing: Indexing = op_code.get_bit(24).into();
            let offsetting: Offsetting = op_code.get_bit(23).into();
            let transfer_length = op_code.get_bit(22);
            let write_back = op_code.get_bit(21);
            let load_store: LoadStoreKind = op_code.get_bit(20).into();
            let rn = op_code.get_bits(16..=19);
            let crd = op_code.get_bits(12..=15);
            let cp_number = op_code.get_bits(8..=11);
            let offset = op_code.get_bits(0..=7);
            Self::CoprocessorDataTransfer {
                condition,
                indexing,
                offsetting,
                transfer_length,
                write_back,
                load_store,
                rn,
                crd,
                cp_number,
                offset,
            }
        } else if f25_27 == 0b100 {
            let indexing: Indexing = op_code.get_bit(24).into();
            let offsetting: Offsetting = op_code.get_bit(23).into();
            let load_psr = op_code.get_bit(22);
            let write_back = op_code.get_bit(21);
            let load_store: LoadStoreKind = op_code.get_bit(20).into();
            let rn = op_code.get_bits(16..=19);
            let reg_list = op_code.get_bits(0..=15);
            Self::BlockDataTransfer {
                condition,
                indexing,
                offsetting,
                load_psr,
                write_back,
                load_store,
                rn,
                register_list: reg_list,
            }
        } else if f25_27 == 0b101 {
            let link = op_code.get_bit(24);
            let offset = op_code.get_bits(0..=23) << 2u32;
            Self::Branch { condition, link, offset }
        } else if f26_27 == 0b01 {
            Self::from_single_data_transfer(op_code, condition)
        } else {
            Self::from_data_processing(op_code, condition)
        }
    }
}


impl ArmModeInstruction {
    /// Decodes a halfword transfer, or a swap when the SH bits are zero.
    fn from_halfword_or_swap(op_code: u32, condition: Condition) -> (r: Self)
        ensures
            r == decode_halfword_or_swap(op_code, condition),
    {
        proof {
            crate::bitwise::lemma_field_masks();
            lemma_field_le(op_code, 0, 3);
            lemma_field_le(op_code, 5, 6);
            lemma_field_le(op_code, 8, 11);
            lemma_field_le(op_code, 21, 24);
        }
    // SH bits 00 is a swap, anything else a halfword transfer
    let sh_bits = op_code.get_bits(5..=6);
    if sh_bits == 0b00 {
        let byte = op_code.get_bit(22);
        let rn = op_code.get_bits(16..=19);
        let rd = op_code.get_bits(12..=15);
        let rm = op_code.get_bits(0..=3);
        Self::SingleDataSwap { condition, byte, rn, rd, rm }
    } else {
        let indexing: Indexing = op_code.get_bit(24).into();
        let offsetting: Offsetting = op_code.get_bit(23).into();
        let write_back = op_code.get_bit(21);
        let load_store_kind: LoadStoreKind = op_code.get_bit(20).into();
        let base_register = op_code.get_bits(16..=19);
        let source_destination_register = op_code.get_bits(12..=15);
        proof {
            crate::bitwise::lemma_bit_field_le((sh_bits as u8) as u128, 0, 2);
            lemma_low_two_bits(sh_bits);
        }
        let transfer_kind = HalfwordTransferKind::from(sh_bits as u8);
        let operand_kind: OperandKind = op_code.get_bit(22).into();
        Self::HalfwordDataTransfer {
            condition,
            indexing,
            offsetting,
            write_back,
            load_store_kind,
            offset_kind: if operand_kind == OperandKind::Register {
                HalfwordDataTransferOffsetKind::Register {
                    register: op_code.get_bits(0..=3),
                }
            } else {
                let immediate_offset_high = op_code.get_bits(8..=11);
                let immediate_offset_low = op_code.get_bits(0..=3);
                HalfwordDataTransferOffsetKind::Immediate {
                    offset: (immediate_offset_high << 4u32) | immediate_offset_low,
                }
            },
            base_register,
            source_destination_register,
            transfer_kind,
        }
    }
    }

    /// Decodes a single data transfer (LDR/STR).
    fn from_single_data_transfer(op_code: u32, condition: Condition) -> (r: Self)
        ensures
            r == decode_single_data_transfer(op_code, condition),
    {
        proof {
            crate::bitwise::lemma_field_masks();
            lemma_field_le(op_code, 0, 3);
            lemma_field_le(op_code, 5, 6);
            lemma_field_le(op_code, 8, 11);
            lemma_field_le(op_code, 21, 24);
        }
    // The I bit is negated because its meaning is inverted in single data transfers.
    let op_kind: OperandKind = (!op_code.get_bit(25)).into();
    let indexing: Indexing = op_code.get_bit(24).into();
    let offsetting: Offsetting = op_code.get_bit(23).into();
    let byte_or_word: ReadWriteKind = op_code.into();
    let load_store: SingleDataTransferKind = op_code.into();
    let write_back = op_code.get_bit(21);
    let rn = op_code.get_bits(16..=19);
    let rd = op_code.get_bits(12..=15);
    let offset_info = match op_kind {
        OperandKind::Immediate => {
            let offset = op_code.get_bits(0..=11);
            SingleDataTransferOffsetInfo::Immediate { offset }
        },
        OperandKind::Register => {
            let shift_amount = op_code.get_bits(7..=11);
            let shift_kind = ShiftKind::from(op_code.get_bits(5..=6));
            let reg_offset = op_code.get_bits(0..=3);
            SingleDataTransferOffsetInfo::RegisterImmediate {
                shift_amount,
                shift_kind,
                reg_offset,
            }
        },
    };
    proof {
        assert(byte_or_word == (if flag(op_code, 22) {
            ReadWriteKind::Byte
        } else {
            ReadWriteKind::Word
        }));
    }
    Self::SingleDataTransfer {
        condition,
        kind: load_store,
        quantity: byte_or_word,
        write_back,
        indexing,
        rd,
        base_register: rn,
        offset_info,
        offsetting,
    }
    }

    /// Decodes a data processing instruction or a PSR transfer.
    fn from_data_processing(op_code: u32, condition: Condition) -> (r: Self)
        ensures
            r == decode_data_processing(op_code, condition),
    {
        proof {
            crate::bitwise::lemma_field_masks();
            lemma_field_le(op_code, 0, 3);
            lemma_field_le(op_code, 5, 6);
            lemma_field_le(op_code, 8, 11);
            lemma_field_le(op_code, 21, 24);
        }
    // Bits 26-27 are zero here: data processing or a PSR transfer.
    let alu_instruction = ArmModeAluInstr::from(op_code.get_bits(21..=24));
    let set_conditions = op_code.get_bit(20);
    let rn = op_code.get_bits(16..=19);
    let op_kind: OperandKind = op_code.get_bit(25).into();
    let rd = op_code.get_bits(12..=15);

    // PSR instructions use TST/TEQ/CMP/CMN encodings with S=0, but only
    // specific patterns are valid.
    if (alu_instruction == ArmModeAluInstr::Tst || alu_instruction == ArmModeAluInstr::Teq
        || alu_instruction == ArmModeAluInstr::Cmp || alu_instruction
        == ArmModeAluInstr::Cmn) && !set_conditions {
        let is_mrs_op = op_code.get_bits(23..=27) == 0b0_0010 && op_code.get_bits(16..=21)
            == 0b00_1111 && op_code.get_bits(0..=11) == 0b0000_0000_0000;
        let is_msr_op = op_code.get_bits(23..=27) == 0b00010 && op_code.get_bits(12..=21)
            == 0b10_1001_1111 && op_code.get_bits(4..=11) == 0b0000_0000;
        let is_msr_flg_op = op_code.get_bits(26..=27) == 0b00 && op_code.get_bits(23..=24)
            == 0b10 && op_code.get_bits(20..=21) == 0b10 && op_code.get_bits(12..=15)
            == 0b1111;
        if is_mrs_op || is_msr_op || is_msr_flg_op {
            let kind = PsrOpKind::try_from(op_code);
            let kind = match kind {
                Ok(k) => k,
                Err(_) => {
                    proof {
                        assert(false);
                    }
                    PsrOpKind::Msr { source_register: 0 }
                },
            };
            return Self::PSRTransfer {
                condition,
                psr_kind: PsrKind::from(op_code.get_bit(22)),
                kind,
            };
        }
        // Some emulators treat these as NOP: return a NOP-like
        // instruction (MOV R0, R0) rather than raising an exception.
        return Self::DataProcessing {
            condition,
            alu_instruction: ArmModeAluInstr::Mov,
            set_conditions: false,
            op_kind: OperandKind::Register,
            rn: 0,
            destination: 0,
            op2: AluSecondOperandInfo::Register {
                shift_op: ShiftOperator::Immediate(0),
                shift_kind: ShiftKind::Lsl,
                register: 0,
            },
        };
    }
    let op2 = match op_kind {
        OperandKind::Immediate => {
            let shift = op_code.get_bits(8..=11) * 2;
            let base = op_code.get_bits(0..=7);
            AluSecondOperandInfo::Immediate { base, shift }
        },
        OperandKind::Register => {
            let shift_kind = ShiftKind::from(op_code.get_bits(5..=6));
            let shift_by_register_bit = op_code.get_bit(4);
            let register = op_code.get_bits(0..=3);
            // A register shift here has bit 7 clear: a set bit 7 with
            // bit 4 is a halfword transfer or swap, decoded above.
            let shift_op = if shift_by_register_bit {
                ShiftOperator::Register(op_code.get_bits(8..=11))
            } else {
                ShiftOperator::Immediate(op_code.get_bits(7..=11))
            };
            AluSecondOperandInfo::Register { shift_op, shift_kind, register }
        },
    };
    Self::DataProcessing {
        condition,
        alu_instruction,
        set_conditions,
        op_kind,
        rn,
        destination: rd,
        op2,
    }
    }
}

impl vstd::std_specs::convert::FromSpecImpl<u32> for ArmModeInstruction {
    open spec fn obeys_from_spec() -> bool {
        true
    }

    open spec fn from_spec(op_code: u32) -> ArmModeInstruction {
        decode(op_code)
    }
}

/// With bits 23-27 equal to `00001`, the multiply-long opcode is 4 to 7.
proof fn lemma_multiply_long_opcode(op: u32)
    requires
        field(op, 23, 27) == 0b00001,
    ensures
        4 <= field(op, 21, 24) <= 7,
{
    crate::bitwise::lemma_field_masks();
    lemma_field_le(op, 21, 24);
    lemma_field_le(op, 23, 27);
    lemma_mul_bits(op as u128);
}

/// With bits 22-27 all zero, the multiply opcode is 0 or 1.
proof fn lemma_multiply_opcode(op: u32)
    requires
        field(op, 22, 27) == 0,
    ensures
        field(op, 21, 24) <= 1,
{
    crate::bitwise::lemma_field_masks();
    lemma_field_le(op, 21, 24);
    lemma_field_le(op, 22, 27);
    lemma_mul_bits(op as u128);
}

proof fn lemma_mul_bits(v: u128)
    by (bit_vector)
    ensures
        (v >> 23u128) & 0x1F == 1 ==> 4 <= ((v >> 21u128) & 0xF) <= 7,
        (v >> 22u128) & 0x3F == 0 ==> ((v >> 21u128) & 0xF) <= 1,
{
}

/// A nonzero two-bit value read as a byte has nonzero low bits.
proof fn lemma_low_two_bits(sh: u32)
    requires
        sh <= 3,
    ensures
        crate::bitwise::bit_field((sh as u8) as u128, 0, 2) == sh as u128,
{
    crate::bitwise::lemma_field_masks();
    lemma_two_bits(sh as u128);
}

proof fn lemma_two_bits(v: u128)
    by (bit_vector)
    requires
        v <= 3,
    ensures
        (v >> 0u128) & 3 == v,
{
}

} // verus!
