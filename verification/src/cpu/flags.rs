//! Fields and flags encoded in instructions: operand kinds, shift kinds,
//! load/store direction, data size, indexing and offsetting.
use vstd::prelude::*;

verus! {

/// Specifies whether an operand is an immediate value or a register.
#[derive(Clone, Copy, Debug, Eq, PartialEq, Structural)]
pub enum OperandKind {
    /// The operand is an immediate value embedded in the instruction.
    Immediate,
    /// The operand comes from a register (possibly with a shift applied).
    Register,
}

impl From<bool> for OperandKind {
    fn from(b: bool) -> (r: Self) {
        if b {
            Self::Immediate
        } else {
            Self::Register
        }
    }
}

impl vstd::std_specs::convert::FromSpecImpl<bool> for OperandKind {
    open spec fn obeys_from_spec() -> bool {
        true
    }

    open spec fn from_spec(b: bool) -> OperandKind {
        if b {
            OperandKind::Immediate
        } else {
            OperandKind::Register
        }
    }
}

/// Operation for Thumb "Move Compare Add Subtract Immediate" instructions.
#[derive(Debug, Copy, Clone, PartialEq, Eq, Structural)]
pub enum Operation {
    /// `MOV Rd, #Imm` - Move immediate to register
    Mov,
    /// `CMP Rd, #Imm` - Compare register with immediate (sets flags only)
    Cmp,
    /// `ADD Rd, #Imm` - Add immediate to register
    Add,
    /// `SUB Rd, #Imm` - Subtract immediate from register
    Sub,
}

impl Operation {
    /// The operation whose 2-bit code is `op`.
    pub fn from(op: u16) -> (r: Self)
        requires
            op < 4,
        ensures
            r == (if op == 0 {
                Operation::Mov
            } else if op == 1 {
                Operation::Cmp
            } else if op == 2 {
                Operation::Add
            } else {
                Operation::Sub
            }),
    {
        match op {
            0 => Self::Mov,
            1 => Self::Cmp,
            2 => Self::Add,
            _ => Self::Sub,
        }
    }

    /// The mnemonic of the operation.
    pub open spec fn text(self) -> Seq<char> {
        match self {
            Operation::Mov => "MOV"@,
            Operation::Cmp => "CMP"@,
            Operation::Add => "ADD"@,
            Operation::Sub => "SUB"@,
        }
    }

    /// The mnemonic of the operation as a `String`.
    pub fn to_string(&self) -> (r: String)
        ensures
            r@ == self.text(),
    {
        match self {
            Self::Mov => String::from_str("MOV"),
            Self::Cmp => String::from_str("CMP"),
            Self::Add => String::from_str("ADD"),
            Self::Sub => String::from_str("SUB"),
        }
    }
}

/// The type of shift operation performed by the barrel shifter.
#[derive(Clone, Copy, Debug, Eq, PartialEq, Structural)]
pub enum ShiftKind {
    /// Logical Shift Left - shift bits left, fill with zeros.
    Lsl,
    /// Logical Shift Right - shift bits right, fill with zeros.
    Lsr,
    /// Arithmetic Shift Right - shift bits right, fill with sign bit (preserves sign).
    Asr,
    /// Rotate Right - bits that fall off the right wrap around to the left.
    Ror,
}

/// The shift kind whose 2-bit code is `op`.
pub open spec fn shift_kind_of(op: u32) -> ShiftKind
    recommends
        op < 4,
{
    if op == 0 {
        ShiftKind::Lsl
    } else if op == 1 {
        ShiftKind::Lsr
    } else if op == 2 {
        ShiftKind::Asr
    } else {
        ShiftKind::Ror
    }
}

impl ShiftKind {
    /// The shift kind whose 2-bit code is `op`.
    pub fn from(op: u32) -> (r: Self)
        requires
            op < 4,
        ensures
            r == shift_kind_of(op),
    {
        match op {
            0 => Self::Lsl,
            1 => Self::Lsr,
            2 => Self::Asr,
            _ => Self::Ror,
        }
    }

    /// The shift kind whose 2-bit code is `op`, from a 16-bit field.
    pub fn from_u16(op: u16) -> (r: Self)
        requires
            op < 4,
        ensures
            r == shift_kind_of(op as u32),
    {
        Self::from(op as u32)
    }

    /// The mnemonic of the shift.
    pub open spec fn text(self) -> Seq<char> {
        match self {
            ShiftKind::Lsl => "LSL"@,
            ShiftKind::Lsr => "LSR"@,
            ShiftKind::Asr => "ASR"@,
            ShiftKind::Ror => "ROR"@,
        }
    }

    /// The mnemonic of the shift.
    pub fn to_str(&self) -> (r: &'static str)
        ensures
            r@ == self.text(),
    {
        match self {
            Self::Lsl => "LSL",
            Self::Lsr => "LSR",
            Self::Asr => "ASR",
            Self::Ror => "ROR",
        }
    }

    /// The mnemonic of the shift as a `String`.
    pub fn to_string(&self) -> (r: String)
        ensures
            r@ == self.text(),
    {
        String::from_str(self.to_str())
    }
}

/// The data size for memory read/write operations.
#[derive(Clone, Copy, Debug, Eq, PartialEq, Structural)]
pub enum ReadWriteKind {
    /// Word access (32-bit). Default for most load/store operations.
    Word,
    /// Byte access (8-bit). Used with `LDRB`/`STRB` instructions.
    Byte,
}

impl Default for ReadWriteKind {
    fn default() -> (r: Self)
        ensures
            r == ReadWriteKind::Word,
    {
        Self::Word
    }
}

impl From<bool> for ReadWriteKind {
    fn from(value: bool) -> (r: Self) {
        if value {
            Self::Byte
        } else {
            Self::Word
        }
    }
}

impl vstd::std_specs::convert::FromSpecImpl<bool> for ReadWriteKind {
    open spec fn obeys_from_spec() -> bool {
        true
    }

    open spec fn from_spec(value: bool) -> ReadWriteKind {
        if value {
            ReadWriteKind::Byte
        } else {
            ReadWriteKind::Word
        }
    }
}

impl From<u32> for ReadWriteKind {
    /// The B bit (bit 22) of an instruction selects a byte access.
    fn from(op_code: u32) -> (r: Self) {
        if (op_code >> 22u32) & 1 == 1 {
            Self::Byte
        } else {
            Self::Word
        }
    }
}

impl vstd::std_specs::convert::FromSpecImpl<u32> for ReadWriteKind {
    open spec fn obeys_from_spec() -> bool {
        true
    }

    open spec fn from_spec(op_code: u32) -> ReadWriteKind {
        if (op_code >> 22u32) & 1 == 1 {
            ReadWriteKind::Byte
        } else {
            ReadWriteKind::Word
        }
    }
}

/// Whether a memory operation is a load (read) or store (write).
#[derive(Clone, Copy, Debug, Eq, PartialEq, Structural)]
pub enum LoadStoreKind {
    /// Store: write a register value to memory.
    Store,
    /// Load: read a value from memory into a register.
    Load,
}

impl From<bool> for LoadStoreKind {
    fn from(b: bool) -> (r: Self) {
        if b {
            Self::Load
        } else {
            Self::Store
        }
    }
}

impl vstd::std_specs::convert::FromSpecImpl<bool> for LoadStoreKind {
    open spec fn obeys_from_spec() -> bool {
        true
    }

    open spec fn from_spec(b: bool) -> LoadStoreKind {
        if b {
            LoadStoreKind::Load
        } else {
            LoadStoreKind::Store
        }
    }
}

impl LoadStoreKind {
    /// The mnemonic of the transfer.
    pub open spec fn text(self) -> Seq<char> {
        match self {
            LoadStoreKind::Load => "LDR"@,
            LoadStoreKind::Store => "STR"@,
        }
    }

    /// The mnemonic of the transfer.
    pub fn to_str(&self) -> (r: &'static str)
        ensures
            r@ == self.text(),
    {
        match self {
            Self::Load => "LDR",
            Self::Store => "STR",
        }
    }

    /// The mnemonic of the transfer as a `String`.
    pub fn to_string(&self) -> (r: String)
        ensures
            r@ == self.text(),
    {
        String::from_str(self.to_str())
    }
}

/// When to apply the offset in indexed addressing modes.
#[derive(Clone, Copy, Debug, Eq, PartialEq, Structural)]
pub enum Indexing {
    /// Post-indexed: use base address for transfer, then add offset to base.
    Post,
    /// Pre-indexed: add offset to base before transfer.
    Pre,
}

impl From<bool> for Indexing {
    fn from(state: bool) -> (r: Self) {
        if state {
            Self::Pre
        } else {
            Self::Post
        }
    }
}

impl vstd::std_specs::convert::FromSpecImpl<bool> for Indexing {
    open spec fn obeys_from_spec() -> bool {
        true
    }

    open spec fn from_spec(state: bool) -> Indexing {
        if state {
            Indexing::Pre
        } else {
            Indexing::Post
        }
    }
}

/// The direction of the offset in indexed addressing modes.
#[derive(Clone, Copy, Debug, Eq, PartialEq, Structural)]
pub enum Offsetting {
    /// Subtract the offset from the base address.
    Down,
    /// Add the offset to the base address.
    Up,
}

impl From<bool> for Offsetting {
    fn from(state: bool) -> (r: Self) {
        if state {
            Self::Up
        } else {
            Self::Down
        }
    }
}

impl vstd::std_specs::convert::FromSpecImpl<bool> for Offsetting {
    open spec fn obeys_from_spec() -> bool {
        true
    }

    open spec fn from_spec(state: bool) -> Offsetting {
        if state {
            Offsetting::Up
        } else {
            Offsetting::Down
        }
    }
}

/// The offset type for halfword/signed byte transfer instructions.
#[derive(Copy, Clone, Debug, PartialEq, Eq, Structural)]
pub enum HalfwordDataTransferOffsetKind {
    /// Immediate offset (8-bit value split across instruction fields).
    Immediate {
        /// The combined offset value.
        offset: u32,
    },
    /// Register offset (offset is the value in the specified register).
    Register {
        /// The register number (0-15) containing the offset.
        register: u32,
    },
}

} // verus!
