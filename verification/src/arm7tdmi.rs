//! The register file of the first-generation processor core.
use vstd::prelude::*;

verus! {

/// Contains the 16 registers for the CPU, latest (R15) is special because
/// is the program counter.
pub struct Registers(pub [u32; 16]);

impl Default for Registers {
    fn default() -> (r: Self)
        ensures
            forall|i: int| 0 <= i < 16 ==> r.0[i] == 0,
    {
        Registers([0u32; 16])
    }
}

impl Registers {
    /// The program counter (R15).
    pub fn program_counter(&self) -> (r: usize)
        ensures
            r == self.0[15],
    {
        self.0[15] as usize
    }

    /// Replaces the program counter (R15).
    pub fn set_program_counter(&mut self, new_value: u32)
        ensures
            final(self).0@ == old(self).0@.update(15, new_value),
    {
        self.0[15] = new_value;
    }

    /// Moves the program counter forward by `bytes`, wrapping around at 2^32.
    pub fn advance_program_counter(&mut self, bytes: u32)
        ensures
            final(self).0@ == old(self).0@.update(
                15,
                vstd::wrapping::u32_specs::wrapping_add(old(self).0[15], bytes),
            ),
    {
        self.0[15] = self.0[15].wrapping_add(bytes);
    }

    /// Replaces register `reg`.
    pub fn set_register_at(&mut self, reg: usize, new_value: u32)
        requires
            reg < 16,
        ensures
            final(self).0@ == old(self).0@.update(reg as int, new_value),
    {
        self.0[reg] = new_value;
    }

    /// The value of register `reg`.
    pub fn register_at(&self, reg: usize) -> (r: u32)
        requires
            reg < 16,
        ensures
            r == self.0[reg as int],
    {
        self.0[reg]
    }

    /// All 16 registers, R0 first.
    pub fn to_vec(&self) -> (r: Vec<u32>)
        ensures
            r@ == self.0@,
    {
        vstd::slice::slice_to_vec(self.0.as_slice())
    }
}

/// Reading a register after writing it gives the written value, and every
/// other register keeps its value.
pub proof fn lemma_register_write_read(regs: Registers, reg: int, value: u32, other: int)
    requires
        0 <= reg < 16,
        0 <= other < 16,
    ensures
        regs.0@.update(reg, value)[reg] == value,
        other != reg ==> regs.0@.update(reg, value)[other] == regs.0@[other],
{
}

} // verus!
