//! The banked registers: the copies of R8 to R14 and of the saved program
//! status register that each processor mode keeps while another mode runs.
use crate::cpu::psr::Psr;
use vstd::prelude::*;

verus! {

/// The registers that are not in the register file while the current mode
/// runs: the FIQ copies of R8 to R14 and its SPSR, the other modes' copies of
/// R13, R14 and their SPSR, and the User/System R8 to R14 (`_old`).
#[derive(Clone, Copy, Debug, PartialEq, Eq, Structural)]
pub struct RegisterBank {
    pub r8_old: u32,
    pub r9_old: u32,
    pub r10_old: u32,
    pub r11_old: u32,
    pub r12_old: u32,
    pub r13_old: u32,
    pub r14_old: u32,
    pub r8_fiq: u32,
    pub r9_fiq: u32,
    pub r10_fiq: u32,
    pub r11_fiq: u32,
    pub r12_fiq: u32,
    pub r13_fiq: u32,
    pub r14_fiq: u32,
    pub spsr_fiq: Psr,
    pub r13_svc: u32,
    pub r14_svc: u32,
    pub spsr_svc: Psr,
    pub r13_abt: u32,
    pub r14_abt: u32,
    pub spsr_abt: Psr,
    pub r13_irq: u32,
    pub r14_irq: u32,
    pub spsr_irq: Psr,
    pub r13_und: u32,
    pub r14_und: u32,
    pub spsr_und: Psr,
}

impl RegisterBank {
    /// The bank with every register zero.
    pub open spec fn default_spec() -> RegisterBank {
        RegisterBank {
            r8_old: 0,
            r9_old: 0,
            r10_old: 0,
            r11_old: 0,
            r12_old: 0,
            r13_old: 0,
            r14_old: 0,
            r8_fiq: 0,
            r9_fiq: 0,
            r10_fiq: 0,
            r11_fiq: 0,
            r12_fiq: 0,
            r13_fiq: 0,
            r14_fiq: 0,
            spsr_fiq: Psr(0),
            r13_svc: 0,
            r14_svc: 0,
            spsr_svc: Psr(0),
            r13_abt: 0,
            r14_abt: 0,
            spsr_abt: Psr(0),
            r13_irq: 0,
            r14_irq: 0,
            spsr_irq: Psr(0),
            r13_und: 0,
            r14_und: 0,
            spsr_und: Psr(0),
        }
    }
}

impl Default for RegisterBank {
    /// Every banked register zero.
    fn default() -> (r: Self)
        ensures
            r == RegisterBank::default_spec(),
    {
        RegisterBank {
            r8_old: 0,
            r9_old: 0,
            r10_old: 0,
            r11_old: 0,
            r12_old: 0,
            r13_old: 0,
            r14_old: 0,
            r8_fiq: 0,
            r9_fiq: 0,
            r10_fiq: 0,
            r11_fiq: 0,
            r12_fiq: 0,
            r13_fiq: 0,
            r14_fiq: 0,
            spsr_fiq: Psr(0),
            r13_svc: 0,
            r14_svc: 0,
            spsr_svc: Psr(0),
            r13_abt: 0,
            r14_abt: 0,
            spsr_abt: Psr(0),
            r13_irq: 0,
            r14_irq: 0,
            spsr_irq: Psr(0),
            r13_und: 0,
            r14_und: 0,
            spsr_und: Psr(0),
        }
    }
}

} // verus!
