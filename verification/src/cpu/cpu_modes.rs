//! The seven operating modes of the ARM7TDMI, stored in bits 0-4 of the
//! CPSR/SPSR. Each exception mode has its own banked registers.
use vstd::prelude::*;

verus! {

/// The CPU operating mode, stored in bits 0-4 of the CPSR/SPSR.
#[derive(Debug, PartialEq, Eq, Structural, Clone, Copy)]
pub enum Mode {
    /// Normal program execution state (unprivileged).
    User,
    /// Fast Interrupt Request mode.
    Fiq,
    /// Interrupt Request mode.
    Irq,
    /// Supervisor mode (privileged), entered via Reset or SWI.
    Supervisor,
    /// Abort mode, entered after a data or prefetch abort.
    Abort,
    /// Undefined instruction mode.
    Undefined,
    /// System mode (privileged, but shares User registers).
    System,
}

impl Mode {
    /// The 5-bit pattern of the mode.
    pub open spec fn code(self) -> u32 {
        match self {
            Mode::User => 0b10000,
            Mode::Fiq => 0b10001,
            Mode::Irq => 0b10010,
            Mode::Supervisor => 0b10011,
            Mode::Abort => 0b10111,
            Mode::Undefined => 0b11011,
            Mode::System => 0b11111,
        }
    }

    /// The mode whose pattern is `n`, or an error for any other number.
    pub fn try_from(n: u32) -> (r: Result<Self, String>)
        ensures
            match r {
                Ok(m) => m.code() == n,
                Err(e) => is_mode_error(n, e),
            },
    {
        match n {
            0b10000 => Ok(Self::User),
            0b10001 => Ok(Self::Fiq),
            0b10010 => Ok(Self::Irq),
            0b10011 => Ok(Self::Supervisor),
            0b10111 => Ok(Self::Abort),
            0b11011 => Ok(Self::Undefined),
            0b11111 => Ok(Self::System),
            _ => {
                let e = String::from_str("Unexpected value for Mode");
                assert(forall|m: Mode| m.code() != n);
                Err(e)
            },
        }
    }
}

/// Whether `n` is the code of a mode.
pub open spec fn is_mode_code(n: u32) -> bool {
    n == 0b10000 || n == 0b10001 || n == 0b10010 || n == 0b10011 || n == 0b10111 || n == 0b11011
        || n == 0b11111
}

/// `e` is the error for `n`: no mode has the pattern `n`, and the message says so.
pub open spec fn is_mode_error(n: u32, e: String) -> bool {
    &&& forall|m: Mode| m.code() != n
    &&& e@ == "Unexpected value for Mode"@
}

impl From<Mode> for u32 {
    fn from(m: Mode) -> (r: Self) {
        match m {
            Mode::User => 0b10000,
            Mode::Fiq => 0b10001,
            Mode::Irq => 0b10010,
            Mode::Supervisor => 0b10011,
            Mode::Abort => 0b10111,
            Mode::Undefined => 0b11011,
            Mode::System => 0b11111,
        }
    }
}

impl vstd::std_specs::convert::FromSpecImpl<Mode> for u32 {
    open spec fn obeys_from_spec() -> bool {
        true
    }

    open spec fn from_spec(v: Mode) -> u32 {
        v.code()
    }
}

/// A mode survives the trip to its pattern and back.
pub proof fn lemma_mode_round_trip(m: Mode, n: Mode)
    ensures
        m.code() == n.code() ==> m == n,
{
}

} // verus!
