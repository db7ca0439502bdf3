//! The result of an arithmetic operation, with the flags it produces.
use vstd::prelude::*;

verus! {

/// A computed value together with the condition flags it sets.
pub struct ArithmeticOpResult {
    pub result: u32,
    pub carry: bool,
    pub overflow: bool,
    pub sign: bool,
    pub zero: bool,
}

} // verus!
