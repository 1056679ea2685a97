//! Transfer amounts: unsigned 256-bit integers, held as two 128-bit halves.

use vstd::prelude::*;

verus! {

/// An unsigned 256-bit transfer amount, as its high and low 128 bits.
#[derive(Clone, Copy, PartialEq, Eq, Structural, Debug)]
pub struct Amount {
    pub hi: u128,
    pub lo: u128,
}

impl Amount {
    /// The mathematical value: `hi * 2^128 + lo`.
    pub open spec fn value(self) -> int {
        self.hi * 0x1_0000_0000_0000_0000_0000_0000_0000_0000 + self.lo
    }

    /// An amount small enough to fit in the low half.
    pub fn from_u128(lo: u128) -> (r: Amount)
        ensures
            r.value() == lo,
    {
        Amount { hi: 0, lo }
    }

    /// Whether the amount is at most `limit`.
    pub fn at_most(&self, limit: u128) -> (r: bool)
        ensures
            r == (self.value() <= limit),
    {
        proof {
            if self.hi >= 1 {
                assert(self.hi * 0x1_0000_0000_0000_0000_0000_0000_0000_0000
                    >= 0x1_0000_0000_0000_0000_0000_0000_0000_0000) by (nonlinear_arith)
                    requires
                        self.hi >= 1,
                ;
            }
        }
        self.hi == 0 && self.lo <= limit
    }
}

} // verus!
