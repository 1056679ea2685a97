//! Account identifiers and per-account policy records.

use vstd::prelude::*;

verus! {

/// An account identifier: an address-like 160-bit value, held as its high
/// 32 bits and low 128 bits. Identifiers are opaque to the policy: they are
/// only ever compared for equality.
#[derive(Clone, Copy, PartialEq, Eq, Structural, Debug)]
pub struct AccountId {
    pub hi: u32,
    pub lo: u128,
}

impl AccountId {
    /// Whether this is the all-zero identifier, the value the admin field of
    /// a freshly created store holds.
    pub open spec fn is_zero(self) -> bool {
        self.hi == 0 && self.lo == 0
    }

    /// The all-zero identifier.
    pub fn zero() -> (r: AccountId)
        ensures
            r.is_zero(),
    {
        AccountId { hi: 0, lo: 0 }
    }
}

/// One account's policy data. Every identifier implicitly has a record: an
/// account the store has never seen reads as `default_record()`.
#[derive(Clone, Copy, PartialEq, Eq, Structural, Debug)]
pub struct AccountRecord {
    pub whitelisted: bool,
    pub risk_score: u8,
}

/// The record of an account the store holds no entry for: not whitelisted,
/// risk score zero.
pub open spec fn default_record() -> AccountRecord {
    AccountRecord { whitelisted: false, risk_score: 0 }
}

} // verus!
