//! The policy engine: configuration singleton, account records, and the
//! transfer decision.

use vstd::prelude::*;

use crate::account::{default_record, AccountId, AccountRecord};
use crate::amount::Amount;
use crate::store::AccountStore;

verus! {

/// The amount limit of the standard tier: 1,000 tokens of 10^18 base units.
pub const STANDARD_TIER_LIMIT: u128 = 1_000_000_000_000_000_000_000;

/// The amount limit of the VIP tier: 1,000,000 tokens of 10^18 base units.
pub const VIP_TIER_LIMIT: u128 = 1_000_000_000_000_000_000_000_000;

/// The threshold `initialize` gives `min_score_active`.
pub const DEFAULT_MIN_SCORE_ACTIVE: u8 = 30;

/// The threshold `initialize` gives `min_score_vip`.
pub const DEFAULT_MIN_SCORE_VIP: u8 = 80;

/// The score `add_to_whitelist` gives a newly onboarded account.
pub const ONBOARD_SCORE: u8 = 50;

/// The largest admissible risk score.
pub const MAX_RISK_SCORE: u8 = 100;

/// How an administrative mutator fails. Failure never changes the store:
/// the mutation is all-or-nothing.
#[derive(Clone, Copy, PartialEq, Eq, Structural, Debug)]
pub enum SentinelError {
    /// The caller is not the admin.
    Unauthorized,
    /// The given risk score is above `MAX_RISK_SCORE`.
    InvalidScore,
}

/// The policy store: the configuration singleton and the account records.
pub struct Sentinel {
    admin: AccountId,
    min_score_active: u8,
    min_score_vip: u8,
    is_paused: bool,
    accounts: AccountStore,
}

/// The amount limit of the tier a score falls in, once the score has passed
/// the active threshold: below the VIP threshold the standard limit, at or
/// above it the VIP limit.
pub open spec fn spec_tier_limit(score: u8, min_score_vip: u8) -> int {
    if score < min_score_vip {
        STANDARD_TIER_LIMIT as int
    } else {
        VIP_TIER_LIMIT as int
    }
}

impl Sentinel {
    /// The admin identifier.
    pub closed spec fn spec_admin(self) -> AccountId {
        self.admin
    }

    /// The active-tier threshold.
    pub closed spec fn spec_min_score_active(self) -> u8 {
        self.min_score_active
    }

    /// The VIP-tier threshold.
    pub closed spec fn spec_min_score_vip(self) -> u8 {
        self.min_score_vip
    }

    /// The global pause flag.
    pub closed spec fn spec_is_paused(self) -> bool {
        self.is_paused
    }

    /// The account records the store holds an entry for.
    pub closed spec fn accounts_map(self) -> Map<AccountId, AccountRecord> {
        self.accounts@
    }

    /// The record of `id`: its entry, or the default for an account the
    /// store has never seen.
    pub open spec fn account(self, id: AccountId) -> AccountRecord {
        if self.accounts_map().contains_key(id) {
            self.accounts_map()[id]
        } else {
            default_record()
        }
    }

    /// Well-formed: the representation holds one entry per identifier, and
    /// every risk score is at most `MAX_RISK_SCORE`.
    pub open spec fn wf(self) -> bool {
        &&& self.store_wf()
        &&& forall|id: AccountId| (#[trigger] self.account(id)).risk_score <= MAX_RISK_SCORE
    }

    /// The account store's representation invariant.
    pub closed spec fn store_wf(self) -> bool {
        self.accounts.wf()
    }

    /// The transfer verdict, in the decision's short-circuit order: the
    /// caller must be the admin, the engine must not be paused, both parties
    /// must be whitelisted, the sender's score must reach the active
    /// threshold, and the amount must be within the sender's tier limit.
    pub open spec fn spec_transfer_allowed(
        self,
        caller: AccountId,
        from: AccountId,
        to: AccountId,
        amount: Amount,
    ) -> bool {
        &&& caller == self.spec_admin()
        &&& !self.spec_is_paused()
        &&& self.account(from).whitelisted
        &&& self.account(to).whitelisted
        &&& self.account(from).risk_score >= self.spec_min_score_active()
        &&& amount.value() <= spec_tier_limit(
            self.account(from).risk_score,
            self.spec_min_score_vip(),
        )
    }

    /// Everything but the account records is as `initialize` leaves it for
    /// owner `owner`.
    pub open spec fn config_initialized(self, owner: AccountId) -> bool {
        &&& self.spec_admin() == owner
        &&& self.spec_min_score_active() == DEFAULT_MIN_SCORE_ACTIVE
        &&& self.spec_min_score_vip() == DEFAULT_MIN_SCORE_VIP
        &&& !self.spec_is_paused()
    }

    /// The configuration singleton is unchanged between `pre` and `post`;
    /// only account records may differ.
    pub open spec fn same_config(pre: Sentinel, post: Sentinel) -> bool {
        &&& post.spec_admin() == pre.spec_admin()
        &&& post.spec_min_score_active() == pre.spec_min_score_active()
        &&& post.spec_min_score_vip() == pre.spec_min_score_vip()
        &&& post.spec_is_paused() == pre.spec_is_paused()
    }

    /// A fresh store, as the host hands it over before initialization:
    /// all-zero admin, zero thresholds, not paused, no account entries.
    pub fn new() -> (s: Sentinel)
        ensures
            s.wf(),
            s.spec_admin().is_zero(),
            s.spec_min_score_active() == 0,
            s.spec_min_score_vip() == 0,
            !s.spec_is_paused(),
            s.accounts_map() == Map::<AccountId, AccountRecord>::empty(),
    {
        Sentinel {
            admin: AccountId::zero(),
            min_score_active: 0,
            min_score_vip: 0,
            is_paused: false,
            accounts: AccountStore::new(),
        }
    }

    /// Set the admin and the default configuration. There is no guard: the
    /// call overwrites any prior configuration, and the hosting deployment
    /// is responsible for invoking it exactly once. Account records are
    /// untouched.
    pub fn init(&mut self, owner: AccountId)
        ensures
            final(self).config_initialized(owner),
            final(self).accounts_map() == old(self).accounts_map(),
            old(self).wf() ==> final(self).wf(),
    {
        self.admin = owner;
        self.min_score_active = DEFAULT_MIN_SCORE_ACTIVE;
        self.min_score_vip = DEFAULT_MIN_SCORE_VIP;
        self.is_paused = false;
        proof {
            if old(self).wf() {
                self.lemma_wf_same_accounts(*old(self));
            }
        }
    }

    /// The admin identifier.
    pub fn get_admin(&self) -> (r: AccountId)
        ensures
            r == self.spec_admin(),
    {
        self.admin
    }

    /// The whitelist flag and risk score of `user`; an account the store has
    /// never seen reads as `(false, 0)`.
    pub fn get_user_status(&self, user: AccountId) -> (r: (bool, u8))
        requires
            self.wf(),
        ensures
            r.0 == self.account(user).whitelisted,
            r.1 == self.account(user).risk_score,
    {
        let rec = self.accounts.get(user);
        (rec.whitelisted, rec.risk_score)
    }

    /// The transfer decision, `true` exactly when the whole policy admits
    /// the transfer. Denial is an ordinary `false`, never an error: unlike
    /// the mutators, the decision has no failure channel.
    pub fn check_transfer(
        &self,
        caller: AccountId,
        from: AccountId,
        to: AccountId,
        amount: Amount,
    ) -> (allowed: bool)
        requires
            self.wf(),
        ensures
            allowed == self.spec_transfer_allowed(caller, from, to, amount),
    {
        if caller != self.admin {
            return false;
        }
        if self.is_paused {
            return false;
        }
        let from_rec = self.accounts.get(from);
        let to_rec = self.accounts.get(to);
        if !from_rec.whitelisted || !to_rec.whitelisted {
            return false;
        }
        let score = from_rec.risk_score;
        if score < self.min_score_active {
            return false;
        }
        let limit: u128 = if score < self.min_score_vip {
            STANDARD_TIER_LIMIT
        } else {
            VIP_TIER_LIMIT
        };
        amount.at_most(limit)
    }

    /// The admin guard every mutator runs first.
    fn ensure_admin(&self, caller: AccountId) -> (r: Result<(), SentinelError>)
        ensures
            r is Ok <==> caller == self.spec_admin(),
            r is Err ==> r == Err::<(), SentinelError>(SentinelError::Unauthorized),
    {
        if caller == self.admin {
            Ok(())
        } else {
            Err(SentinelError::Unauthorized)
        }
    }

    /// Overwrite both tier thresholds. No cross-field check is made: a
    /// configuration with `min_active > min_vip` is accepted, and simply
    /// leaves the standard tier unreachable.
    pub fn set_policy_config(
        &mut self,
        caller: AccountId,
        min_active: u8,
        min_vip: u8,
    ) -> (r: Result<(), SentinelError>)
        ensures
            r is Ok <==> caller == old(self).spec_admin(),
            r is Err ==> r == Err::<(), SentinelError>(SentinelError::Unauthorized),
            r is Err ==> *final(self) == *old(self),
            r is Ok ==> final(self).spec_min_score_active() == min_active
                && final(self).spec_min_score_vip() == min_vip
                && final(self).spec_admin() == old(self).spec_admin()
                && final(self).spec_is_paused() == old(self).spec_is_paused()
                && final(self).accounts_map() == old(self).accounts_map(),
            old(self).wf() ==> final(self).wf(),
    {
        let guard = self.ensure_admin(caller);
        if let Err(e) = guard {
            return Err(e);
        }
        self.min_score_active = min_active;
        self.min_score_vip = min_vip;
        proof {
            if old(self).wf() {
                self.lemma_wf_same_accounts(*old(self));
            }
        }
        Ok(())
    }

    /// Set the global pause flag.
    pub fn set_paused(&mut self, caller: AccountId, paused: bool) -> (r: Result<
        (),
        SentinelError,
    >)
        ensures
            r is Ok <==> caller == old(self).spec_admin(),
            r is Err ==> r == Err::<(), SentinelError>(SentinelError::Unauthorized),
            r is Err ==> *final(self) == *old(self),
            r is Ok ==> final(self).spec_is_paused() == paused
                && final(self).spec_admin() == old(self).spec_admin()
                && final(self).spec_min_score_active() == old(self).spec_min_score_active()
                && final(self).spec_min_score_vip() == old(self).spec_min_score_vip()
                && final(self).accounts_map() == old(self).accounts_map(),
            old(self).wf() ==> final(self).wf(),
    {
        let guard = self.ensure_admin(caller);
        if let Err(e) = guard {
            return Err(e);
        }
        self.is_paused = paused;
        proof {
            if old(self).wf() {
                self.lemma_wf_same_accounts(*old(self));
            }
        }
        Ok(())
    }

    /// Whitelist `user` and reset its score to the onboarding default,
    /// overwriting any prior record.
    pub fn add_to_whitelist(&mut self, caller: AccountId, user: AccountId) -> (r: Result<
        (),
        SentinelError,
    >)
        requires
            old(self).wf(),
        ensures
            r is Ok <==> caller == old(self).spec_admin(),
            r is Err ==> r == Err::<(), SentinelError>(SentinelError::Unauthorized),
            r is Err ==> *final(self) == *old(self),
            r is Ok ==> final(self).accounts_map() == old(self).accounts_map().insert(
                user,
                (AccountRecord { whitelisted: true, risk_score: ONBOARD_SCORE }),
            ) && Sentinel::same_config(*old(self), *final(self)),
            final(self).wf(),
    {
        let guard = self.ensure_admin(caller);
        if let Err(e) = guard {
            return Err(e);
        }
        self.accounts.set(user, AccountRecord { whitelisted: true, risk_score: ONBOARD_SCORE });
        proof {
            self.lemma_wf_after_insert(
                *old(self),
                user,
                AccountRecord { whitelisted: true, risk_score: ONBOARD_SCORE },
            );
        }
        Ok(())
    }

    /// Take `user` off the whitelist and reset its score to zero: the record
    /// reads as a never-seen account's would.
    pub fn remove_from_whitelist(&mut self, caller: AccountId, user: AccountId) -> (r: Result<
        (),
        SentinelError,
    >)
        requires
            old(self).wf(),
        ensures
            r is Ok <==> caller == old(self).spec_admin(),
            r is Err ==> r == Err::<(), SentinelError>(SentinelError::Unauthorized),
            r is Err ==> *final(self) == *old(self),
            r is Ok ==> final(self).accounts_map() == old(self).accounts_map().insert(
                user,
                default_record(),
            ) && Sentinel::same_config(*old(self), *final(self)),
            final(self).wf(),
    {
        let guard = self.ensure_admin(caller);
        if let Err(e) = guard {
            return Err(e);
        }
        self.accounts.set(user, AccountRecord { whitelisted: false, risk_score: 0 });
        proof {
            self.lemma_wf_after_insert(*old(self), user, default_record());
        }
        Ok(())
    }

    /// Overwrite the risk score of `user`, leaving its whitelist flag as it
    /// is. A score above `MAX_RISK_SCORE` is rejected before any mutation.
    pub fn set_risk_score(&mut self, caller: AccountId, user: AccountId, score: u8) -> (r: Result<
        (),
        SentinelError,
    >)
        requires
            old(self).wf(),
        ensures
            r is Ok <==> caller == old(self).spec_admin() && score <= MAX_RISK_SCORE,
            caller != old(self).spec_admin() ==> r == Err::<(), SentinelError>(
                SentinelError::Unauthorized,
            ),
            caller == old(self).spec_admin() && score > MAX_RISK_SCORE ==> r == Err::<
                (),
                SentinelError,
            >(SentinelError::InvalidScore),
            r is Err ==> *final(self) == *old(self),
            r is Ok ==> final(self).accounts_map() == old(self).accounts_map().insert(
                user,
                (AccountRecord {
                    whitelisted: old(self).account(user).whitelisted,
                    risk_score: score,
                }),
            ) && Sentinel::same_config(*old(self), *final(self)),
            final(self).wf(),
    {
        let guard = self.ensure_admin(caller);
        if let Err(e) = guard {
            return Err(e);
        }
        if score > MAX_RISK_SCORE {
            return Err(SentinelError::InvalidScore);
        }
        let rec = self.accounts.get(user);
        self.accounts.set(user, AccountRecord { whitelisted: rec.whitelisted, risk_score: score });
        proof {
            self.lemma_wf_after_insert(
                *old(self),
                user,
                AccountRecord { whitelisted: rec.whitelisted, risk_score: score },
            );
        }
        Ok(())
    }

    /// A store with the same account records as a well-formed one is itself
    /// well-formed, provided its representation invariant holds.
    proof fn lemma_wf_same_accounts(self, pre: Sentinel)
        requires
            pre.wf(),
            self.store_wf(),
            self.accounts_map() == pre.accounts_map(),
        ensures
            self.wf(),
    {
        assert forall|id: AccountId| (#[trigger] self.account(id)).risk_score
            <= MAX_RISK_SCORE by {
            assert(self.account(id) == pre.account(id));
        }
    }

    /// Inserting a record whose score is admissible keeps the store
    /// well-formed; nothing else moves.
    proof fn lemma_wf_after_insert(self, pre: Sentinel, user: AccountId, rec: AccountRecord)
        requires
            pre.wf(),
            self.store_wf(),
            rec.risk_score <= MAX_RISK_SCORE,
            self.accounts_map() == pre.accounts_map().insert(user, rec),
        ensures
            self.wf(),
    {
        assert forall|id: AccountId| (#[trigger] self.account(id)).risk_score
            <= MAX_RISK_SCORE by {
            if id != user {
                assert(self.account(id) == pre.account(id));
            }
        }
    }
}

} // verus!
