//! The laws of the policy, proved once and for all states and inputs.
//!
//! Each proof function states one guarantee of the engine over the same spec
//! functions the executable contracts use, so the guarantee carries to every
//! run of the executable code.

use vstd::prelude::*;

use crate::account::{default_record, AccountId, AccountRecord};
use crate::amount::Amount;
use crate::policy::{
    spec_tier_limit, Sentinel, ONBOARD_SCORE, STANDARD_TIER_LIMIT, VIP_TIER_LIMIT,
};

verus! {

/// A caller other than the admin is denied, whatever the rest of the state
/// and of the inputs.
pub proof fn lemma_non_admin_denied(
    s: Sentinel,
    caller: AccountId,
    from: AccountId,
    to: AccountId,
    amount: Amount,
)
    requires
        caller != s.spec_admin(),
    ensures
        !s.spec_transfer_allowed(caller, from, to, amount),
{
}

/// While the engine is paused, every transfer is denied, however valid the
/// whitelist, scores and amount.
pub proof fn lemma_paused_denied(
    s: Sentinel,
    caller: AccountId,
    from: AccountId,
    to: AccountId,
    amount: Amount,
)
    requires
        s.spec_is_paused(),
    ensures
        !s.spec_transfer_allowed(caller, from, to, amount),
{
}

/// A transfer either of whose parties is not whitelisted is denied.
pub proof fn lemma_unwhitelisted_denied(
    s: Sentinel,
    caller: AccountId,
    from: AccountId,
    to: AccountId,
    amount: Amount,
)
    requires
        !s.account(from).whitelisted || !s.account(to).whitelisted,
    ensures
        !s.spec_transfer_allowed(caller, from, to, amount),
{
}

/// A whitelisted pair whose sender scores below the active threshold is
/// denied for every amount.
pub proof fn lemma_below_active_denied(
    s: Sentinel,
    caller: AccountId,
    from: AccountId,
    to: AccountId,
    amount: Amount,
)
    requires
        s.account(from).whitelisted,
        s.account(to).whitelisted,
        s.account(from).risk_score < s.spec_min_score_active(),
    ensures
        !s.spec_transfer_allowed(caller, from, to, amount),
{
}

/// In the standard tier — admin caller, engine not paused, both parties
/// whitelisted, sender's score at or above the active threshold and below
/// the VIP threshold — the transfer is allowed exactly when the amount is at
/// most the standard limit.
pub proof fn lemma_standard_tier(
    s: Sentinel,
    caller: AccountId,
    from: AccountId,
    to: AccountId,
    amount: Amount,
)
    requires
        caller == s.spec_admin(),
        !s.spec_is_paused(),
        s.account(from).whitelisted,
        s.account(to).whitelisted,
        s.spec_min_score_active() <= s.account(from).risk_score < s.spec_min_score_vip(),
    ensures
        s.spec_transfer_allowed(caller, from, to, amount) <==> amount.value()
            <= STANDARD_TIER_LIMIT,
{
}

/// In the VIP tier — admin caller, engine not paused, both parties
/// whitelisted, sender's score at or above both thresholds — the transfer is
/// allowed exactly when the amount is at most the VIP limit. (A score at or
/// above the VIP threshold alone is not enough: with the thresholds
/// inverted, a score below the active threshold is denied outright.)
pub proof fn lemma_vip_tier(
    s: Sentinel,
    caller: AccountId,
    from: AccountId,
    to: AccountId,
    amount: Amount,
)
    requires
        caller == s.spec_admin(),
        !s.spec_is_paused(),
        s.account(from).whitelisted,
        s.account(to).whitelisted,
        s.account(from).risk_score >= s.spec_min_score_active(),
        s.account(from).risk_score >= s.spec_min_score_vip(),
    ensures
        s.spec_transfer_allowed(caller, from, to, amount) <==> amount.value() <= VIP_TIER_LIMIT,
{
}

/// After a whitelist addition, the account reads as whitelisted with the
/// onboarding score, whatever record it had before.
pub proof fn lemma_status_after_add(pre: Sentinel, post: Sentinel, id: AccountId)
    requires
        post.accounts_map() == pre.accounts_map().insert(
            id,
            (AccountRecord { whitelisted: true, risk_score: ONBOARD_SCORE }),
        ),
    ensures
        post.account(id).whitelisted,
        post.account(id).risk_score == ONBOARD_SCORE,
{
}

/// After a whitelist removal, the account reads as a never-seen one: not
/// whitelisted, score zero.
pub proof fn lemma_status_after_remove(pre: Sentinel, post: Sentinel, id: AccountId)
    requires
        post.accounts_map() == pre.accounts_map().insert(id, default_record()),
    ensures
        !post.account(id).whitelisted,
        post.account(id).risk_score == 0,
{
}

/// The tier limit is one of exactly two values, and the VIP limit is the
/// larger: a higher score never lowers the admissible amount.
pub proof fn lemma_tier_limits_ordered(score: u8, min_score_vip: u8)
    ensures
        spec_tier_limit(score, min_score_vip) == STANDARD_TIER_LIMIT || spec_tier_limit(
            score,
            min_score_vip,
        ) == VIP_TIER_LIMIT,
        STANDARD_TIER_LIMIT < VIP_TIER_LIMIT,
{
}

} // verus!
