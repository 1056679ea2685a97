//! Behavior of initialization and the administrative mutators.

use sentinel::account::AccountId;
use sentinel::amount::Amount;
use sentinel::policy::{Sentinel, SentinelError};

const STANDARD_LIMIT: u128 = 1_000_000_000_000_000_000_000;

fn ident(n: u128) -> AccountId {
    AccountId { hi: 0, lo: n }
}

fn amount(lo: u128) -> Amount {
    Amount::from_u128(lo)
}

#[test]
fn init_sets_admin_and_default_thresholds() {
    let mut s = Sentinel::new();
    let owner = ident(7);
    s.init(owner);
    assert_eq!(s.get_admin(), owner);
    // The defaults 30 and 80 put the onboarding score of 50 in the standard
    // tier, and the engine starts unpaused.
    s.add_to_whitelist(owner, ident(8)).unwrap();
    s.add_to_whitelist(owner, ident(9)).unwrap();
    assert!(s.check_transfer(owner, ident(8), ident(9), amount(STANDARD_LIMIT)));
    assert!(!s.check_transfer(owner, ident(8), ident(9), amount(STANDARD_LIMIT + 1)));
    s.set_risk_score(owner, ident(8), 80).unwrap();
    assert!(s.check_transfer(owner, ident(8), ident(9), amount(STANDARD_LIMIT + 1)));
    s.set_risk_score(owner, ident(8), 29).unwrap();
    assert!(!s.check_transfer(owner, ident(8), ident(9), amount(1)));
    s.set_risk_score(owner, ident(8), 30).unwrap();
    assert!(s.check_transfer(owner, ident(8), ident(9), amount(1)));
}

#[test]
fn reinit_overwrites_admin_and_config() {
    let mut s = Sentinel::new();
    s.init(ident(1));
    s.set_paused(ident(1), true).unwrap();
    s.init(ident(2));
    assert_eq!(s.get_admin(), ident(2));
    // The old admin is out, and the re-initialization cleared the pause.
    assert_eq!(
        s.set_paused(ident(1), true),
        Err(SentinelError::Unauthorized)
    );
    s.add_to_whitelist(ident(2), ident(3)).unwrap();
    s.add_to_whitelist(ident(2), ident(4)).unwrap();
    assert!(s.check_transfer(ident(2), ident(3), ident(4), amount(1)));
}

#[test]
fn unknown_account_reads_as_default() {
    let s = Sentinel::new();
    assert_eq!(s.get_user_status(ident(42)), (false, 0));
}

#[test]
fn add_to_whitelist_yields_true_50_whatever_came_before() {
    let mut s = Sentinel::new();
    let owner = ident(1);
    s.init(owner);
    s.set_risk_score(owner, ident(5), 99).unwrap();
    assert_eq!(s.get_user_status(ident(5)), (false, 99));
    s.add_to_whitelist(owner, ident(5)).unwrap();
    assert_eq!(s.get_user_status(ident(5)), (true, 50));
}

#[test]
fn remove_from_whitelist_yields_false_0() {
    let mut s = Sentinel::new();
    let owner = ident(1);
    s.init(owner);
    s.add_to_whitelist(owner, ident(5)).unwrap();
    s.set_risk_score(owner, ident(5), 85).unwrap();
    s.remove_from_whitelist(owner, ident(5)).unwrap();
    assert_eq!(s.get_user_status(ident(5)), (false, 0));
}

#[test]
fn set_risk_score_keeps_whitelist_flag() {
    let mut s = Sentinel::new();
    let owner = ident(1);
    s.init(owner);
    s.add_to_whitelist(owner, ident(5)).unwrap();
    s.set_risk_score(owner, ident(5), 70).unwrap();
    assert_eq!(s.get_user_status(ident(5)), (true, 70));
    // On an account off the whitelist, the flag stays off.
    s.set_risk_score(owner, ident(6), 70).unwrap();
    assert_eq!(s.get_user_status(ident(6)), (false, 70));
}

#[test]
fn set_risk_score_accepts_the_top_of_the_range() {
    let mut s = Sentinel::new();
    let owner = ident(1);
    s.init(owner);
    assert_eq!(s.set_risk_score(owner, ident(5), 100), Ok(()));
    assert_eq!(s.get_user_status(ident(5)), (false, 100));
}

#[test]
fn overlarge_score_aborts_and_leaves_the_prior_score() {
    let mut s = Sentinel::new();
    let owner = ident(1);
    s.init(owner);
    s.set_risk_score(owner, ident(5), 60).unwrap();
    assert_eq!(
        s.set_risk_score(owner, ident(5), 101),
        Err(SentinelError::InvalidScore)
    );
    assert_eq!(
        s.set_risk_score(owner, ident(5), 255),
        Err(SentinelError::InvalidScore)
    );
    assert_eq!(s.get_user_status(ident(5)), (false, 60));
}

#[test]
fn non_admin_mutators_fail_and_change_nothing() {
    let mut s = Sentinel::new();
    let owner = ident(1);
    let intruder = ident(2);
    s.init(owner);
    s.add_to_whitelist(owner, ident(5)).unwrap();
    s.add_to_whitelist(owner, ident(6)).unwrap();

    assert_eq!(
        s.set_policy_config(intruder, 0, 0),
        Err(SentinelError::Unauthorized)
    );
    assert_eq!(s.set_paused(intruder, true), Err(SentinelError::Unauthorized));
    assert_eq!(
        s.add_to_whitelist(intruder, ident(7)),
        Err(SentinelError::Unauthorized)
    );
    assert_eq!(
        s.remove_from_whitelist(intruder, ident(5)),
        Err(SentinelError::Unauthorized)
    );
    assert_eq!(
        s.set_risk_score(intruder, ident(5), 0),
        Err(SentinelError::Unauthorized)
    );
    // Even an out-of-range score from the wrong caller names the caller as
    // the fault: the guard runs first.
    assert_eq!(
        s.set_risk_score(intruder, ident(5), 101),
        Err(SentinelError::Unauthorized)
    );

    // Every observable is as the admin left it.
    assert_eq!(s.get_admin(), owner);
    assert_eq!(s.get_user_status(ident(5)), (true, 50));
    assert_eq!(s.get_user_status(ident(6)), (true, 50));
    assert_eq!(s.get_user_status(ident(7)), (false, 0));
    assert!(s.check_transfer(owner, ident(5), ident(6), amount(1)));
}
