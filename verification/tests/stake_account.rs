use anker::stake_account::StakeBalance;
use anker::token::Lamports;
use solana_program::clock::Clock;
use solana_program::pubkey::Pubkey;
use solana_program::stake::state::Delegation;
use solana_program::stake_history::StakeHistory;

fn balance(inactive: u64, activating: u64, active: u64, deactivating: u64) -> StakeBalance {
    StakeBalance {
        inactive: Lamports(inactive),
        activating: Lamports(activating),
        active: Lamports(active),
        deactivating: Lamports(deactivating),
    }
}

#[test]
fn zero_is_all_zero() {
    let z = StakeBalance::zero();
    assert_eq!(z, balance(0, 0, 0, 0));
}

#[test]
fn from_parts_derives_inactive_as_residual() {
    let b = StakeBalance::from_parts(Lamports(100), Lamports(50), Lamports(30), Lamports(5))
        .unwrap();
    assert_eq!(b, balance(15, 30, 50, 5));
    assert_eq!(b.inactive.0 + b.activating.0 + b.active.0 + b.deactivating.0, 100);
}

#[test]
fn from_parts_fails_when_parts_exceed_balance() {
    assert!(StakeBalance::from_parts(Lamports(10), Lamports(5), Lamports(5), Lamports(1)).is_none());
    assert!(StakeBalance::from_parts(Lamports(10), Lamports(11), Lamports(0), Lamports(0)).is_none());
}

#[test]
fn checked_add_is_pointwise() {
    let a = balance(1, 2, 3, 4);
    let b = balance(10, 20, 30, 40);
    assert_eq!(a.checked_add(b), Some(balance(11, 22, 33, 44)));
}

#[test]
fn checked_add_fails_on_any_field_overflow() {
    let a = balance(u64::MAX, 0, 0, 0);
    assert_eq!(a.checked_add(balance(1, 0, 0, 0)), None);
    let b = balance(0, 0, u64::MAX, 0);
    assert_eq!(b.checked_add(balance(0, 0, 1, 0)), None);
}

#[test]
fn sum_of_empty_is_zero() {
    let balances: Vec<StakeBalance> = Vec::new();
    assert_eq!(StakeBalance::sum(&balances), Some(StakeBalance::zero()));
}

#[test]
fn sum_adds_pointwise() {
    let balances = vec![balance(1, 2, 3, 4), balance(10, 20, 30, 40), balance(100, 200, 300, 400)];
    assert_eq!(StakeBalance::sum(&balances), Some(balance(111, 222, 333, 444)));
}

#[test]
fn sum_fails_on_overflow_instead_of_wrapping() {
    let balances = vec![balance(0, u64::MAX, 0, 0), balance(0, 1, 0, 0)];
    assert_eq!(StakeBalance::sum(&balances), None);
}

#[test]
fn from_delegated_account_conserves_balance() {
    // A delegation activated long ago with no history recorded is fully
    // active at the current epoch.
    let delegation = Delegation {
        voter_pubkey: Pubkey::new_unique(),
        stake: 40,
        activation_epoch: 0,
        deactivation_epoch: u64::MAX,
        ..Delegation::default()
    };
    let clock = Clock { epoch: 5, ..Clock::default() };
    let history = StakeHistory::default();
    let b = StakeBalance::from_delegated_account(
        Lamports(100),
        &delegation,
        &clock,
        &history,
        None,
    )
    .unwrap();
    assert_eq!(b.active, Lamports(40));
    assert_eq!(b.activating, Lamports(0));
    assert_eq!(b.deactivating, Lamports(0));
    assert_eq!(b.inactive, Lamports(60));
    assert_eq!(b.inactive.0 + b.activating.0 + b.active.0 + b.deactivating.0, 100);
}

#[test]
fn from_delegated_account_reports_inconsistent_data() {
    // More stake delegated than the account holds: the residual would
    // underflow, which is a fatal inconsistency.
    let delegation = Delegation {
        voter_pubkey: Pubkey::new_unique(),
        stake: 200,
        activation_epoch: 0,
        deactivation_epoch: u64::MAX,
        ..Delegation::default()
    };
    let clock = Clock { epoch: 5, ..Clock::default() };
    let history = StakeHistory::default();
    let r = StakeBalance::from_delegated_account(
        Lamports(100),
        &delegation,
        &clock,
        &history,
        None,
    );
    assert!(r.is_none());
}
