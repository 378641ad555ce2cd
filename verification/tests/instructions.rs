use deadman_switch::address::Address;
use deadman_switch::constants::{DEFAULT_CHECK_IN_INTERVAL, DEFAULT_GRACE_PERIOD, MAX_MESSAGE_LEN};
use deadman_switch::error::ErrorCode;
use deadman_switch::instructions::trigger::RemainingAccount;
use deadman_switch::instructions::{
    add_message, cancel, check_in, deposit, initialize, update_beneficiaries, update_interval,
    withdraw,
};
use deadman_switch::instructions::trigger::handler as trigger_handler;
use deadman_switch::state::{Beneficiary, DeadmanSwitch};

fn addr(n: u8) -> Address {
    Address::new([n; 32])
}

fn owner() -> Address {
    addr(1)
}

fn switch_key() -> Address {
    addr(2)
}

fn ben(n: u8, share_bps: u16) -> Beneficiary {
    Beneficiary { address: addr(n), share_bps }
}

const T0: i64 = 1_700_000_000;

/// A switch created at T0 with the given beneficiaries, a one-day interval and
/// a one-hour grace window.
fn make_switch(bs: Vec<Beneficiary>) -> DeadmanSwitch {
    let (s, _) = initialize::handler(&owner(), &switch_key(), 255, bs, 86_400, 3_600, 0, None, T0)
        .expect("valid switch");
    s
}

fn accounts_for(s: &DeadmanSwitch) -> Vec<RemainingAccount> {
    s.beneficiaries
        .iter()
        .map(|b| RemainingAccount { key: b.address, is_writable: true })
        .collect()
}

// ── scenarios of the program's own test suite ─────────────────────────────────

#[test]
fn test_initialize_happy_path() {
    let beneficiary = addr(7);
    let res = initialize::handler(
        &owner(),
        &switch_key(),
        254,
        vec![Beneficiary { address: beneficiary, share_bps: 10_000 }],
        86_400,
        3_600,
        1_000_000_000,
        Some("For my family".to_string()),
        T0,
    );
    assert!(res.is_ok(), "initialize failed: {:?}", res.err());
    let (s, deposit) = res.unwrap();
    assert_eq!(deposit, Some(1_000_000_000));
    assert_eq!(s.owner, owner());
    assert_eq!(s.last_check_in, T0);
    assert!(!s.triggered);
    assert_eq!(s.message.as_deref(), Some("For my family"));
    assert_eq!(s.bump, 254);
}

#[test]
fn test_initialize_invalid_shares_fails() {
    let beneficiary = addr(7);
    let res = initialize::handler(
        &owner(),
        &switch_key(),
        254,
        vec![Beneficiary { address: beneficiary, share_bps: 5_000 }],
        86_400,
        3_600,
        0,
        None,
        T0,
    );
    assert!(res.is_err(), "expected failure for invalid shares");
    assert_eq!(res.err(), Some(ErrorCode::InvalidShares));
}

#[test]
fn initialize_with_two_beneficiaries() {
    let alice = addr(8);
    let bob = addr(9);
    let res = initialize::handler(
        &owner(),
        &switch_key(),
        254,
        vec![
            Beneficiary { address: alice, share_bps: 6_000 },
            Beneficiary { address: bob, share_bps: 4_000 },
        ],
        86_400,
        600,
        500_000_000,
        None,
        T0,
    );
    assert!(res.is_ok(), "multi-beneficiary initialize failed: {:?}", res.err());
    let (s, deposit) = res.unwrap();
    assert_eq!(s.beneficiaries.len(), 2);
    assert_eq!(deposit, Some(500_000_000));
}

// Two beneficiaries, a one-hour interval and a ten-minute grace window: the
// interval is below the one-day floor on check-in intervals (the one
// `MIN_CHECK_IN_INTERVAL` documents and `InvalidInterval` reports), so
// initialize refuses the switch.
#[test]
fn test_initialize_multiple_beneficiaries() {
    let res = initialize::handler(
        &owner(),
        &switch_key(),
        254,
        vec![ben(8, 6_000), ben(9, 4_000)],
        3_600,
        600,
        500_000_000,
        None,
        T0,
    );
    assert!(res.is_err(), "a one-hour interval is below the one-day floor");
    assert_eq!(res.err(), Some(ErrorCode::InvalidInterval));
}

#[test]
fn test_check_in_by_owner_succeeds() {
    let mut s = make_switch(vec![ben(7, 10_000)]);
    let res = check_in::handler(&mut s, &owner(), T0 + 100);
    assert!(res.is_ok(), "check_in failed: {:?}", res.err());
    assert_eq!(s.last_check_in, T0 + 100);
}

#[test]
fn test_check_in_wrong_pda_fails() {
    let mut s = make_switch(vec![ben(7, 10_000)]);
    let attacker = addr(66);
    let res = check_in::handler(&mut s, &attacker, T0 + 100);
    assert!(res.is_err(), "attacker should not be able to check in");
    assert_eq!(res.err(), Some(ErrorCode::NotOwner));
    assert_eq!(s.last_check_in, T0);
}

// ── initialize ────────────────────────────────────────────────────────────────

fn init_with(
    bs: Vec<Beneficiary>,
    interval: i64,
    grace: i64,
    message: Option<String>,
) -> Result<(DeadmanSwitch, Option<u64>), ErrorCode> {
    initialize::handler(&owner(), &switch_key(), 1, bs, interval, grace, 0, message, T0)
}

#[test]
fn initialize_errors_in_order() {
    assert_eq!(init_with(vec![ben(7, 10_000)], 86_399, 0, None).err(), Some(ErrorCode::InvalidInterval));
    assert_eq!(init_with(vec![ben(7, 10_000)], 86_400, -1, None).err(), Some(ErrorCode::InvalidInterval));
    assert_eq!(init_with(vec![], 86_400, 0, None).err(), Some(ErrorCode::EmptyBeneficiaries));
    let eleven: Vec<Beneficiary> = (0..11u8).map(|i| ben(10 + i, if i == 0 { 9_000 } else { 100 })).collect();
    assert_eq!(init_with(eleven, 86_400, 0, None).err(), Some(ErrorCode::TooManyBeneficiaries));
    assert_eq!(init_with(vec![ben(7, 9_999)], 86_400, 0, None).err(), Some(ErrorCode::InvalidShares));
    assert_eq!(
        init_with(vec![ben(7, 5_000), ben(2, 5_000)], 86_400, 0, None).err(),
        Some(ErrorCode::InvalidBeneficiaries)
    );
    assert_eq!(
        init_with(vec![ben(7, 5_000), ben(7, 5_000)], 86_400, 0, None).err(),
        Some(ErrorCode::DuplicateBeneficiary)
    );
    // The first offending entry decides: a duplicate at index 0 comes before
    // the switch's own address at index 1.
    assert_eq!(
        init_with(vec![ben(7, 2_000), ben(2, 2_000), ben(7, 6_000)], 86_400, 0, None).err(),
        Some(ErrorCode::DuplicateBeneficiary)
    );
    assert_eq!(
        init_with(vec![ben(2, 2_000), ben(7, 2_000), ben(7, 6_000)], 86_400, 0, None).err(),
        Some(ErrorCode::InvalidBeneficiaries)
    );
    let long = "x".repeat(MAX_MESSAGE_LEN + 1);
    assert_eq!(
        init_with(vec![ben(7, 10_000)], 86_400, 0, Some(long)).err(),
        Some(ErrorCode::MessageTooLong)
    );
}

#[test]
fn initialize_accepts_ten_beneficiaries_and_no_deposit() {
    let ten: Vec<Beneficiary> = (0..10u8).map(|i| ben(10 + i, 1_000)).collect();
    let (s, deposit) = initialize::handler(
        &owner(),
        &switch_key(),
        3,
        ten,
        DEFAULT_CHECK_IN_INTERVAL,
        DEFAULT_GRACE_PERIOD,
        0,
        None,
        T0,
    )
    .unwrap();
    assert_eq!(deposit, None);
    assert_eq!(s.beneficiaries.len(), 10);
    assert_eq!(s.check_in_interval, 180 * 86_400);
    assert_eq!(s.grace_period, 7 * 86_400);
    assert!(!s.is_past_deadline(T0));
}

#[test]
fn message_limit_counts_bytes() {
    // 'é' takes two bytes: 250 of them fill the limit exactly, 251 exceed it.
    let fits: String = std::iter::repeat('é').take(250).collect();
    let too_long: String = std::iter::repeat('é').take(251).collect();
    assert!(init_with(vec![ben(7, 10_000)], 86_400, 0, Some(fits)).is_ok());
    assert_eq!(
        init_with(vec![ben(7, 10_000)], 86_400, 0, Some(too_long)).err(),
        Some(ErrorCode::MessageTooLong)
    );
    let exact = "y".repeat(MAX_MESSAGE_LEN);
    assert!(init_with(vec![ben(7, 10_000)], 86_400, 0, Some(exact)).is_ok());
}

// ── check_in ─────────────────────────────────────────────────────────────────

#[test]
fn check_in_during_grace_restarts_full_timer() {
    let mut s = make_switch(vec![ben(7, 10_000)]);
    let in_grace = T0 + 86_400 + 10;
    assert!(s.is_in_grace(in_grace));
    assert!(check_in::handler(&mut s, &owner(), in_grace).is_ok());
    assert_eq!(s.last_check_in, in_grace);
    assert!(!s.is_past_deadline(in_grace));
    assert!(!s.is_past_deadline(in_grace + 86_400));
    assert!(s.is_past_deadline(in_grace + 86_401));
}

#[test]
fn check_in_refused_once_fully_expired() {
    let mut s = make_switch(vec![ben(7, 10_000)]);
    let grace_end = T0 + 86_400 + 3_600;
    assert!(check_in::handler(&mut s, &owner(), grace_end).is_ok());
    let mut s = make_switch(vec![ben(7, 10_000)]);
    assert_eq!(check_in::handler(&mut s, &owner(), grace_end + 1), Err(ErrorCode::SwitchExpired));
    assert_eq!(s.last_check_in, T0);
}

// ── deposit / withdraw / cancel ──────────────────────────────────────────────

#[test]
fn deposit_rules() {
    let s = make_switch(vec![ben(7, 10_000)]);
    assert_eq!(deposit::handler(&s, 5, T0), Ok(()));
    assert_eq!(deposit::handler(&s, 0, T0), Err(ErrorCode::InsufficientFunds));
    // Still open during grace, closed once fully expired.
    assert_eq!(deposit::handler(&s, 5, T0 + 86_400 + 1), Ok(()));
    assert_eq!(deposit::handler(&s, 5, T0 + 86_400 + 3_601), Err(ErrorCode::SwitchExpired));
    // A zero amount is reported as such, also once fully expired.
    assert_eq!(deposit::handler(&s, 0, T0 + 86_400 + 3_601), Err(ErrorCode::InsufficientFunds));
}

#[test]
fn withdraw_keeps_rent_minimum() {
    let s = make_switch(vec![ben(7, 10_000)]);
    let balance = 1_000_000;
    let rent = 890_880;
    assert_eq!(withdraw::handler(&s, &owner(), T0, 109_120, balance, rent), Ok(()));
    assert_eq!(
        withdraw::handler(&s, &owner(), T0, 109_121, balance, rent),
        Err(ErrorCode::InsufficientFunds)
    );
    assert_eq!(withdraw::handler(&s, &owner(), T0, 0, balance, rent), Err(ErrorCode::InsufficientFunds));
    // Below the rent minimum nothing can be taken.
    assert_eq!(withdraw::handler(&s, &owner(), T0, 1, 10, rent), Err(ErrorCode::InsufficientFunds));
    assert_eq!(withdraw::handler(&s, &addr(66), T0, 1, balance, rent), Err(ErrorCode::NotOwner));
}

#[test]
fn withdraw_locks_at_deadline() {
    let s = make_switch(vec![ben(7, 10_000)]);
    assert_eq!(withdraw::handler(&s, &owner(), T0 + 86_400, 1, 2_000_000, 0), Ok(()));
    assert_eq!(
        withdraw::handler(&s, &owner(), T0 + 86_401, 1, 2_000_000, 0),
        Err(ErrorCode::SwitchExpired)
    );
}

#[test]
fn cancel_allowed_in_grace_blocked_when_expired() {
    let s = make_switch(vec![ben(7, 10_000)]);
    assert_eq!(cancel::handler(&s, &owner(), T0), Ok(()));
    assert_eq!(cancel::handler(&s, &owner(), T0 + 86_401), Ok(()));
    assert_eq!(cancel::handler(&s, &owner(), T0 + 86_400 + 3_601), Err(ErrorCode::SwitchExpired));
    assert_eq!(cancel::handler(&s, &addr(66), T0), Err(ErrorCode::NotOwner));
}

// ── add_message ──────────────────────────────────────────────────────────────

#[test]
fn add_message_sets_and_clears() {
    let mut s = make_switch(vec![ben(7, 10_000)]);
    assert_eq!(add_message::handler(&mut s, &owner(), Some("hello".to_string())), Ok(()));
    assert_eq!(s.message.as_deref(), Some("hello"));
    assert_eq!(
        add_message::handler(&mut s, &owner(), Some("z".repeat(501))),
        Err(ErrorCode::MessageTooLong)
    );
    assert_eq!(s.message.as_deref(), Some("hello"));
    assert_eq!(add_message::handler(&mut s, &owner(), None), Ok(()));
    assert_eq!(s.message, None);
    assert_eq!(add_message::handler(&mut s, &addr(66), None), Err(ErrorCode::NotOwner));
}

// ── update_beneficiaries / update_interval ───────────────────────────────────

#[test]
fn update_beneficiaries_rules() {
    let mut s = make_switch(vec![ben(7, 10_000)]);
    assert_eq!(
        update_beneficiaries::handler(&mut s, &owner(), &switch_key(), T0, vec![ben(8, 3_000), ben(9, 7_000)]),
        Ok(())
    );
    assert_eq!(s.beneficiaries.len(), 2);
    assert_eq!(s.beneficiaries[1].address, addr(9));
    assert_eq!(
        update_beneficiaries::handler(&mut s, &owner(), &switch_key(), T0, vec![ben(8, 3_000)]),
        Err(ErrorCode::InvalidShares)
    );
    assert_eq!(s.beneficiaries.len(), 2);
    // Locked from the deadline on.
    assert_eq!(
        update_beneficiaries::handler(&mut s, &owner(), &switch_key(), T0 + 86_401, vec![ben(8, 10_000)]),
        Err(ErrorCode::SwitchExpired)
    );
}

#[test]
fn update_interval_rules() {
    let mut s = make_switch(vec![ben(7, 10_000)]);
    // Too short, negative grace.
    assert_eq!(update_interval::handler(&mut s, &owner(), T0, 86_399, 0), Err(ErrorCode::InvalidInterval));
    assert_eq!(update_interval::handler(&mut s, &owner(), T0, 86_400, -1), Err(ErrorCode::InvalidInterval));
    // Lengthening works.
    assert_eq!(update_interval::handler(&mut s, &owner(), T0 + 10, 2 * 86_400, 7_200), Ok(()));
    assert_eq!(s.check_in_interval, 2 * 86_400);
    assert_eq!(s.grace_period, 7_200);
    // Shortening so that the switch would be fully expired at once is refused.
    let now = T0 + 86_400 + 100;
    assert_eq!(update_interval::handler(&mut s, &owner(), now, 86_400, 0), Err(ErrorCode::InvalidInterval));
    assert_eq!(s.check_in_interval, 2 * 86_400);
    // Shortening into the grace window is allowed.
    assert_eq!(update_interval::handler(&mut s, &owner(), now, 86_400, 200), Ok(()));
    assert!(s.is_in_grace(now));
    // Past the deadline, no more changes.
    assert_eq!(update_interval::handler(&mut s, &owner(), now, 86_400, 200), Err(ErrorCode::SwitchExpired));
}

// ── trigger ──────────────────────────────────────────────────────────────────

#[test]
fn trigger_splits_and_last_takes_dust() {
    let mut s = make_switch(vec![ben(7, 3_333), ben(8, 3_333), ben(9, 3_334)]);
    let accounts = accounts_for(&s);
    let now = T0 + 86_400 + 3_601;
    let amounts = trigger_handler(&mut s, now, &accounts, 1_000_000 + 890_880, 890_880).unwrap();
    assert_eq!(amounts, vec![333_300, 333_300, 333_400]);
    assert_eq!(amounts.iter().sum::<u64>(), 1_000_000);
    assert!(s.triggered);

    let mut s = make_switch(vec![ben(7, 3_333), ben(8, 6_667)]);
    let accounts = accounts_for(&s);
    let amounts = trigger_handler(&mut s, now, &accounts, 10, 0).unwrap();
    // 10 * 3333 / 10000 = 3 (rounded down); the last one receives the other 7.
    assert_eq!(amounts, vec![3, 7]);
}

#[test]
fn trigger_below_rent_pays_nothing() {
    let mut s = make_switch(vec![ben(7, 6_000), ben(8, 4_000)]);
    let accounts = accounts_for(&s);
    let amounts = trigger_handler(&mut s, T0 + 90_001, &accounts, 100, 890_880).unwrap();
    assert_eq!(amounts, vec![0, 0]);
}

#[test]
fn trigger_refusals() {
    let mut s = make_switch(vec![ben(7, 6_000), ben(8, 4_000)]);
    let accounts = accounts_for(&s);
    let grace_end = T0 + 86_400 + 3_600;
    assert_eq!(trigger_handler(&mut s, grace_end, &accounts, 100, 0), Err(ErrorCode::DeadlineNotPassed));
    let reversed: Vec<RemainingAccount> = accounts.iter().rev().cloned().collect();
    assert_eq!(trigger_handler(&mut s, grace_end + 1, &reversed, 100, 0), Err(ErrorCode::InvalidBeneficiaries));
    let mut readonly = accounts.clone();
    readonly[1].is_writable = false;
    assert_eq!(trigger_handler(&mut s, grace_end + 1, &readonly, 100, 0), Err(ErrorCode::InvalidBeneficiaries));
    assert_eq!(
        trigger_handler(&mut s, grace_end + 1, &accounts[..1].to_vec(), 100, 0),
        Err(ErrorCode::InvalidBeneficiaries)
    );
    assert!(!s.triggered);
    // Anyone can trigger: no signer is involved.
    assert!(trigger_handler(&mut s, grace_end + 1, &accounts, 100, 0).is_ok());
}

#[test]
fn triggered_switch_refuses_everything() {
    let mut s = make_switch(vec![ben(7, 10_000)]);
    let accounts = accounts_for(&s);
    let late = T0 + 100_000;
    trigger_handler(&mut s, late, &accounts, 5_000, 0).unwrap();
    let e = Err(ErrorCode::AlreadyTriggered);
    assert_eq!(trigger_handler(&mut s, late, &accounts, 5_000, 0).err(), Some(ErrorCode::AlreadyTriggered));
    assert_eq!(check_in::handler(&mut s, &owner(), late), e);
    assert_eq!(deposit::handler(&s, 1, late), e);
    assert_eq!(withdraw::handler(&s, &owner(), late, 1, 5_000, 0), e);
    assert_eq!(cancel::handler(&s, &owner(), late), e);
    assert_eq!(add_message::handler(&mut s, &owner(), None), e);
    assert_eq!(update_beneficiaries::handler(&mut s, &owner(), &switch_key(), late, vec![ben(8, 10_000)]), e);
    assert_eq!(update_interval::handler(&mut s, &owner(), late, 86_400, 0), e);
}

#[test]
fn trigger_pays_out_exactly_the_distributable_amount() {
    let ten: Vec<Beneficiary> = (0..10u8).map(|i| ben(10 + i, 1_000)).collect();
    let mut s = make_switch(ten);
    let accounts = accounts_for(&s);
    let amounts = trigger_handler(&mut s, T0 + 200_000, &accounts, 1_000_000 + 1, 2).unwrap();
    assert_eq!(amounts.len(), 10);
    assert!(amounts[..9].iter().all(|a| *a == 99_999));
    assert_eq!(amounts[9], 100_008);
    assert_eq!(amounts.iter().sum::<u64>(), 999_999);
}
