use deadman_switch::address::Address;
use deadman_switch::constants::{
    DEFAULT_CHECK_IN_INTERVAL, DEFAULT_GRACE_PERIOD, MAX_BENEFICIARIES, MAX_MESSAGE_LEN,
    MIN_CHECK_IN_INTERVAL, REMINDER_THRESHOLD_SECS, TOTAL_BPS,
};
use deadman_switch::state::{Beneficiary, DeadmanSwitch};

fn switch(last: i64, interval: i64, grace: i64) -> DeadmanSwitch {
    DeadmanSwitch {
        owner: Address::new([1; 32]),
        beneficiaries: vec![Beneficiary { address: Address::new([7; 32]), share_bps: 10_000 }],
        check_in_interval: interval,
        grace_period: grace,
        last_check_in: last,
        triggered: false,
        message: None,
        bump: 0,
    }
}

#[test]
fn phases_follow_the_clock() {
    let s = switch(1_000, 100, 10);
    // Active up to and including the deadline.
    assert!(!s.is_past_deadline(1_100));
    assert!(!s.is_in_grace(1_100));
    // Grace from just after the deadline up to and including its end.
    assert!(s.is_past_deadline(1_101));
    assert!(s.is_in_grace(1_101));
    assert!(s.is_in_grace(1_110));
    assert!(!s.is_fully_expired(1_110));
    // Fully expired afterwards.
    assert!(s.is_fully_expired(1_111));
    assert!(!s.is_in_grace(1_111));
}

#[test]
fn grace_seconds_remaining_counts_down_to_zero() {
    let s = switch(1_000, 100, 10);
    assert_eq!(s.grace_seconds_remaining(1_000), 110);
    assert_eq!(s.grace_seconds_remaining(1_105), 5);
    assert_eq!(s.grace_seconds_remaining(1_110), 0);
    assert_eq!(s.grace_seconds_remaining(5_000), 0);
}

#[test]
fn timing_saturates_at_the_edges() {
    let s = switch(i64::MAX - 5, 100, 10);
    // The deadline saturates at i64::MAX, so the switch can never expire.
    assert!(!s.is_past_deadline(i64::MAX));
    assert!(!s.is_fully_expired(i64::MAX));
    let t = switch(0, 100, 10);
    assert_eq!(t.grace_seconds_remaining(i64::MIN), i64::MAX);
}

#[test]
fn constants_and_sizes() {
    assert_eq!(MAX_BENEFICIARIES, 10);
    assert_eq!(MAX_MESSAGE_LEN, 500);
    assert_eq!(TOTAL_BPS, 10_000);
    assert_eq!(DEFAULT_CHECK_IN_INTERVAL, 15_552_000);
    assert_eq!(MIN_CHECK_IN_INTERVAL, 86_400);
    assert_eq!(DEFAULT_GRACE_PERIOD, 604_800);
    assert_eq!(REMINDER_THRESHOLD_SECS, 864_000);
    assert_eq!(Beneficiary::SIZE, 34);
    assert_eq!(DeadmanSwitch::SPACE, 915);
}

#[test]
fn addresses_compare_by_bytes() {
    let mut bytes = [3u8; 32];
    let a = Address::new(bytes);
    bytes[31] = 4;
    let b = Address::new(bytes);
    assert!(a == Address::new([3u8; 32]));
    assert!(a != b);
    bytes[31] = 3;
    assert!(Address::new(bytes) == a);
}
