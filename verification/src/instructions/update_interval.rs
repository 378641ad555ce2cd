use vstd::prelude::*;

use crate::address::Address;
use crate::arith::{i64_saturating_add, sat_add};
use crate::constants::MIN_CHECK_IN_INTERVAL;
use crate::error::{outcome, ErrorCode};
use crate::state::DeadmanSwitch;

verus! {

/// `s` with a new schedule.
pub open spec fn rescheduled(s: DeadmanSwitch, check_in_interval: i64, grace_period: i64) -> DeadmanSwitch {
    DeadmanSwitch { check_in_interval: check_in_interval, grace_period: grace_period, ..s }
}

/// Why changing the schedule of `s` at time `now` by `signer` is refused, if
/// it is. The last check is made on the new schedule: it must not leave the
/// switch already fully expired.
pub open spec fn update_interval_error(
    s: DeadmanSwitch,
    signer: Address,
    now: int,
    check_in_interval: i64,
    grace_period: i64,
) -> Option<ErrorCode> {
    if signer != s.owner {
        Some(ErrorCode::NotOwner)
    } else if s.triggered {
        Some(ErrorCode::AlreadyTriggered)
    } else if check_in_interval < MIN_CHECK_IN_INTERVAL {
        Some(ErrorCode::InvalidInterval)
    } else if grace_period < 0 {
        Some(ErrorCode::InvalidInterval)
    } else if s.past_deadline(now) {
        Some(ErrorCode::SwitchExpired)
    } else if rescheduled(s, check_in_interval, grace_period).fully_expired(now) {
        Some(ErrorCode::InvalidInterval)
    } else {
        None
    }
}

/// Owner updates the check-in interval and grace period. Minimum interval one
/// day; blocked once the deadline has passed (check in first, then update);
/// refused if the shorter schedule would make the switch triggerable at once.
pub fn handler(switch: &mut DeadmanSwitch, signer: &Address, now: i64, check_in_interval: i64, grace_period: i64) -> (r: Result<(), ErrorCode>)
    ensures
        r == outcome(update_interval_error(*old(switch), *signer, now as int, check_in_interval, grace_period)),
        r is Ok ==> *final(switch) == rescheduled(*old(switch), check_in_interval, grace_period),
        r is Ok ==> !final(switch).fully_expired(now as int),
        r is Err ==> *final(switch) == *old(switch),
        forall|key: Address| #[trigger] old(switch).well_formed(key) ==> final(switch).well_formed(key),
{
    if *signer != switch.owner {
        return Err(ErrorCode::NotOwner);
    }
    if switch.triggered {
        return Err(ErrorCode::AlreadyTriggered);
    }
    if check_in_interval < MIN_CHECK_IN_INTERVAL {
        return Err(ErrorCode::InvalidInterval);
    }
    if grace_period < 0 {
        return Err(ErrorCode::InvalidInterval);
    }
    if switch.is_past_deadline(now) {
        return Err(ErrorCode::SwitchExpired);
    }
    let new_deadline = i64_saturating_add(switch.last_check_in, check_in_interval);
    let new_grace_end = i64_saturating_add(new_deadline, grace_period);
    if now > new_grace_end {
        return Err(ErrorCode::InvalidInterval);
    }
    switch.check_in_interval = check_in_interval;
    switch.grace_period = grace_period;
    Ok(())
}

} // verus!
