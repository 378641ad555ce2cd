use vstd::prelude::*;

use crate::error::{outcome, ErrorCode};
use crate::state::DeadmanSwitch;

verus! {

/// Why a deposit of `amount` into `s` at time `now` is refused, if it is.
pub open spec fn deposit_error(s: DeadmanSwitch, amount: u64, now: int) -> Option<ErrorCode> {
    if s.triggered {
        Some(ErrorCode::AlreadyTriggered)
    } else if amount == 0 {
        Some(ErrorCode::InsufficientFunds)
    } else if s.fully_expired(now) {
        Some(ErrorCode::SwitchExpired)
    } else {
        None
    }
}

/// Decides whether anyone may add `amount` lamports to the switch: allowed
/// until the grace window has fully elapsed, for a positive amount.
pub fn handler(switch: &DeadmanSwitch, amount: u64, now: i64) -> (r: Result<(), ErrorCode>)
    ensures
        r == outcome(deposit_error(*switch, amount, now as int)),
{
    if switch.triggered {
        return Err(ErrorCode::AlreadyTriggered);
    }
    if amount == 0 {
        return Err(ErrorCode::InsufficientFunds);
    }
    if switch.is_fully_expired(now) {
        return Err(ErrorCode::SwitchExpired);
    }
    Ok(())
}

} // verus!
