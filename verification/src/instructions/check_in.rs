use vstd::prelude::*;

use crate::address::Address;
use crate::error::{outcome, ErrorCode};
use crate::state::DeadmanSwitch;

verus! {

/// Why a check-in on `s` at time `now` by `signer` is refused, if it is.
pub open spec fn check_in_error(s: DeadmanSwitch, signer: Address, now: int) -> Option<ErrorCode> {
    if signer != s.owner {
        Some(ErrorCode::NotOwner)
    } else if s.triggered {
        Some(ErrorCode::AlreadyTriggered)
    } else if s.fully_expired(now) {
        Some(ErrorCode::SwitchExpired)
    } else {
        None
    }
}

/// Owner resets the timer. Still allowed during grace, where it resets the
/// full interval; blocked once the grace period has fully elapsed.
pub fn handler(switch: &mut DeadmanSwitch, signer: &Address, now: i64) -> (r: Result<(), ErrorCode>)
    ensures
        r == outcome(check_in_error(*old(switch), *signer, now as int)),
        r is Ok ==> *final(switch) == (DeadmanSwitch { last_check_in: now, ..*old(switch) }),
        r is Err ==> *final(switch) == *old(switch),
        forall|key: Address| #[trigger] old(switch).well_formed(key) ==> final(switch).well_formed(key),
{
    if *signer != switch.owner {
        return Err(ErrorCode::NotOwner);
    }
    if switch.triggered {
        return Err(ErrorCode::AlreadyTriggered);
    }
    if switch.is_fully_expired(now) {
        return Err(ErrorCode::SwitchExpired);
    }
    switch.last_check_in = now;
    Ok(())
}

} // verus!
