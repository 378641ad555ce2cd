use vstd::prelude::*;

use crate::address::Address;
use crate::error::{outcome, ErrorCode};
use crate::state::DeadmanSwitch;

verus! {

/// Why closing `s` at time `now` by `signer` is refused, if it is.
pub open spec fn cancel_error(s: DeadmanSwitch, signer: Address, now: int) -> Option<ErrorCode> {
    if signer != s.owner {
        Some(ErrorCode::NotOwner)
    } else if s.triggered {
        Some(ErrorCode::AlreadyTriggered)
    } else if s.fully_expired(now) {
        Some(ErrorCode::SwitchExpired)
    } else {
        None
    }
}

/// Decides whether the owner may close the switch and take back everything it
/// holds. Allowed during the grace window; once fully expired, only trigger
/// can run, so cancelling cannot front-run it.
pub fn handler(switch: &DeadmanSwitch, signer: &Address, now: i64) -> (r: Result<(), ErrorCode>)
    ensures
        r == outcome(cancel_error(*switch, *signer, now as int)),
{
    if *signer != switch.owner {
        return Err(ErrorCode::NotOwner);
    }
    if switch.triggered {
        return Err(ErrorCode::AlreadyTriggered);
    }
    if switch.is_fully_expired(now) {
        return Err(ErrorCode::SwitchExpired);
    }
    Ok(())
}

} // verus!
