use vstd::prelude::*;

use crate::address::Address;
use crate::error::{outcome, ErrorCode};
use crate::state::{message_fits, message_within_limit, DeadmanSwitch};

verus! {

/// Why setting `message` on `s` by `signer` is refused, if it is.
pub open spec fn add_message_error(s: DeadmanSwitch, signer: Address, message: Option<String>) -> Option<ErrorCode> {
    if signer != s.owner {
        Some(ErrorCode::NotOwner)
    } else if s.triggered {
        Some(ErrorCode::AlreadyTriggered)
    } else if !message_fits(message) {
        Some(ErrorCode::MessageTooLong)
    } else {
        None
    }
}

/// Set, update, or clear the message stored in the switch.
/// Pass `None` to remove an existing message.
pub fn handler(switch: &mut DeadmanSwitch, signer: &Address, message: Option<String>) -> (r: Result<(), ErrorCode>)
    ensures
        r == outcome(add_message_error(*old(switch), *signer, message)),
        r is Ok ==> *final(switch) == (DeadmanSwitch { message: message, ..*old(switch) }),
        r is Err ==> *final(switch) == *old(switch),
        forall|key: Address| #[trigger] old(switch).well_formed(key) ==> final(switch).well_formed(key),
{
    if *signer != switch.owner {
        return Err(ErrorCode::NotOwner);
    }
    if switch.triggered {
        return Err(ErrorCode::AlreadyTriggered);
    }
    if !message_within_limit(&message) {
        return Err(ErrorCode::MessageTooLong);
    }
    switch.message = message;
    Ok(())
}

} // verus!
