use vstd::prelude::*;

use crate::address::Address;
use crate::beneficiaries::{beneficiaries_check, validate_beneficiaries, valid_beneficiaries};
use crate::error::{outcome, ErrorCode};
use crate::state::{Beneficiary, DeadmanSwitch};

verus! {

/// Why replacing the beneficiaries of `s` (whose own address is `switch_key`)
/// with `bs` at time `now` by `signer` is refused, if it is.
pub open spec fn update_beneficiaries_error(
    s: DeadmanSwitch,
    signer: Address,
    switch_key: Address,
    now: int,
    bs: Seq<Beneficiary>,
) -> Option<ErrorCode> {
    if signer != s.owner {
        Some(ErrorCode::NotOwner)
    } else if s.triggered {
        Some(ErrorCode::AlreadyTriggered)
    } else if s.past_deadline(now) {
        Some(ErrorCode::SwitchExpired)
    } else {
        match beneficiaries_check(bs, switch_key) {
            Err(e) => Some(e),
            Ok(()) => None,
        }
    }
}

/// Replace the entire beneficiary list. Blocked after the deadline (check in
/// first), so a compromised key cannot redirect funds during grace.
pub fn handler(
    switch: &mut DeadmanSwitch,
    signer: &Address,
    switch_key: &Address,
    now: i64,
    beneficiaries: Vec<Beneficiary>,
) -> (r: Result<(), ErrorCode>)
    ensures
        r == outcome(update_beneficiaries_error(*old(switch), *signer, *switch_key, now as int, beneficiaries@)),
        r is Ok ==> *final(switch) == (DeadmanSwitch { beneficiaries: beneficiaries, ..*old(switch) }),
        r is Ok ==> valid_beneficiaries(final(switch).beneficiaries@, *switch_key),
        r is Err ==> *final(switch) == *old(switch),
        old(switch).well_formed(*switch_key) ==> final(switch).well_formed(*switch_key),
{
    if *signer != switch.owner {
        return Err(ErrorCode::NotOwner);
    }
    if switch.triggered {
        return Err(ErrorCode::AlreadyTriggered);
    }
    if switch.is_past_deadline(now) {
        return Err(ErrorCode::SwitchExpired);
    }
    match validate_beneficiaries(&beneficiaries, switch_key) {
        Err(e) => {
            return Err(e);
        },
        Ok(()) => {},
    }
    switch.beneficiaries = beneficiaries;
    Ok(())
}

} // verus!
