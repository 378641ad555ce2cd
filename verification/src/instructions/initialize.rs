use vstd::prelude::*;

use crate::address::Address;
use crate::beneficiaries::{beneficiaries_check, validate_beneficiaries};
use crate::constants::MIN_CHECK_IN_INTERVAL;
use crate::error::ErrorCode;
use crate::state::{message_fits, message_within_limit, Beneficiary, DeadmanSwitch};

verus! {

/// Why creating a switch with these settings is refused, if it is; the checks
/// are made in this order.
pub open spec fn initialize_error(
    switch_key: Address,
    bs: Seq<Beneficiary>,
    check_in_interval: i64,
    grace_period: i64,
    message: Option<String>,
) -> Option<ErrorCode> {
    if check_in_interval < MIN_CHECK_IN_INTERVAL {
        Some(ErrorCode::InvalidInterval)
    } else if grace_period < 0 {
        Some(ErrorCode::InvalidInterval)
    } else if beneficiaries_check(bs, switch_key) is Err {
        Some(beneficiaries_check(bs, switch_key)->Err_0)
    } else if !message_fits(message) {
        Some(ErrorCode::MessageTooLong)
    } else {
        None
    }
}

/// Create a new deadman switch for `owner`, stored at `switch_key`, with its
/// timer started at `now`. Also returns the initial deposit to move from the
/// owner into the switch, if there is one.
pub fn handler(
    owner: &Address,
    switch_key: &Address,
    bump: u8,
    beneficiaries: Vec<Beneficiary>,
    check_in_interval: i64,
    grace_period: i64,
    deposit_amount: u64,
    message: Option<String>,
    now: i64,
) -> (r: Result<(DeadmanSwitch, Option<u64>), ErrorCode>)
    ensures
        match initialize_error(*switch_key, beneficiaries@, check_in_interval, grace_period, message) {
            Some(e) => r == Err::<(DeadmanSwitch, Option<u64>), ErrorCode>(e),
            None => r is Ok,
        },
        r matches Ok((s, deposit)) ==> s == (DeadmanSwitch {
            owner: *owner,
            beneficiaries: beneficiaries,
            check_in_interval: check_in_interval,
            grace_period: grace_period,
            last_check_in: now,
            triggered: false,
            message: message,
            bump: bump,
        }) && deposit == (if deposit_amount > 0 { Some(deposit_amount) } else { None }),
        r matches Ok((s, _)) ==> s.well_formed(*switch_key) && !s.past_deadline(now as int),
{
    if check_in_interval < MIN_CHECK_IN_INTERVAL {
        return Err(ErrorCode::InvalidInterval);
    }
    if grace_period < 0 {
        return Err(ErrorCode::InvalidInterval);
    }
    match validate_beneficiaries(&beneficiaries, switch_key) {
        Err(e) => {
            return Err(e);
        },
        Ok(()) => {},
    }
    if !message_within_limit(&message) {
        return Err(ErrorCode::MessageTooLong);
    }
    let switch = DeadmanSwitch {
        owner: *owner,
        beneficiaries,
        check_in_interval,
        grace_period,
        last_check_in: now,
        triggered: false,
        message,
        bump,
    };
    let deposit = if deposit_amount > 0 {
        Some(deposit_amount)
    } else {
        None
    };
    Ok((switch, deposit))
}

} // verus!
