use vstd::prelude::*;

use crate::address::Address;
use crate::arith::sat_sub_nat;
use crate::error::{outcome, ErrorCode};
use crate::state::DeadmanSwitch;

verus! {

/// Why withdrawing `amount` from `s` at time `now` by `signer` is refused, if
/// it is, when the switch holds `balance` lamports of which `rent_minimum`
/// must stay.
pub open spec fn withdraw_error(
    s: DeadmanSwitch,
    signer: Address,
    now: int,
    amount: u64,
    balance: u64,
    rent_minimum: u64,
) -> Option<ErrorCode> {
    if signer != s.owner {
        Some(ErrorCode::NotOwner)
    } else if s.triggered {
        Some(ErrorCode::AlreadyTriggered)
    } else if s.past_deadline(now) {
        Some(ErrorCode::SwitchExpired)
    } else if !(amount > 0 && amount <= sat_sub_nat(balance as int, rent_minimum as int)) {
        Some(ErrorCode::InsufficientFunds)
    } else {
        None
    }
}

/// Decides whether the owner may take `amount` lamports out of the switch.
/// Allowed in the active period only (locked at the deadline, not at grace
/// end, so the owner cannot drain funds beneficiaries are owed), and never
/// below the rent minimum.
pub fn handler(
    switch: &DeadmanSwitch,
    signer: &Address,
    now: i64,
    amount: u64,
    balance: u64,
    rent_minimum: u64,
) -> (r: Result<(), ErrorCode>)
    ensures
        r == outcome(withdraw_error(*switch, *signer, now as int, amount, balance, rent_minimum)),
        r is Ok ==> 0 < amount <= balance && balance - amount >= rent_minimum,
{
    if *signer != switch.owner {
        return Err(ErrorCode::NotOwner);
    }
    if switch.triggered {
        return Err(ErrorCode::AlreadyTriggered);
    }
    if switch.is_past_deadline(now) {
        return Err(ErrorCode::SwitchExpired);
    }
    let available = balance.saturating_sub(rent_minimum);
    if !(amount > 0 && amount <= available) {
        return Err(ErrorCode::InsufficientFunds);
    }
    Ok(())
}

} // verus!
