use vstd::prelude::*;

use crate::address::Address;
use crate::arith::sat_sub_nat;
use crate::beneficiaries::share_sum;
use crate::constants::TOTAL_BPS;
use crate::error::ErrorCode;
use crate::payout::{compute_payouts, lemma_payouts_conserve, payouts, total};
use crate::state::{Beneficiary, DeadmanSwitch};

verus! {

/// An account handed to trigger to be paid: its address and whether the
/// transaction lets it be written.
#[derive(Clone, Copy, Debug)]
pub struct RemainingAccount {
    pub key: Address,
    pub is_writable: bool,
}

/// The accounts handed in are the stored beneficiaries, in order, all writable.
pub open spec fn accounts_match(accounts: Seq<RemainingAccount>, bs: Seq<Beneficiary>) -> bool {
    &&& accounts.len() == bs.len()
    &&& forall|i: int|
        0 <= i < accounts.len() ==> #[trigger] accounts[i].key == bs[i].address && accounts[i].is_writable
}

/// Why triggering `s` at time `now` with `accounts` is refused, if it is.
/// Anyone may trigger: no signer is asked for.
pub open spec fn trigger_error(s: DeadmanSwitch, now: int, accounts: Seq<RemainingAccount>) -> Option<ErrorCode> {
    if s.triggered {
        Some(ErrorCode::AlreadyTriggered)
    } else if !s.fully_expired(now) {
        Some(ErrorCode::DeadlineNotPassed)
    } else if !accounts_match(accounts, s.beneficiaries@) {
        Some(ErrorCode::InvalidBeneficiaries)
    } else {
        None
    }
}

/// Lamports that trigger pays out: all the switch holds above its rent minimum.
pub open spec fn distributable(balance: u64, rent_minimum: u64) -> u64 {
    sat_sub_nat(balance as int, rent_minimum as int) as u64
}

fn check_accounts(accounts: &Vec<RemainingAccount>, beneficiaries: &Vec<Beneficiary>) -> (r: bool)
    ensures
        r == accounts_match(accounts@, beneficiaries@),
{
    if accounts.len() != beneficiaries.len() {
        return false;
    }
    let mut i: usize = 0;
    while i < accounts.len()
        invariant
            accounts.len() == beneficiaries.len(),
            i <= accounts.len(),
            forall|k: int|
                0 <= k < i ==> (#[trigger] accounts@[k]).key == beneficiaries@[k].address
                    && accounts@[k].is_writable,
        decreases accounts.len() - i,
    {
        if accounts[i].key != beneficiaries[i].address {
            return false;
        }
        if !accounts[i].is_writable {
            return false;
        }
        assert(accounts@[i as int].key == beneficiaries@[i as int].address);
        i = i + 1;
    }
    true
}

/// Permissionless: once the switch is fully expired, marks it triggered and
/// returns what each beneficiary receives, in the stored order. The switch
/// keeps its rent minimum; each beneficiary gets its share of the rest rounded
/// down, and the last one absorbs the rounding dust.
pub fn handler(
    switch: &mut DeadmanSwitch,
    now: i64,
    accounts: &Vec<RemainingAccount>,
    balance: u64,
    rent_minimum: u64,
) -> (r: Result<Vec<u64>, ErrorCode>)
    ensures
        match trigger_error(*old(switch), now as int, accounts@) {
            Some(e) => r == Err::<Vec<u64>, ErrorCode>(e),
            None => r is Ok,
        },
        r matches Ok(amounts) ==> amounts@ == payouts(
            distributable(balance, rent_minimum),
            old(switch).beneficiaries@,
        ),
        r is Ok ==> accounts@.len() == old(switch).beneficiaries@.len() && forall|i: int|
            0 <= i < accounts@.len() ==> (#[trigger] accounts@[i]).key == old(
                switch,
            ).beneficiaries@[i].address && accounts@[i].is_writable,
        r is Ok ==> *final(switch) == (DeadmanSwitch { triggered: true, ..*old(switch) }),
        r is Err ==> *final(switch) == *old(switch),
        forall|key: Address| #[trigger] old(switch).well_formed(key) ==> final(switch).well_formed(key),
        // With a well-formed share table, exactly the amount above the rent
        // minimum is paid out.
        r matches Ok(amounts) ==> (old(switch).beneficiaries@.len() >= 1 && share_sum(
            old(switch).beneficiaries@,
        ) == TOTAL_BPS ==> total(amounts@) == distributable(balance, rent_minimum) && balance
            - total(amounts@) == (if balance >= rent_minimum {
            rent_minimum as int
        } else {
            balance as int
        })),
{
    if switch.triggered {
        return Err(ErrorCode::AlreadyTriggered);
    }
    if !switch.is_fully_expired(now) {
        return Err(ErrorCode::DeadlineNotPassed);
    }
    if !check_accounts(accounts, &switch.beneficiaries) {
        return Err(ErrorCode::InvalidBeneficiaries);
    }
    let distributable = balance.saturating_sub(rent_minimum);
    let amounts = compute_payouts(distributable, &switch.beneficiaries);
    proof {
        if switch.beneficiaries@.len() >= 1 && share_sum(switch.beneficiaries@) == TOTAL_BPS {
            lemma_payouts_conserve(distributable, switch.beneficiaries@);
        }
    }
    switch.triggered = true;
    Ok(amounts)
}

} // verus!
