use vstd::prelude::*;

use crate::address::Address;
use crate::arith::{sat_add, sat_sub};
use crate::beneficiaries::{
    beneficiaries_check, lemma_address_scan_sound, lemma_scan_errors, valid_beneficiaries,
};
use crate::beneficiaries::share_sum;
use crate::constants::{MAX_BENEFICIARIES, MAX_MESSAGE_LEN, MIN_CHECK_IN_INTERVAL, TOTAL_BPS};
use crate::error::ErrorCode;
use crate::instructions::add_message::add_message_error;
use crate::instructions::initialize::initialize_error;
use crate::instructions::cancel::cancel_error;
use crate::instructions::check_in::check_in_error;
use crate::instructions::deposit::deposit_error;
use crate::instructions::trigger::{trigger_error, RemainingAccount};
use crate::instructions::update_beneficiaries::update_beneficiaries_error;
use crate::instructions::update_interval::update_interval_error;
use crate::instructions::withdraw::withdraw_error;
use crate::state::{Beneficiary, DeadmanSwitch};

verus! {

/// The three periods follow one another: with a non-negative grace period, a
/// switch that is fully expired is also past its deadline, and every moment
/// falls in exactly one of active, grace and fully expired.
pub proof fn lemma_phases_ordered(s: DeadmanSwitch, now: int)
    requires
        s.grace_period >= 0,
    ensures
        s.deadline() <= s.grace_end(),
        s.fully_expired(now) ==> s.past_deadline(now),
        s.phase(now) is Active <==> !s.past_deadline(now),
        s.phase(now) is Grace <==> s.in_grace(now),
        s.phase(now) is FullyExpired <==> s.fully_expired(now),
{
}

/// Time only moves a switch forward: once past the deadline, or fully
/// expired, it stays so at every later moment.
pub proof fn lemma_expiry_is_monotone(s: DeadmanSwitch, t1: int, t2: int)
    requires
        t1 <= t2,
    ensures
        s.past_deadline(t1) ==> s.past_deadline(t2),
        s.fully_expired(t1) ==> s.fully_expired(t2),
{
}

/// The seconds left in the grace window are positive exactly before the end
/// of the window, and zero from its end on.
pub proof fn lemma_grace_remaining_zero_at_end(s: DeadmanSwitch, now: i64)
    ensures
        s.grace_remaining(now as int) > 0 <==> (now as int) < s.grace_end(),
        s.grace_remaining(now as int) >= 0,
        s.grace_end() - now <= i64::MAX ==> s.grace_remaining(now as int) == (if (now as int)
            < s.grace_end() {
            s.grace_end() - now
        } else {
            0
        }),
{
}

/// A check-in restarts the full timer, also during the grace window: right
/// after it the switch is active again, with its deadline one full interval
/// away.
pub proof fn lemma_check_in_restarts_timer(s: DeadmanSwitch, now: i64)
    requires
        s.check_in_interval >= 0,
        s.grace_period >= 0,
    ensures
        ({
            let t = DeadmanSwitch { last_check_in: now, ..s };
            &&& t.deadline() == sat_add(now as int, s.check_in_interval as int)
            &&& t.phase(now as int) is Active
        }),
{
}

/// Once triggered, a switch refuses every instruction: the owner is told it
/// was triggered, and anyone else is refused too.
pub proof fn lemma_triggered_is_final(
    s: DeadmanSwitch,
    signer: Address,
    switch_key: Address,
    now: int,
    amount: u64,
    balance: u64,
    rent_minimum: u64,
    accounts: Seq<RemainingAccount>,
    message: Option<String>,
    bs: Seq<Beneficiary>,
    check_in_interval: i64,
    grace_period: i64,
)
    requires
        s.triggered,
    ensures
        check_in_error(s, signer, now) is Some,
        cancel_error(s, signer, now) is Some,
        withdraw_error(s, signer, now, amount, balance, rent_minimum) is Some,
        add_message_error(s, signer, message) is Some,
        update_beneficiaries_error(s, signer, switch_key, now, bs) is Some,
        update_interval_error(s, signer, now, check_in_interval, grace_period) is Some,
        deposit_error(s, amount, now) == Some(ErrorCode::AlreadyTriggered),
        trigger_error(s, now, accounts) == Some(ErrorCode::AlreadyTriggered),
        signer == s.owner ==> {
            &&& check_in_error(s, signer, now) == Some(ErrorCode::AlreadyTriggered)
            &&& cancel_error(s, signer, now) == Some(ErrorCode::AlreadyTriggered)
            &&& withdraw_error(s, signer, now, amount, balance, rent_minimum) == Some(
                ErrorCode::AlreadyTriggered,
            )
            &&& add_message_error(s, signer, message) == Some(ErrorCode::AlreadyTriggered)
            &&& update_beneficiaries_error(s, signer, switch_key, now, bs) == Some(
                ErrorCode::AlreadyTriggered,
            )
            &&& update_interval_error(s, signer, now, check_in_interval, grace_period) == Some(
                ErrorCode::AlreadyTriggered,
            )
        },
{
}

/// Only the owner may check in, withdraw, cancel, set the message or change
/// the beneficiaries or schedule; deposit and trigger are open to anyone.
pub proof fn lemma_owner_only(
    s: DeadmanSwitch,
    signer: Address,
    switch_key: Address,
    now: int,
    amount: u64,
    balance: u64,
    rent_minimum: u64,
    message: Option<String>,
    bs: Seq<Beneficiary>,
    check_in_interval: i64,
    grace_period: i64,
)
    requires
        signer != s.owner,
    ensures
        check_in_error(s, signer, now) == Some(ErrorCode::NotOwner),
        cancel_error(s, signer, now) == Some(ErrorCode::NotOwner),
        withdraw_error(s, signer, now, amount, balance, rent_minimum) == Some(ErrorCode::NotOwner),
        add_message_error(s, signer, message) == Some(ErrorCode::NotOwner),
        update_beneficiaries_error(s, signer, switch_key, now, bs) == Some(ErrorCode::NotOwner),
        update_interval_error(s, signer, now, check_in_interval, grace_period) == Some(
            ErrorCode::NotOwner,
        ),
{
}

/// The state machine of the switch, phase by phase, for an untriggered switch
/// and its owner:
/// check-in and cancel work until the switch is fully expired; deposits are
/// taken until then as well; withdrawals and changes to the beneficiaries or
/// the schedule lock at the deadline; trigger opens only once fully expired.
pub proof fn lemma_phase_permissions(
    s: DeadmanSwitch,
    switch_key: Address,
    now: int,
    amount: u64,
    balance: u64,
    rent_minimum: u64,
    accounts: Seq<RemainingAccount>,
    bs: Seq<Beneficiary>,
    check_in_interval: i64,
    grace_period: i64,
)
    requires
        !s.triggered,
    ensures
        check_in_error(s, s.owner, now) is None <==> !s.fully_expired(now),
        cancel_error(s, s.owner, now) is None <==> !s.fully_expired(now),
        amount > 0 ==> ((deposit_error(s, amount, now) == Some(ErrorCode::SwitchExpired))
            <==> s.fully_expired(now)),
        (trigger_error(s, now, accounts) == Some(ErrorCode::DeadlineNotPassed)) <==> !s.fully_expired(
            now,
        ),
        (withdraw_error(s, s.owner, now, amount, balance, rent_minimum) == Some(
            ErrorCode::SwitchExpired,
        )) <==> s.past_deadline(now),
        (update_beneficiaries_error(s, s.owner, switch_key, now, bs) == Some(
            ErrorCode::SwitchExpired,
        )) <==> s.past_deadline(now),
        check_in_interval >= MIN_CHECK_IN_INTERVAL && grace_period >= 0 ==> ((update_interval_error(
            s,
            s.owner,
            now,
            check_in_interval,
            grace_period,
        ) == Some(ErrorCode::SwitchExpired)) <==> s.past_deadline(now)),
{
    lemma_scan_errors(bs, switch_key, 0);
}

/// The beneficiary check accepts exactly the valid lists: one to ten
/// entries, shares summing to 10,000 basis points, no address twice, and not
/// the switch itself.
pub proof fn lemma_beneficiaries_check_sound(bs: Seq<Beneficiary>, switch_key: Address)
    ensures
        beneficiaries_check(bs, switch_key) is Ok <==> valid_beneficiaries(bs, switch_key),
{
    lemma_address_scan_sound(bs, switch_key);
}

/// The timing of a switch, in terms of its stored fields: the deadline is the
/// last check-in plus the full interval, and the grace window ends the full
/// grace period after it (both saturating at the bounds of `i64`). A switch is
/// past its deadline, in grace, or fully expired exactly by these sums, and
/// the seconds left in grace count down to that end.
pub proof fn lemma_timing_formulas(s: DeadmanSwitch, now: int)
    ensures
        s.past_deadline(now) <==> now > sat_add(s.last_check_in as int, s.check_in_interval as int),
        s.fully_expired(now) <==> now > sat_add(
            sat_add(s.last_check_in as int, s.check_in_interval as int),
            s.grace_period as int,
        ),
        s.in_grace(now) <==> (now > sat_add(s.last_check_in as int, s.check_in_interval as int)
            && now <= sat_add(
            sat_add(s.last_check_in as int, s.check_in_interval as int),
            s.grace_period as int,
        )),
        s.grace_remaining(now) == ({
            let left = sat_sub(
                sat_add(
                    sat_add(s.last_check_in as int, s.check_in_interval as int),
                    s.grace_period as int,
                ),
                now,
            );
            if left > 0 { left } else { 0 }
        }),
{
}

/// Trigger pays out only to exactly the stored beneficiaries: it succeeds only
/// when the accounts handed in are as many as the beneficiaries and each one
/// is the beneficiary at the same position and writable; and for an
/// untriggered, fully expired switch such a list is always accepted.
pub proof fn lemma_trigger_accounts(s: DeadmanSwitch, now: int, accounts: Seq<RemainingAccount>)
    ensures
        trigger_error(s, now, accounts) is None ==> {
            &&& accounts.len() == s.beneficiaries@.len()
            &&& forall|i: int|
                0 <= i < accounts.len() ==> (#[trigger] accounts[i]).key == s.beneficiaries@[i].address
                    && accounts[i].is_writable
        },
        trigger_error(s, now, accounts) is None ==> !s.triggered && now > sat_add(
            sat_add(s.last_check_in as int, s.check_in_interval as int),
            s.grace_period as int,
        ),
        (!s.triggered && now > sat_add(
            sat_add(s.last_check_in as int, s.check_in_interval as int),
            s.grace_period as int,
        ) && accounts.len() == s.beneficiaries@.len() && (forall|i: int|
            0 <= i < accounts.len() ==> (#[trigger] accounts[i]).key == s.beneficiaries@[i].address
                && accounts[i].is_writable)) ==> trigger_error(s, now, accounts) is None,
{
}

/// Initialize accepts every sound setting: an interval of at least one day, a
/// non-negative grace period of any length, one to ten beneficiaries whose
/// shares sum to 10,000 basis points, with distinct addresses none of which
/// is the switch, and a message of at most 500 bytes; these are its only
/// refusals.
pub proof fn lemma_initialize_accepts(
    switch_key: Address,
    bs: Seq<Beneficiary>,
    check_in_interval: i64,
    grace_period: i64,
    message: Option<String>,
)
    ensures
        initialize_error(switch_key, bs, check_in_interval, grace_period, message) is None <==> {
            &&& check_in_interval >= MIN_CHECK_IN_INTERVAL
            &&& grace_period >= 0
            &&& 1 <= bs.len() <= MAX_BENEFICIARIES
            &&& share_sum(bs) == TOTAL_BPS
            &&& forall|i: int, j: int|
                0 <= i < j < bs.len() ==> #[trigger] bs[i].address != #[trigger] bs[j].address
            &&& forall|i: int| 0 <= i < bs.len() ==> #[trigger] bs[i].address != switch_key
            &&& match message {
                Some(m) => (vstd::utf8::encode_utf8(m@).len() as usize) <= MAX_MESSAGE_LEN,
                None => true,
            }
        },
{
    lemma_beneficiaries_check_sound(bs, switch_key);
}

/// For the owner of an untriggered switch that is not past its deadline, a new
/// schedule is accepted exactly when the interval is at least one day (with no
/// upper bound), the grace period is non-negative, and the moment of the
/// change is not after the new grace end (last check-in plus new interval
/// plus new grace period, saturating).
pub proof fn lemma_update_interval_accepts(
    s: DeadmanSwitch,
    now: int,
    check_in_interval: i64,
    grace_period: i64,
)
    requires
        !s.triggered,
        now <= sat_add(s.last_check_in as int, s.check_in_interval as int),
    ensures
        update_interval_error(s, s.owner, now, check_in_interval, grace_period) is None <==> {
            &&& check_in_interval >= MIN_CHECK_IN_INTERVAL
            &&& grace_period >= 0
            &&& now <= sat_add(
                sat_add(s.last_check_in as int, check_in_interval as int),
                grace_period as int,
            )
        },
{
}

/// Setting a message only looks at the new message: for the owner of an
/// untriggered switch it is accepted exactly when it is `None` or at most 500
/// bytes long, whatever message is stored now.
pub proof fn lemma_add_message_accepts(s: DeadmanSwitch, message: Option<String>)
    requires
        !s.triggered,
    ensures
        add_message_error(s, s.owner, message) is None <==> match message {
            Some(m) => (vstd::utf8::encode_utf8(m@).len() as usize) <= MAX_MESSAGE_LEN,
            None => true,
        },
        forall|old_message: Option<String>|
            add_message_error(s, s.owner, message) == #[trigger] add_message_error(
                DeadmanSwitch { message: old_message, ..s },
                s.owner,
                message,
            ),
{
}

} // verus!
