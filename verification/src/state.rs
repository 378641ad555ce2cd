use vstd::prelude::*;

use crate::address::Address;
use crate::arith::{i64_saturating_add, i64_saturating_sub, sat_add, sat_sub};
use crate::beneficiaries::valid_beneficiaries;
use crate::constants::{MAX_BENEFICIARIES, MAX_MESSAGE_LEN, MIN_CHECK_IN_INTERVAL};

verus! {

/// One heir of the switch and its share of the payout.
#[derive(Clone, Copy, Debug)]
pub struct Beneficiary {
    pub address: Address,
    /// Share in basis points (1 = 0.01%). All shares must sum to 10,000.
    pub share_bps: u16,
}

impl Beneficiary {
    /// Serialized size: address + u16.
    pub const SIZE: usize = 32 + 2;
}

/// The stored state of one switch.
#[derive(Debug)]
pub struct DeadmanSwitch {
    pub owner: Address,
    pub beneficiaries: Vec<Beneficiary>,
    /// How often the owner must check in (seconds).
    pub check_in_interval: i64,
    /// Grace window after deadline; owner can still check in or cancel.
    pub grace_period: i64,
    /// Timestamp of the last check-in (or init).
    pub last_check_in: i64,
    /// Set once trigger fires.
    pub triggered: bool,
    /// Optional note for beneficiaries.
    pub message: Option<String>,
    pub bump: u8,
}

/// The length in bytes of a text, as `str::len` reports it: the number of
/// bytes of its UTF-8 encoding.
pub open spec fn byte_len(s: Seq<char>) -> usize {
    vstd::utf8::encode_utf8(s).len() as usize
}

/// A message that may be stored: none, or at most `MAX_MESSAGE_LEN` bytes.
pub open spec fn message_fits(message: Option<String>) -> bool {
    match message {
        Some(m) => byte_len(m@) <= MAX_MESSAGE_LEN,
        None => true,
    }
}

/// Whether a message may be stored.
pub fn message_within_limit(message: &Option<String>) -> (r: bool)
    ensures
        r == message_fits(*message),
{
    match message {
        Some(m) => m.as_str().len() <= MAX_MESSAGE_LEN,
        None => true,
    }
}

/// Which period of a switch's life a moment falls in: active until the
/// check-in deadline, then the grace window until its end, then fully expired.
pub enum Phase {
    Active,
    Grace,
    FullyExpired,
}

impl DeadmanSwitch {
    /// Account space: discriminator, owner, beneficiary vector, three i64s,
    /// the triggered flag, the optional message and the bump.
    pub const SPACE: usize = 8 + 32 + 4 + MAX_BENEFICIARIES * Beneficiary::SIZE + 8 + 8 + 8 + 1 + 1
        + 4 + MAX_MESSAGE_LEN + 1;

    /// The check-in deadline: last check-in plus interval, saturating.
    pub open spec fn deadline(&self) -> int {
        sat_add(self.last_check_in as int, self.check_in_interval as int)
    }

    /// The end of the grace window: deadline plus grace period, saturating.
    pub open spec fn grace_end(&self) -> int {
        sat_add(self.deadline(), self.grace_period as int)
    }

    pub open spec fn past_deadline(&self, now: int) -> bool {
        now > self.deadline()
    }

    pub open spec fn fully_expired(&self, now: int) -> bool {
        now > self.grace_end()
    }

    pub open spec fn in_grace(&self, now: int) -> bool {
        self.past_deadline(now) && !self.fully_expired(now)
    }

    pub open spec fn grace_remaining(&self, now: int) -> int {
        let left = sat_sub(self.grace_end(), now);
        if left > 0 { left } else { 0 }
    }

    pub open spec fn phase(&self, now: int) -> Phase {
        if self.fully_expired(now) {
            Phase::FullyExpired
        } else if self.past_deadline(now) {
            Phase::Grace
        } else {
            Phase::Active
        }
    }

    /// What every stored switch satisfies: a valid beneficiary list that
    /// excludes the switch's own address, an interval of at least one day,
    /// a non-negative grace period, and a message within the size limit.
    pub open spec fn well_formed(&self, switch_key: Address) -> bool {
        &&& valid_beneficiaries(self.beneficiaries@, switch_key)
        &&& self.check_in_interval >= MIN_CHECK_IN_INTERVAL
        &&& self.grace_period >= 0
        &&& message_fits(self.message)
    }

    /// True once the initial check-in interval has elapsed.
    /// Grace window is now open; owner can still check in or cancel.
    pub fn is_past_deadline(&self, now: i64) -> (r: bool)
        ensures
            r == self.past_deadline(now as int),
            r == (now > sat_add(self.last_check_in as int, self.check_in_interval as int)),
    {
        now > i64_saturating_add(self.last_check_in, self.check_in_interval)
    }

    /// True once both deadline and grace period have elapsed. Trigger is allowed now.
    pub fn is_fully_expired(&self, now: i64) -> (r: bool)
        ensures
            r == self.fully_expired(now as int),
            r == (now > sat_add(
                sat_add(self.last_check_in as int, self.check_in_interval as int),
                self.grace_period as int,
            )),
    {
        now > i64_saturating_add(
            i64_saturating_add(self.last_check_in, self.check_in_interval),
            self.grace_period,
        )
    }

    /// True while within the grace window (past deadline but grace not yet over).
    pub fn is_in_grace(&self, now: i64) -> (r: bool)
        ensures
            r == self.in_grace(now as int),
    {
        self.is_past_deadline(now) && !self.is_fully_expired(now)
    }

    /// Seconds remaining in the grace window, or 0 if expired.
    pub fn grace_seconds_remaining(&self, now: i64) -> (r: i64)
        ensures
            r == self.grace_remaining(now as int),
            r == ({
                let left = sat_sub(
                    sat_add(
                        sat_add(self.last_check_in as int, self.check_in_interval as int),
                        self.grace_period as int,
                    ),
                    now as int,
                );
                if left > 0 { left } else { 0 }
            }),
    {
        let grace_end = i64_saturating_add(
            i64_saturating_add(self.last_check_in, self.check_in_interval),
            self.grace_period,
        );
        let left = i64_saturating_sub(grace_end, now);
        if left > 0 {
            left
        } else {
            0
        }
    }
}

} // verus!
