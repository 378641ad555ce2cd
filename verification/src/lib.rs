//! Verified core of a deadman switch: an inheritance vault whose owner must
//! check in periodically; once the check-in deadline and a grace window have
//! both passed, anyone may trigger a proportional payout to the beneficiaries.
//!
//! This crate holds the rules: the timing predicates, beneficiary validation,
//! every instruction's decision and state change, and the payout arithmetic.
//! Reading the clock, account balances and moving lamports is left to the
//! program that embeds it.
pub mod address;
pub mod arith;
pub mod constants;
pub mod error;
pub mod beneficiaries;
pub mod state;
pub mod payout;
pub mod instructions;
pub mod laws;
