use vstd::prelude::*;

verus! {

/// Why an instruction was refused.
#[derive(Clone, Copy, Debug, PartialEq, Eq, Structural)]
pub enum ErrorCode {
    /// Only the owner can call this instruction.
    NotOwner,
    /// The deadman switch has already been triggered.
    AlreadyTriggered,
    /// The check-in deadline has not passed yet.
    DeadlineNotPassed,
    /// Action blocked: check-in deadline has passed.
    SwitchExpired,
    /// Beneficiary shares must sum to exactly 10,000 basis points.
    InvalidShares,
    /// Too many beneficiaries; maximum is 10.
    TooManyBeneficiaries,
    /// At least one beneficiary is required.
    EmptyBeneficiaries,
    /// Insufficient withdrawable balance.
    InsufficientFunds,
    /// Message exceeds the 500-byte limit.
    MessageTooLong,
    /// Check-in interval must be at least 1 day; grace period must be >= 0.
    InvalidInterval,
    /// Remaining accounts must match stored beneficiaries in order.
    InvalidBeneficiaries,
    /// Duplicate beneficiary; each address can only appear once.
    DuplicateBeneficiary,
}

/// The result of an instruction that either succeeds with nothing to report
/// or fails with the first error found.
pub open spec fn outcome(error: Option<ErrorCode>) -> Result<(), ErrorCode> {
    match error {
        Some(e) => Err(e),
        None => Ok(()),
    }
}

} // verus!
