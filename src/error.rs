use vstd::prelude::*;

verus! {

/// Failures that an operation on a vesting schedule or a borrow ledger can report.
///
/// Every failing operation leaves its record exactly as it was.
#[derive(Debug, Clone, Copy, PartialEq, Eq, Structural)]
pub enum ErrorCode {
    /// A schedule was requested with a duration that is not strictly positive.
    InvalidDuration,
    /// A withdrawal was attempted before the schedule's unlock time.
    VestingNotStarted,
    /// A withdrawal asked for more than is currently available.
    InsufficientFunds,
    /// The transfer to the beneficiary did not go through.
    TransferFailed,
    /// An accumulator would have exceeded its 64-bit range.
    Overflow,
}

} // verus!
