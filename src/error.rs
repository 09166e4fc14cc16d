use vstd::prelude::*;

verus! {

/// Why an operation was refused. Every refusal happens before any state is
/// changed.
#[derive(Clone, Copy, Debug, PartialEq, Eq, Structural)]
pub enum ErrorCode {
    UnauthorizedAccess,
    InvalidRecipient,
    InactiveRecipient,
    InsufficientFunds,
    SpendingLimitExceeded,
    InvalidSchedule,
    MissingTokenGate,
    InvalidTokenVault,
    PayoutNotDue,
    MaxExecutionsReached,
    InvalidStreamingSchedule,
    StreamInactive,
    NoWithdrawableAmount,
    StreamNotCancelable,
}

} // verus!
