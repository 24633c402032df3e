use vstd::prelude::*;

verus! {

/// The errors that the vesting program answers a refused request with.
#[derive(Clone, Copy, Debug, PartialEq, Eq, Structural)]
pub enum VestingError {
    InvalidAmount,
    InvalidRecipient,
    InvalidSchedule,
    InvalidCliff,
    CliffNotReached,
    NothingToWithdraw,
    Unauthorized,
    AlreadyCancelled,
    StreamNotCancelable,
    FullyVested,
    NotMilestoneStream,
    StreamExpired,
    InvalidTokenAccount,
    InsufficientFunds,
    InvalidPda,
    MathOverflow,
    InvalidMilestoneTime,
    StreamNotSettled,
}

/// The name by which an error is reported (the variant's name).
pub open spec fn error_name(e: VestingError) -> Seq<char> {
    match e {
        VestingError::InvalidAmount => "InvalidAmount"@,
        VestingError::InvalidRecipient => "InvalidRecipient"@,
        VestingError::InvalidSchedule => "InvalidSchedule"@,
        VestingError::InvalidCliff => "InvalidCliff"@,
        VestingError::CliffNotReached => "CliffNotReached"@,
        VestingError::NothingToWithdraw => "NothingToWithdraw"@,
        VestingError::Unauthorized => "Unauthorized"@,
        VestingError::AlreadyCancelled => "AlreadyCancelled"@,
        VestingError::StreamNotCancelable => "StreamNotCancelable"@,
        VestingError::FullyVested => "FullyVested"@,
        VestingError::NotMilestoneStream => "NotMilestoneStream"@,
        VestingError::StreamExpired => "StreamExpired"@,
        VestingError::InvalidTokenAccount => "InvalidTokenAccount"@,
        VestingError::InsufficientFunds => "InsufficientFunds"@,
        VestingError::InvalidPda => "InvalidPda"@,
        VestingError::MathOverflow => "MathOverflow"@,
        VestingError::InvalidMilestoneTime => "InvalidMilestoneTime"@,
        VestingError::StreamNotSettled => "StreamNotSettled"@,
    }
}

/// The human-readable message attached to each error.
pub open spec fn error_message(e: VestingError) -> Seq<char> {
    match e {
        VestingError::InvalidAmount => "Amount must be greater than zero"@,
        VestingError::InvalidRecipient => "Recipient cannot be the default pubkey"@,
        VestingError::InvalidSchedule => "start_time must be before end_time"@,
        VestingError::InvalidCliff => "cliff_time must be between start_time and end_time"@,
        VestingError::CliffNotReached => "Cliff period has not been reached yet"@,
        VestingError::NothingToWithdraw => "No tokens available to withdraw"@,
        VestingError::Unauthorized => "Signer is not authorized for this action"@,
        VestingError::AlreadyCancelled => "Stream has already been canceled"@,
        VestingError::StreamNotCancelable => "Stream is not cancelable"@,
        VestingError::FullyVested => "Stream is already fully vested"@,
        VestingError::NotMilestoneStream => "Stream is not configured for milestone unlocking"@,
        VestingError::StreamExpired => "Stream schedule has already ended"@,
        VestingError::InvalidTokenAccount => "Token account mint does not match stream mint"@,
        VestingError::InsufficientFunds => "Insufficient token balance to fund stream"@,
        VestingError::InvalidPda => "PDA derivation does not match expected address"@,
        VestingError::MathOverflow => "Arithmetic overflow or underflow"@,
        VestingError::InvalidMilestoneTime => "milestone_time must be a positive timestamp"@,
        VestingError::StreamNotSettled => "Stream is not settled: cancel it or withdraw the full amount first"@,
    }
}

impl VestingError {
    /// The variant's name, as the program reports it.
    pub fn name(&self) -> (s: &'static str)
        ensures
            s@ == error_name(*self),
    {
        match self {
            VestingError::InvalidAmount => "InvalidAmount",
            VestingError::InvalidRecipient => "InvalidRecipient",
            VestingError::InvalidSchedule => "InvalidSchedule",
            VestingError::InvalidCliff => "InvalidCliff",
            VestingError::CliffNotReached => "CliffNotReached",
            VestingError::NothingToWithdraw => "NothingToWithdraw",
            VestingError::Unauthorized => "Unauthorized",
            VestingError::AlreadyCancelled => "AlreadyCancelled",
            VestingError::StreamNotCancelable => "StreamNotCancelable",
            VestingError::FullyVested => "FullyVested",
            VestingError::NotMilestoneStream => "NotMilestoneStream",
            VestingError::StreamExpired => "StreamExpired",
            VestingError::InvalidTokenAccount => "InvalidTokenAccount",
            VestingError::InsufficientFunds => "InsufficientFunds",
            VestingError::InvalidPda => "InvalidPda",
            VestingError::MathOverflow => "MathOverflow",
            VestingError::InvalidMilestoneTime => "InvalidMilestoneTime",
            VestingError::StreamNotSettled => "StreamNotSettled",
        }
    }

    /// The message that goes with the error.
    pub fn message(&self) -> (s: &'static str)
        ensures
            s@ == error_message(*self),
    {
        match self {
            VestingError::InvalidAmount => "Amount must be greater than zero",
            VestingError::InvalidRecipient => "Recipient cannot be the default pubkey",
            VestingError::InvalidSchedule => "start_time must be before end_time",
            VestingError::InvalidCliff => "cliff_time must be between start_time and end_time",
            VestingError::CliffNotReached => "Cliff period has not been reached yet",
            VestingError::NothingToWithdraw => "No tokens available to withdraw",
            VestingError::Unauthorized => "Signer is not authorized for this action",
            VestingError::AlreadyCancelled => "Stream has already been canceled",
            VestingError::StreamNotCancelable => "Stream is not cancelable",
            VestingError::FullyVested => "Stream is already fully vested",
            VestingError::NotMilestoneStream => "Stream is not configured for milestone unlocking",
            VestingError::StreamExpired => "Stream schedule has already ended",
            VestingError::InvalidTokenAccount => "Token account mint does not match stream mint",
            VestingError::InsufficientFunds => "Insufficient token balance to fund stream",
            VestingError::InvalidPda => "PDA derivation does not match expected address",
            VestingError::MathOverflow => "Arithmetic overflow or underflow",
            VestingError::InvalidMilestoneTime => "milestone_time must be a positive timestamp",
            VestingError::StreamNotSettled => "Stream is not settled: cancel it or withdraw the full amount first",
        }
    }
}

} // verus!
