use vstd::prelude::*;

use crate::error::VestingError;
use crate::state::{Pubkey, Stream, VestingType};

verus! {

/// The accounts and seeds a stream is created with, as plain values.
#[derive(Clone, Copy, Debug)]
pub struct CreateStreamAccounts {
    /// The signer who funds the stream.
    pub creator: Pubkey,
    /// The mint of the vested token.
    pub mint: Pubkey,
    /// The escrow token account that will hold the deposit.
    pub escrow_token_account: Pubkey,
    /// The creator's token balance before the deposit.
    pub creator_token_balance: u64,
    /// Bump seed of the stream PDA.
    pub stream_bump: u8,
    /// Bump seed of the escrow authority PDA.
    pub escrow_bump: u8,
}

/// The answer to a stream's parameters, checked in this order: a positive
/// amount, a recipient other than the default address, a schedule that fits
/// the vesting type (cliff: `start < end` and the cliff at the end; linear:
/// `start < end` and the cliff at the start; milestone: a positive milestone
/// time), and a creator balance that covers the deposit.
pub open spec fn create_params_result(
    recipient: Pubkey,
    total_amount: u64,
    start_time: i64,
    cliff_time: i64,
    end_time: i64,
    vesting_type: VestingType,
    milestone_time: i64,
    creator_token_balance: u64,
) -> Result<(), VestingError> {
    if total_amount == 0 {
        Err(VestingError::InvalidAmount)
    } else if recipient.is_default_key() {
        Err(VestingError::InvalidRecipient)
    } else {
        let schedule: Result<(), VestingError> = match vesting_type {
            VestingType::Cliff => if !(start_time < end_time) {
                Err(VestingError::InvalidSchedule)
            } else if cliff_time != end_time {
                Err(VestingError::InvalidCliff)
            } else {
                Ok(())
            },
            VestingType::Linear => if !(start_time < end_time) {
                Err(VestingError::InvalidSchedule)
            } else if cliff_time != start_time {
                Err(VestingError::InvalidCliff)
            } else {
                Ok(())
            },
            VestingType::Milestone => if milestone_time <= 0 {
                Err(VestingError::InvalidMilestoneTime)
            } else {
                Ok(())
            },
        };
        match schedule {
            Err(e) => Err(e),
            Ok(()) => if creator_token_balance < total_amount {
                Err(VestingError::InsufficientFunds)
            } else {
                Ok(())
            },
        }
    }
}

/// Checks the parameters of a new stream.
pub fn validate_create_stream_params(
    recipient: Pubkey,
    total_amount: u64,
    start_time: i64,
    cliff_time: i64,
    end_time: i64,
    vesting_type: VestingType,
    milestone_time: i64,
    creator_token_balance: u64,
) -> (r: Result<(), VestingError>)
    ensures
        r == create_params_result(
            recipient,
            total_amount,
            start_time,
            cliff_time,
            end_time,
            vesting_type,
            milestone_time,
            creator_token_balance,
        ),
{
    if total_amount == 0 {
        return Err(VestingError::InvalidAmount);
    }
    if recipient.is_default() {
        return Err(VestingError::InvalidRecipient);
    }
    match vesting_type {
        VestingType::Cliff => {
            if !(start_time < end_time) {
                return Err(VestingError::InvalidSchedule);
            }
            if cliff_time != end_time {
                return Err(VestingError::InvalidCliff);
            }
        },
        VestingType::Linear => {
            if !(start_time < end_time) {
                return Err(VestingError::InvalidSchedule);
            }
            if cliff_time != start_time {
                return Err(VestingError::InvalidCliff);
            }
        },
        VestingType::Milestone => {
            if milestone_time <= 0 {
                return Err(VestingError::InvalidMilestoneTime);
            }
        },
    }
    if creator_token_balance < total_amount {
        return Err(VestingError::InsufficientFunds);
    }
    Ok(())
}

/// The record of a freshly created stream: nothing withdrawn, not canceled,
/// milestone not reached, created at `now`.
pub open spec fn new_stream(
    accounts: CreateStreamAccounts,
    now: i64,
    stream_id: u64,
    recipient: Pubkey,
    total_amount: u64,
    start_time: i64,
    cliff_time: i64,
    end_time: i64,
    cancelable: bool,
    vesting_type: VestingType,
    milestone_time: i64,
) -> Stream {
    Stream {
        creator: accounts.creator,
        recipient,
        mint: accounts.mint,
        escrow_token_account: accounts.escrow_token_account,
        stream_id,
        total_amount,
        withdrawn_amount: 0,
        start_time,
        cliff_time,
        end_time,
        cancelable,
        canceled: false,
        vesting_type,
        milestone_reached: false,
        milestone_time,
        bump: accounts.stream_bump,
        escrow_bump: accounts.escrow_bump,
        created_at: now,
    }
}

/// Creates a stream at `now`: on success returns its record, whose
/// `total_amount` is then to be moved from the creator's token account into
/// the escrow; on a refusal returns the error of the parameter check.
pub fn create_stream_handler(
    accounts: &CreateStreamAccounts,
    now: i64,
    stream_id: u64,
    recipient: Pubkey,
    total_amount: u64,
    start_time: i64,
    cliff_time: i64,
    end_time: i64,
    cancelable: bool,
    vesting_type: VestingType,
    milestone_time: i64,
) -> (r: Result<Stream, VestingError>)
    ensures
        r matches Err(e) ==> create_params_result(
            recipient,
            total_amount,
            start_time,
            cliff_time,
            end_time,
            vesting_type,
            milestone_time,
            accounts.creator_token_balance,
        ) == Err::<(), VestingError>(e),
        r matches Ok(s) ==> {
            &&& create_params_result(
                recipient,
                total_amount,
                start_time,
                cliff_time,
                end_time,
                vesting_type,
                milestone_time,
                accounts.creator_token_balance,
            ) is Ok
            &&& s == new_stream(
                *accounts,
                now,
                stream_id,
                recipient,
                total_amount,
                start_time,
                cliff_time,
                end_time,
                cancelable,
                vesting_type,
                milestone_time,
            )
        },
{
    match validate_create_stream_params(
        recipient,
        total_amount,
        start_time,
        cliff_time,
        end_time,
        vesting_type,
        milestone_time,
        accounts.creator_token_balance,
    ) {
        Err(e) => return Err(e),
        Ok(()) => {},
    }
    Ok(
        Stream {
            creator: accounts.creator,
            recipient,
            mint: accounts.mint,
            escrow_token_account: accounts.escrow_token_account,
            stream_id,
            total_amount,
            withdrawn_amount: 0,
            start_time,
            cliff_time,
            end_time,
            cancelable,
            canceled: false,
            vesting_type,
            milestone_reached: false,
            milestone_time,
            bump: accounts.stream_bump,
            escrow_bump: accounts.escrow_bump,
            created_at: now,
        },
    )
}

} // verus!
