use vstd::prelude::*;

use crate::error::VestingError;
use crate::instructions::withdraw::{
    calculate_vested_amount, vested_amount, vesting_computable,
};
use crate::state::{Pubkey, Stream, VestingType};

verus! {

/// Who receives a transfer out of the escrow.
#[derive(Clone, Copy, Debug, PartialEq, Eq, Structural)]
pub enum Payee {
    Recipient,
    Creator,
}

/// One token transfer out of the escrow.
#[derive(Clone, Copy, Debug, PartialEq, Eq, Structural)]
pub struct TokenTransfer {
    pub to: Payee,
    pub amount: u64,
}

/// The accounts a cancellation names, by address.
#[derive(Clone, Copy, Debug)]
pub struct CancelStreamAccounts {
    /// The signer asking for the cancellation.
    pub creator: Pubkey,
    /// The mint account passed in.
    pub mint: Pubkey,
    /// The escrow token account passed in.
    pub escrow_token_account: Pubkey,
}

/// How a cancellation splits the escrow.
#[derive(Clone, Copy, Debug, PartialEq, Eq, Structural)]
pub struct CancelPayout {
    /// Unlocked but not yet claimed: goes to the recipient.
    pub to_recipient: u64,
    /// Still locked: returns to the creator.
    pub to_creator: u64,
}

/// The split of the escrow on cancellation: the recipient gets what vested
/// beyond what they already withdrew, the creator what is still locked;
/// refused when more was withdrawn than vested or more vested than deposited.
pub open spec fn split_result(total: u64, vested: u64, withdrawn: u64) -> Result<(u64, u64), VestingError> {
    if vested < withdrawn || total < vested {
        Err(VestingError::MathOverflow)
    } else {
        Ok(((vested - withdrawn) as u64, (total - vested) as u64))
    }
}

/// Splits the escrow balance when a stream is cancelled:
/// `to_recipient = vested - withdrawn` (unlocked but not yet claimed) and
/// `to_creator = total - vested` (still locked).
pub fn split_cancel_amounts(
    total_amount: u64,
    vested_amount: u64,
    withdrawn_amount: u64,
) -> (r: Result<(u64, u64), VestingError>)
    ensures
        r == split_result(total_amount, vested_amount, withdrawn_amount),
{
    let to_recipient = match vested_amount.checked_sub(withdrawn_amount) {
        Some(v) => v,
        None => return Err(VestingError::MathOverflow),
    };
    let to_creator = match total_amount.checked_sub(vested_amount) {
        Some(v) => v,
        None => return Err(VestingError::MathOverflow),
    };
    Ok((to_recipient, to_creator))
}

/// The amount counted as vested when a stream is cancelled at `now`:
/// refused for a milestone stream whose milestone was reached (it is fully
/// unlocked), zero for one whose milestone was not; refused for a clock-driven
/// stream whose schedule has ended, and otherwise its vested amount.
pub open spec fn cancel_vested(s: Stream, now: i64) -> Result<u64, VestingError> {
    if s.vesting_type == VestingType::Milestone {
        if s.milestone_reached {
            Err(VestingError::FullyVested)
        } else {
            Ok(0)
        }
    } else if now >= s.end_time {
        Err(VestingError::StreamExpired)
    } else if !vesting_computable(s.total_amount, s.start_time, s.cliff_time, s.end_time, now) {
        Err(VestingError::MathOverflow)
    } else {
        Ok(vested_amount(s.total_amount, s.start_time, s.cliff_time, s.end_time, now) as u64)
    }
}

/// The answer to a cancellation request, checked in this order: the signer
/// must be the creator, the stream cancelable and not yet canceled, the mint
/// and escrow those of the stream; then the vested amount at `now` is split.
pub open spec fn cancel_result(s: Stream, accounts: CancelStreamAccounts, now: i64) -> Result<CancelPayout, VestingError> {
    if accounts.creator != s.creator {
        Err(VestingError::Unauthorized)
    } else if !s.cancelable {
        Err(VestingError::StreamNotCancelable)
    } else if s.canceled {
        Err(VestingError::AlreadyCancelled)
    } else if accounts.mint != s.mint {
        Err(VestingError::InvalidTokenAccount)
    } else if accounts.escrow_token_account != s.escrow_token_account {
        Err(VestingError::InvalidTokenAccount)
    } else {
        match cancel_vested(s, now) {
            Err(e) => Err(e),
            Ok(vested) => match split_result(s.total_amount, vested, s.withdrawn_amount) {
                Err(e) => Err(e),
                Ok((to_recipient, to_creator)) => Ok(CancelPayout { to_recipient, to_creator }),
            },
        }
    }
}

/// The stream once canceled.
pub open spec fn after_cancel(s: Stream) -> Stream {
    Stream { canceled: true, ..s }
}

/// The transfers that carry out a payout: the recipient's share first, then
/// the creator's, each only where it is not zero.
pub open spec fn payout_transfers(p: CancelPayout) -> Seq<TokenTransfer> {
    let r: Seq<TokenTransfer> = if p.to_recipient > 0 {
        seq![TokenTransfer { to: Payee::Recipient, amount: p.to_recipient }]
    } else {
        Seq::empty()
    };
    if p.to_creator > 0 {
        r.push(TokenTransfer { to: Payee::Creator, amount: p.to_creator })
    } else {
        r
    }
}

impl CancelPayout {
    /// The escrow transfers that carry out this payout.
    pub fn transfers(&self) -> (v: Vec<TokenTransfer>)
        ensures
            v@ == payout_transfers(*self),
    {
        let mut v: Vec<TokenTransfer> = Vec::new();
        if self.to_recipient > 0 {
            v.push(TokenTransfer { to: Payee::Recipient, amount: self.to_recipient });
        }
        if self.to_creator > 0 {
            v.push(TokenTransfer { to: Payee::Creator, amount: self.to_creator });
        }
        v
    }
}

/// The creator cancels the stream at `now`: on success the stream is marked
/// canceled and the payout says how the escrow is split (vested and unclaimed
/// to the recipient, still locked back to the creator); on a refusal the
/// stream is unchanged.
pub fn cancel_stream_handler(
    stream: &mut Stream,
    accounts: &CancelStreamAccounts,
    now: i64,
) -> (r: Result<CancelPayout, VestingError>)
    ensures
        r == cancel_result(*old(stream), *accounts, now),
        r is Ok ==> *final(stream) == after_cancel(*old(stream)),
        r is Err ==> *final(stream) == *old(stream),
{
    if !accounts.creator.same_as(&stream.creator) {
        return Err(VestingError::Unauthorized);
    }
    if !stream.cancelable {
        return Err(VestingError::StreamNotCancelable);
    }
    if stream.canceled {
        return Err(VestingError::AlreadyCancelled);
    }
    if !accounts.mint.same_as(&stream.mint) {
        return Err(VestingError::InvalidTokenAccount);
    }
    if !accounts.escrow_token_account.same_as(&stream.escrow_token_account) {
        return Err(VestingError::InvalidTokenAccount);
    }
    let total_amount = stream.total_amount;
    let vested = match stream.vesting_type {
        VestingType::Milestone => {
            if stream.milestone_reached {
                return Err(VestingError::FullyVested);
            }
            0
        },
        _ => {
            if now >= stream.end_time {
                return Err(VestingError::StreamExpired);
            }
            match calculate_vested_amount(
                total_amount,
                stream.start_time,
                stream.cliff_time,
                stream.end_time,
                now,
            ) {
                Ok(v) => v,
                Err(e) => return Err(e),
            }
        },
    };
    let (to_recipient, to_creator) = match split_cancel_amounts(
        total_amount,
        vested,
        stream.withdrawn_amount,
    ) {
        Ok(p) => p,
        Err(e) => return Err(e),
    };
    stream.canceled = true;
    Ok(CancelPayout { to_recipient, to_creator })
}

} // verus!
