//! What each instruction answers, stated over the stream's fields and plain
//! arithmetic rather than over the instruction's own spec.

use vstd::prelude::*;

use crate::error::VestingError;
use crate::instructions::cancel_stream::{after_cancel, cancel_result, CancelPayout, CancelStreamAccounts};
use crate::instructions::close_stream::settled;
use crate::instructions::create_stream::{create_params_result, new_stream, CreateStreamAccounts};
use crate::instructions::set_milestone::{after_set_milestone, set_milestone_result};
use crate::instructions::withdraw::{
    after_withdraw, lemma_vested_within_total, lemma_vesting_computable, unlocked_amount,
    vested_amount, vesting_computable, withdraw_result,
};
use crate::state::{Pubkey, Stream, VestingType};

verus! {

/// What the program's documentation says a stream has released at `now`:
/// a milestone stream everything once marked and from its milestone time on,
/// nothing otherwise; a clock-driven stream nothing before its cliff,
/// everything from its end on, and in between the share of the deposit
/// proportional to the time elapsed since its start, rounded down.
pub open spec fn released_by_schedule(s: Stream, now: i64) -> int {
    if s.vesting_type == VestingType::Milestone {
        if s.milestone_reached && now >= s.milestone_time {
            s.total_amount as int
        } else {
            0
        }
    } else if now < s.cliff_time {
        0
    } else if now >= s.end_time {
        s.total_amount as int
    } else {
        (s.total_amount * (now - s.start_time)) / (s.end_time - s.start_time)
    }
}

/// Whether a stream's schedule is one the formula applies to without
/// overflow: a milestone stream, or a clock-driven one whose cliff is not
/// before its start and whose span fits the timestamp type.
pub open spec fn schedule_in_range(s: Stream) -> bool {
    s.is_time_based() ==> {
        &&& s.start_time <= s.cliff_time
        &&& s.end_time - s.start_time <= i64::MAX
    }
}

proof fn lemma_released_matches_unlocked(s: Stream, now: i64)
    requires
        schedule_in_range(s),
    ensures
        unlocked_amount(s, now) == Some(released_by_schedule(s, now)),
        0 <= released_by_schedule(s, now) <= s.total_amount,
{
    if s.is_time_based() {
        lemma_vesting_computable(s.total_amount, s.start_time, s.cliff_time, s.end_time, now);
        lemma_vested_within_total(s.total_amount, s.start_time, s.cliff_time, s.end_time, now);
    }
}

/// On a schedule whose cliff is not before its start and whose span fits the
/// timestamp type, the vested amount is always computable and is nothing
/// before the cliff, the whole deposit from the end on, and the share of the
/// deposit proportional to the time elapsed since the start in between.
pub proof fn law_vested_amount_formula(total: u64, start: i64, cliff: i64, end: i64, now: i64)
    requires
        start <= cliff,
        end - start <= i64::MAX,
    ensures
        vesting_computable(total, start, cliff, end, now),
        now < cliff ==> vested_amount(total, start, cliff, end, now) == 0,
        (cliff <= now && now >= end) ==> vested_amount(total, start, cliff, end, now) == total,
        (cliff <= now && now < end) ==> vested_amount(total, start, cliff, end, now)
            == (total * (now - start)) / (end - start),
        0 <= vested_amount(total, start, cliff, end, now) <= total,
{
    lemma_vesting_computable(total, start, cliff, end, now);
    lemma_vested_within_total(total, start, cliff, end, now);
}

/// A withdrawal from a stream that is not canceled pays exactly what the
/// schedule has released beyond what was already withdrawn, and is refused
/// with `NothingToWithdraw` exactly when nothing more has been released.
pub proof fn law_withdraw_pays_released_remainder(s: Stream, now: i64)
    requires
        !s.canceled,
        schedule_in_range(s),
    ensures
        released_by_schedule(s, now) > s.withdrawn_amount ==> withdraw_result(s, now)
            == Ok::<u64, VestingError>((released_by_schedule(s, now) - s.withdrawn_amount) as u64),
        released_by_schedule(s, now) <= s.withdrawn_amount ==> withdraw_result(s, now)
            == Err::<u64, VestingError>(VestingError::NothingToWithdraw),
        withdraw_result(s, now) matches Ok(a) ==> after_withdraw(s, a).withdrawn_amount
            == released_by_schedule(s, now),
{
    lemma_released_matches_unlocked(s, now);
}

/// Two withdrawals in time order: the second pays what the schedule released
/// between the two moments, so together they pay what was released by the
/// later one; it is refused only when nothing was released in between.
pub proof fn law_withdraw_twice(s: Stream, t1: i64, t2: i64)
    requires
        !s.canceled,
        schedule_in_range(s),
        s.withdrawn_amount <= released_by_schedule(s, t1),
        t1 <= t2,
        withdraw_result(s, t1) is Ok,
    ensures
        ({
            let a1 = withdraw_result(s, t1)->Ok_0;
            let s1 = after_withdraw(s, a1);
            &&& released_by_schedule(s, t2) > released_by_schedule(s, t1) ==> withdraw_result(s1, t2)
                == Ok::<u64, VestingError>(
                (released_by_schedule(s, t2) - released_by_schedule(s, t1)) as u64,
            )
            &&& released_by_schedule(s, t2) == released_by_schedule(s, t1) ==> withdraw_result(s1, t2)
                == Err::<u64, VestingError>(VestingError::NothingToWithdraw)
        }),
{
    let a1 = withdraw_result(s, t1)->Ok_0;
    let s1 = after_withdraw(s, a1);
    law_withdraw_pays_released_remainder(s, t1);
    lemma_released_matches_unlocked(s, t1);
    assert(released_by_schedule(s1, t2) == released_by_schedule(s, t2));
    lemma_released_matches_unlocked(s1, t2);
    law_withdraw_pays_released_remainder(s1, t2);
}

/// A cancellation of a clock-driven stream before its end, once the signer,
/// the mint and the escrow pass their checks, counts as vested exactly what
/// the schedule has released at `now` (nothing before the cliff): the
/// recipient gets that amount less what they already withdrew, the creator
/// the rest of the deposit; it is refused as overdrawn only when more was
/// withdrawn than released.
pub proof fn law_cancel_pays_released_share(s: Stream, accounts: CancelStreamAccounts, now: i64)
    requires
        s.is_time_based(),
        schedule_in_range(s),
        accounts.creator == s.creator,
        accounts.mint == s.mint,
        accounts.escrow_token_account == s.escrow_token_account,
        s.cancelable,
        !s.canceled,
        now < s.end_time,
    ensures
        s.withdrawn_amount <= released_by_schedule(s, now) ==> cancel_result(s, accounts, now)
            == Ok::<CancelPayout, VestingError>(
            CancelPayout {
                to_recipient: (released_by_schedule(s, now) - s.withdrawn_amount) as u64,
                to_creator: (s.total_amount - released_by_schedule(s, now)) as u64,
            },
        ),
        s.withdrawn_amount > released_by_schedule(s, now) ==> cancel_result(s, accounts, now)
            == Err::<CancelPayout, VestingError>(VestingError::MathOverflow),
        now < s.cliff_time && s.withdrawn_amount == 0 ==> cancel_result(s, accounts, now)
            == Ok::<CancelPayout, VestingError>(
            CancelPayout { to_recipient: 0, to_creator: s.total_amount },
        ),
        cancel_result(s, accounts, now) is Ok ==> after_cancel(s).canceled,
{
    lemma_released_matches_unlocked(s, now);
}

/// A stream's parameters are accepted exactly when the amount is positive,
/// the recipient is not the default address, the schedule fits the vesting
/// type (cliff: `start < end` with the cliff at the end; linear: `start < end`
/// with the cliff at the start; milestone: a positive milestone time) and the
/// creator's balance covers the amount; any amount up to the balance is fine.
pub proof fn law_create_accepts_exactly_valid_params(
    recipient: Pubkey,
    total_amount: u64,
    start_time: i64,
    cliff_time: i64,
    end_time: i64,
    vesting_type: VestingType,
    milestone_time: i64,
    creator_token_balance: u64,
)
    ensures
        create_params_result(
            recipient,
            total_amount,
            start_time,
            cliff_time,
            end_time,
            vesting_type,
            milestone_time,
            creator_token_balance,
        ) is Ok <==> {
            &&& total_amount > 0
            &&& !recipient.is_default_key()
            &&& match vesting_type {
                VestingType::Cliff => start_time < end_time && cliff_time == end_time,
                VestingType::Linear => start_time < end_time && cliff_time == start_time,
                VestingType::Milestone => milestone_time > 0,
            }
            &&& creator_token_balance >= total_amount
        },
        total_amount == 0 ==> create_params_result(
            recipient,
            total_amount,
            start_time,
            cliff_time,
            end_time,
            vesting_type,
            milestone_time,
            creator_token_balance,
        ) == Err::<(), VestingError>(VestingError::InvalidAmount),
        (total_amount > 0 && recipient.is_default_key()) ==> create_params_result(
            recipient,
            total_amount,
            start_time,
            cliff_time,
            end_time,
            vesting_type,
            milestone_time,
            creator_token_balance,
        ) == Err::<(), VestingError>(VestingError::InvalidRecipient),
{
}

/// The creator may mark the milestone of exactly the milestone streams that
/// are neither canceled nor already marked (whether or not they are
/// cancelable); marking changes nothing but the milestone flag.
pub proof fn law_set_milestone_accepts_exactly(s: Stream, signer: Pubkey)
    ensures
        set_milestone_result(s, signer) is Ok <==> {
            &&& signer == s.creator
            &&& s.vesting_type == VestingType::Milestone
            &&& !s.canceled
            &&& !s.milestone_reached
        },
        signer != s.creator ==> set_milestone_result(s, signer)
            == Err::<(), VestingError>(VestingError::Unauthorized),
        ({
            let t = after_set_milestone(s);
            &&& t.milestone_reached
            &&& t.creator == s.creator
            &&& t.recipient == s.recipient
            &&& t.total_amount == s.total_amount
            &&& t.withdrawn_amount == s.withdrawn_amount
            &&& t.canceled == s.canceled
            &&& t.cancelable == s.cancelable
            &&& t.vesting_type == s.vesting_type
            &&& t.milestone_time == s.milestone_time
            &&& t.start_time == s.start_time
            &&& t.cliff_time == s.cliff_time
            &&& t.end_time == s.end_time
        }),
{
}

/// A stream is settled exactly when it is canceled or its whole deposit has
/// been withdrawn; an active stream with anything left in escrow is not.
pub proof fn law_settled_exactly(canceled: bool, withdrawn_amount: u64, total_amount: u64)
    ensures
        settled(canceled, withdrawn_amount, total_amount) <==> (canceled || withdrawn_amount
            == total_amount),
        (!canceled && withdrawn_amount < total_amount) ==> !settled(
            canceled,
            withdrawn_amount,
            total_amount,
        ),
{
}

/// Cancellation refusals, in the order the checks run: a signer other than
/// the creator, a stream that is not cancelable, one already canceled, a
/// foreign mint or escrow; then a milestone stream already marked counts as
/// fully vested, and a clock-driven stream whose end has passed as expired.
/// A milestone stream not yet marked returns the whole deposit to the creator.
pub proof fn law_cancel_refusals(s: Stream, accounts: CancelStreamAccounts, now: i64)
    ensures
        accounts.creator != s.creator ==> cancel_result(s, accounts, now)
            == Err::<CancelPayout, VestingError>(VestingError::Unauthorized),
        (accounts.creator == s.creator && !s.cancelable) ==> cancel_result(s, accounts, now)
            == Err::<CancelPayout, VestingError>(VestingError::StreamNotCancelable),
        (accounts.creator == s.creator && s.cancelable && s.canceled) ==> cancel_result(
            s,
            accounts,
            now,
        ) == Err::<CancelPayout, VestingError>(VestingError::AlreadyCancelled),
        (accounts.creator == s.creator && s.cancelable && !s.canceled && (accounts.mint != s.mint
            || accounts.escrow_token_account != s.escrow_token_account)) ==> cancel_result(
            s,
            accounts,
            now,
        ) == Err::<CancelPayout, VestingError>(VestingError::InvalidTokenAccount),
        ({
            let checks_pass = accounts.creator == s.creator && s.cancelable && !s.canceled
                && accounts.mint == s.mint && accounts.escrow_token_account
                == s.escrow_token_account;
            &&& (checks_pass && s.vesting_type == VestingType::Milestone && s.milestone_reached)
                ==> cancel_result(s, accounts, now) == Err::<CancelPayout, VestingError>(
                VestingError::FullyVested,
            )
            &&& (checks_pass && s.vesting_type == VestingType::Milestone && !s.milestone_reached
                && s.withdrawn_amount == 0) ==> cancel_result(s, accounts, now) == Ok::<
                CancelPayout,
                VestingError,
            >(CancelPayout { to_recipient: 0, to_creator: s.total_amount })
            &&& (checks_pass && s.is_time_based() && now >= s.end_time) ==> cancel_result(
                s,
                accounts,
                now,
            ) == Err::<CancelPayout, VestingError>(VestingError::StreamExpired)
        }),
{
}

/// Each successful operation changes only what it is about: a withdrawal only
/// the withdrawn total, a cancellation only the canceled flag.
pub proof fn law_operations_change_only_their_field(s: Stream, amount: u64)
    requires
        s.withdrawn_amount + amount <= u64::MAX,
    ensures
        ({
            let w = after_withdraw(s, amount);
            &&& w.withdrawn_amount == s.withdrawn_amount + amount
            &&& w.total_amount == s.total_amount
            &&& w.canceled == s.canceled
            &&& w.cancelable == s.cancelable
            &&& w.milestone_reached == s.milestone_reached
            &&& w.vesting_type == s.vesting_type
            &&& w.creator == s.creator
            &&& w.recipient == s.recipient
            &&& w.start_time == s.start_time
            &&& w.cliff_time == s.cliff_time
            &&& w.end_time == s.end_time
            &&& w.milestone_time == s.milestone_time
        }),
        ({
            let c = after_cancel(s);
            &&& c.canceled
            &&& c.withdrawn_amount == s.withdrawn_amount
            &&& c.total_amount == s.total_amount
            &&& c.cancelable == s.cancelable
            &&& c.milestone_reached == s.milestone_reached
            &&& c.vesting_type == s.vesting_type
            &&& c.creator == s.creator
            &&& c.recipient == s.recipient
            &&& c.start_time == s.start_time
            &&& c.cliff_time == s.cliff_time
            &&& c.end_time == s.end_time
            &&& c.milestone_time == s.milestone_time
        }),
{
}

/// A created stream records the creator, mint and escrow of its accounts, the
/// parameters it was given and the creation time, with nothing withdrawn,
/// not canceled and the milestone not reached.
pub proof fn law_created_stream_records_inputs(
    accounts: CreateStreamAccounts,
    now: i64,
    stream_id: u64,
    recipient: Pubkey,
    total_amount: u64,
    start_time: i64,
    cliff_time: i64,
    end_time: i64,
    cancelable: bool,
    vesting_type: VestingType,
    milestone_time: i64,
)
    ensures
        ({
            let s = new_stream(
                accounts,
                now,
                stream_id,
                recipient,
                total_amount,
                start_time,
                cliff_time,
                end_time,
                cancelable,
                vesting_type,
                milestone_time,
            );
            &&& s.creator == accounts.creator
            &&& s.recipient == recipient
            &&& s.mint == accounts.mint
            &&& s.escrow_token_account == accounts.escrow_token_account
            &&& s.stream_id == stream_id
            &&& s.total_amount == total_amount
            &&& s.withdrawn_amount == 0
            &&& s.start_time == start_time
            &&& s.cliff_time == cliff_time
            &&& s.end_time == end_time
            &&& s.cancelable == cancelable
            &&& !s.canceled
            &&& s.vesting_type == vesting_type
            &&& !s.milestone_reached
            &&& s.milestone_time == milestone_time
            &&& s.bump == accounts.stream_bump
            &&& s.escrow_bump == accounts.escrow_bump
            &&& s.created_at == now
        }),
{
}

} // verus!
