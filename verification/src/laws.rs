//! What holds of the vesting program across its operations.

use vstd::prelude::*;

use crate::error::VestingError;
use crate::instructions::cancel_stream::{
    after_cancel, cancel_result, cancel_vested, payout_transfers, CancelPayout,
    CancelStreamAccounts, Payee, TokenTransfer,
};
use crate::instructions::close_stream::settled;
use crate::instructions::create_stream::{create_params_result, new_stream, CreateStreamAccounts};
use crate::instructions::set_milestone::{after_set_milestone, set_milestone_result};
use crate::instructions::withdraw::{
    after_withdraw, lemma_share_monotone, lemma_vested_within_total, lemma_vesting_computable,
    unlocked_amount,
    vested_amount, vesting_computable, withdraw_result,
};
use crate::state::{Pubkey, Stream, VestingType};

verus! {

/// The total that a list of escrow transfers moves.
pub open spec fn transfer_sum(ts: Seq<TokenTransfer>) -> int
    decreases ts.len(),
{
    if ts.len() == 0 {
        0
    } else {
        transfer_sum(ts.drop_last()) + ts.last().amount
    }
}

/// Whether what the recipient has withdrawn is covered by what the stream has
/// unlocked at `now`.
pub open spec fn paid_within_unlocked(s: Stream, now: i64) -> bool {
    unlocked_amount(s, now) matches Some(v) && s.withdrawn_amount <= v
}

/// On a schedule whose cliff is not before its start and whose span fits the
/// timestamp type, the vested amount can always be computed, and it never
/// decreases as time passes.
pub proof fn law_vested_amount_monotone(total: u64, start: i64, cliff: i64, end: i64, t1: i64, t2: i64)
    requires
        start <= cliff,
        end - start <= i64::MAX,
        t1 <= t2,
    ensures
        vesting_computable(total, start, cliff, end, t1),
        vesting_computable(total, start, cliff, end, t2),
        vested_amount(total, start, cliff, end, t1) <= vested_amount(total, start, cliff, end, t2),
{
    lemma_vesting_computable(total, start, cliff, end, t1);
    lemma_vesting_computable(total, start, cliff, end, t2);
    lemma_vested_within_total(total, start, cliff, end, t1);
    lemma_vested_within_total(total, start, cliff, end, t2);
    if t1 >= cliff && t2 < end {
        lemma_share_monotone(total as int, t1 - start, t2 - start, end - start);
    }
}

/// What a well-formed stream (whose schedule's span fits the timestamp type)
/// has unlocked is always defined, lies within its deposit, and never
/// decreases as time passes.
pub proof fn law_unlocked_monotone(s: Stream, t1: i64, t2: i64)
    requires
        s.wf(),
        s.span_fits(),
        t1 <= t2,
    ensures
        unlocked_amount(s, t1) is Some,
        unlocked_amount(s, t2) is Some,
        0 <= unlocked_amount(s, t1)->0 <= unlocked_amount(s, t2)->0 <= s.total_amount,
{
    if s.is_time_based() {
        law_vested_amount_monotone(s.total_amount, s.start_time, s.cliff_time, s.end_time, t1, t2);
        lemma_vested_within_total(s.total_amount, s.start_time, s.cliff_time, s.end_time, t1);
        lemma_vested_within_total(s.total_amount, s.start_time, s.cliff_time, s.end_time, t2);
    }
}

/// A stream created from accepted parameters is well formed, has nothing
/// withdrawn, and is neither canceled nor past its milestone.
pub proof fn law_created_stream_is_wf(
    accounts: CreateStreamAccounts,
    now: i64,
    stream_id: u64,
    recipient: Pubkey,
    total_amount: u64,
    start_time: i64,
    cliff_time: i64,
    end_time: i64,
    cancelable: bool,
    vesting_type: VestingType,
    milestone_time: i64,
)
    requires
        create_params_result(
            recipient,
            total_amount,
            start_time,
            cliff_time,
            end_time,
            vesting_type,
            milestone_time,
            accounts.creator_token_balance,
        ) is Ok,
    ensures
        ({
            let s = new_stream(
                accounts,
                now,
                stream_id,
                recipient,
                total_amount,
                start_time,
                cliff_time,
                end_time,
                cancelable,
                vesting_type,
                milestone_time,
            );
            &&& s.wf()
            &&& s.withdrawn_amount == 0
            &&& !s.canceled
            &&& !s.milestone_reached
            &&& s.total_amount > 0
            &&& s.total_amount <= accounts.creator_token_balance
        }),
{
}

/// A withdrawal pays exactly what has unlocked beyond what was already
/// withdrawn, so afterwards the withdrawn total equals the unlocked amount,
/// and it keeps the stream well formed.
pub proof fn law_withdraw_claims_unlocked(s: Stream, now: i64)
    requires
        s.wf(),
        withdraw_result(s, now) is Ok,
    ensures
        ({
            let a = withdraw_result(s, now)->Ok_0;
            let s2 = after_withdraw(s, a);
            &&& a > 0
            &&& unlocked_amount(s, now) == Some(s.withdrawn_amount + a)
            &&& s2.withdrawn_amount == s.withdrawn_amount + a
            &&& s2.wf()
            &&& paid_within_unlocked(s2, now)
        }),
{
    if s.is_time_based() {
        lemma_vested_within_total(s.total_amount, s.start_time, s.cliff_time, s.end_time, now);
    }
}

/// A second withdrawal at the same moment finds nothing left to claim.
pub proof fn law_second_withdraw_same_time_fails(s: Stream, now: i64)
    requires
        withdraw_result(s, now) is Ok,
    ensures
        withdraw_result(after_withdraw(s, withdraw_result(s, now)->Ok_0), now)
            == Err::<u64, VestingError>(VestingError::NothingToWithdraw),
{
    if s.is_time_based() {
        lemma_vested_within_total(s.total_amount, s.start_time, s.cliff_time, s.end_time, now);
    }
}

/// Once what was withdrawn is covered by what had unlocked at some moment, it
/// stays covered at every later moment.
pub proof fn law_paid_stays_within_unlocked(s: Stream, t1: i64, t2: i64)
    requires
        s.wf(),
        s.span_fits(),
        paid_within_unlocked(s, t1),
        t1 <= t2,
    ensures
        paid_within_unlocked(s, t2),
{
    law_unlocked_monotone(s, t1, t2);
}

/// On a clock-driven stream that is not canceled, a withdrawal at or after
/// the end pays out the whole remaining deposit (or finds it already paid),
/// after which the stream is settled.
pub proof fn law_withdraw_after_end_settles(s: Stream, now: i64)
    requires
        s.wf(),
        s.is_time_based(),
        !s.canceled,
        now >= s.end_time,
    ensures
        withdraw_result(s, now) is Ok ==> {
            &&& withdraw_result(s, now)->Ok_0 == s.total_amount - s.withdrawn_amount
            &&& settled(
                after_withdraw(s, withdraw_result(s, now)->Ok_0).canceled,
                after_withdraw(s, withdraw_result(s, now)->Ok_0).withdrawn_amount,
                s.total_amount,
            )
        },
        withdraw_result(s, now) is Err ==> {
            &&& withdraw_result(s, now) == Err::<u64, VestingError>(VestingError::NothingToWithdraw)
            &&& settled(s.canceled, s.withdrawn_amount, s.total_amount)
        },
{
}

/// A milestone stream pays nothing while its milestone is not marked
/// reached, however late the withdrawal, nor before its `milestone_time`,
/// even once marked.
pub proof fn law_milestone_locked_until_reached(s: Stream, now: i64)
    requires
        s.wf(),
        s.vesting_type == VestingType::Milestone,
        !s.milestone_reached || now < s.milestone_time,
        !s.canceled,
    ensures
        withdraw_result(s, now) == Err::<u64, VestingError>(VestingError::NothingToWithdraw),
{
}

/// Marking the milestone keeps the stream well formed, unlocks the whole
/// deposit at once from its `milestone_time` on (and nothing before it),
/// and cannot be done a second time.
pub proof fn law_milestone_unlocks_everything(s: Stream, signer: Pubkey, now: i64)
    requires
        s.wf(),
        set_milestone_result(s, signer) is Ok,
    ensures
        after_set_milestone(s).wf(),
        now >= s.milestone_time ==> withdraw_result(after_set_milestone(s), now)
            == Ok::<u64, VestingError>(s.total_amount),
        now < s.milestone_time ==> withdraw_result(after_set_milestone(s), now)
            == Err::<u64, VestingError>(VestingError::NothingToWithdraw),
        set_milestone_result(after_set_milestone(s), signer)
            == Err::<(), VestingError>(VestingError::FullyVested),
{
}

/// A cancellation splits the escrow exactly: the recipient gets what vested
/// beyond what they withdrew, the creator what is still locked, and together
/// with what was withdrawn before that is the whole deposit. The transfers
/// that carry it out move exactly that, none of them empty.
pub proof fn law_cancel_splits_escrow(s: Stream, accounts: CancelStreamAccounts, now: i64)
    requires
        cancel_result(s, accounts, now) is Ok,
    ensures
        ({
            let p = cancel_result(s, accounts, now)->Ok_0;
            let vested = cancel_vested(s, now)->Ok_0;
            &&& cancel_vested(s, now) is Ok
            &&& p.to_recipient == vested - s.withdrawn_amount
            &&& p.to_creator == s.total_amount - vested
            &&& p.to_recipient + p.to_creator + s.withdrawn_amount == s.total_amount
            &&& transfer_sum(payout_transfers(p)) == p.to_recipient + p.to_creator
            &&& forall|i: int|
                0 <= i < payout_transfers(p).len() ==> #[trigger] payout_transfers(p)[i].amount > 0
        }),
{
    let p = cancel_result(s, accounts, now)->Ok_0;
    let ts = payout_transfers(p);
    let r: Seq<TokenTransfer> = if p.to_recipient > 0 {
        seq![TokenTransfer { to: Payee::Recipient, amount: p.to_recipient }]
    } else {
        Seq::empty()
    };
    assert(transfer_sum(r) == p.to_recipient) by {
        reveal_with_fuel(transfer_sum, 2);
        if p.to_recipient > 0 {
            assert(r.drop_last() =~= Seq::<TokenTransfer>::empty());
        }
    }
    if p.to_creator > 0 {
        assert(ts.drop_last() =~= r);
    }
}

/// On a well-formed stream whose withdrawals are covered by what has unlocked
/// (as they are when every earlier withdrawal happened no later than now), a
/// cancellation is never refused for an overdrawn escrow, and the canceled
/// stream stays well formed.
pub proof fn law_cancel_never_overdrawn(s: Stream, accounts: CancelStreamAccounts, now: i64)
    requires
        s.wf(),
        paid_within_unlocked(s, now),
    ensures
        cancel_result(s, accounts, now) != Err::<CancelPayout, VestingError>(VestingError::MathOverflow),
        after_cancel(s).wf(),
{
    if s.is_time_based() {
        lemma_vested_within_total(s.total_amount, s.start_time, s.cliff_time, s.end_time, now);
    }
}

/// A canceled stream is settled, so it can be closed, and every further
/// withdrawal, cancellation or milestone request on it is refused as already
/// canceled (once the signer and the stream's kind pass their checks).
pub proof fn law_canceled_stream_is_final(
    s: Stream,
    accounts: CancelStreamAccounts,
    signer: Pubkey,
    now: i64,
)
    requires
        s.canceled,
    ensures
        settled(s.canceled, s.withdrawn_amount, s.total_amount),
        withdraw_result(s, now) == Err::<u64, VestingError>(VestingError::AlreadyCancelled),
        (accounts.creator == s.creator && s.cancelable) ==> cancel_result(s, accounts, now)
            == Err::<CancelPayout, VestingError>(VestingError::AlreadyCancelled),
        (signer == s.creator && s.vesting_type == VestingType::Milestone) ==> set_milestone_result(s, signer)
            == Err::<(), VestingError>(VestingError::AlreadyCancelled),
{
}

/// After a successful cancellation the stream can be closed and accepts no
/// further withdrawal.
pub proof fn law_cancel_then_close(s: Stream, accounts: CancelStreamAccounts, now: i64, later: i64)
    requires
        cancel_result(s, accounts, now) is Ok,
    ensures
        settled(after_cancel(s).canceled, after_cancel(s).withdrawn_amount, after_cancel(s).total_amount),
        withdraw_result(after_cancel(s), later) == Err::<u64, VestingError>(VestingError::AlreadyCancelled),
{
}

} // verus!
