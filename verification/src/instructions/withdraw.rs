use vstd::prelude::*;
use vstd::arithmetic::div_mod::{lemma_div_is_ordered, lemma_div_pos_is_pos, lemma_multiply_divide_le};
use vstd::arithmetic::mul::{lemma_mul_inequality, lemma_mul_nonnegative};

use crate::error::VestingError;
use crate::state::{Stream, VestingType};

verus! {

/// A signed timestamp difference reinterpreted as an unsigned 128-bit
/// integer (two's complement: negative values wrap around `2^128`).
pub open spec fn as_wrapped_u128(x: int) -> int {
    if x >= 0 {
        x
    } else {
        x + 0x1_0000_0000_0000_0000_0000_0000_0000_0000
    }
}

/// Whether the linear share at `now` can be computed: the elapsed time
/// `now - start` and the duration `end - start` must fit the timestamp type,
/// the duration (as an unsigned 128-bit value) must not be zero, and the
/// product of the deposit and the elapsed time must fit 128 bits.
pub open spec fn share_computable(total: u64, start: i64, end: i64, now: i64) -> bool {
    let e = now - start;
    let d = end - start;
    &&& i64::MIN <= e <= i64::MAX
    &&& i64::MIN <= d <= i64::MAX
    &&& as_wrapped_u128(d) != 0
    &&& total * as_wrapped_u128(e) <= u128::MAX
}

/// Whether the vested amount at `now` can be computed: before the cliff and
/// from the end on it is fixed; in between, the linear share must be
/// computable.
pub open spec fn vesting_computable(total: u64, start: i64, cliff: i64, end: i64, now: i64) -> bool {
    now < cliff || now >= end || share_computable(total, start, end, now)
}

/// The amount vested at `now` under a cliff-gated linear schedule: nothing
/// before the cliff, everything from `end` on, and in between the share of
/// `total` proportional to the time elapsed since `start`, rounded down.
/// The share is taken on the 128-bit reinterpretation of the elapsed time and
/// the duration, and kept to its low 64 bits; where `start <= now` (every
/// schedule whose cliff is not before its start) that is exactly
/// `total * (now - start) / (end - start)`.
pub open spec fn vested_amount(total: u64, start: i64, cliff: i64, end: i64, now: i64) -> int {
    if now < cliff {
        0
    } else if now >= end {
        total as int
    } else {
        ((total * as_wrapped_u128(now - start)) / as_wrapped_u128(end - start))
            % 0x1_0000_0000_0000_0000
    }
}

/// `total * e / d` lies between 0 and `total` when `0 <= e <= d`.
proof fn lemma_share_bounds(total: int, e: int, d: int)
    requires
        0 <= total,
        0 <= e <= d,
        0 < d,
    ensures
        0 <= (total * e) / d <= total,
{
    lemma_mul_inequality(e, d, total);
    assert(total * e == e * total) by (nonlinear_arith);
    assert(d * total == total * d) by (nonlinear_arith);
    lemma_multiply_divide_le(total * e, d, total);
    lemma_mul_nonnegative(total, e);
    lemma_div_pos_is_pos(total * e, d);
}

/// The share `total * e / d` grows with `e`.
pub proof fn lemma_share_monotone(total: int, e1: int, e2: int, d: int)
    requires
        0 <= total,
        e1 <= e2,
        0 < d,
    ensures
        (total * e1) / d <= (total * e2) / d,
{
    lemma_mul_inequality(e1, e2, total);
    assert(total * e1 == e1 * total) by (nonlinear_arith);
    assert(total * e2 == e2 * total) by (nonlinear_arith);
    lemma_div_is_ordered(total * e1, total * e2, d);
}

/// The vested amount fits 64 bits, and, on a schedule whose cliff is not
/// before its start (or outside the linear window), never exceeds the deposit.
pub proof fn lemma_vested_within_total(total: u64, start: i64, cliff: i64, end: i64, now: i64)
    requires
        vesting_computable(total, start, cliff, end, now),
    ensures
        0 <= vested_amount(total, start, cliff, end, now) < 0x1_0000_0000_0000_0000,
        (start <= cliff || now < cliff || now >= end) ==> vested_amount(total, start, cliff, end, now) <= total,
        (cliff <= now < end && start <= now) ==> vested_amount(total, start, cliff, end, now)
            == (total * (now - start)) / (end - start),
{
    if cliff <= now && now < end && start <= now {
        lemma_share_bounds(total as int, now - start, end - start);
        let q = (total * (now - start)) / (end - start);
        assert(q % 0x1_0000_0000_0000_0000 == q) by {
            vstd::arithmetic::div_mod::lemma_small_mod(q as nat, 0x1_0000_0000_0000_0000);
        }
    }
}

/// On a schedule whose cliff is not before its start and whose span fits the
/// timestamp type, the vested amount can be computed at every moment.
pub proof fn lemma_vesting_computable(total: u64, start: i64, cliff: i64, end: i64, now: i64)
    requires
        start <= cliff,
        end - start <= i64::MAX,
    ensures
        vesting_computable(total, start, cliff, end, now),
{
    if cliff <= now && now < end {
        let e: int = now - start;
        assert(total * e <= u128::MAX) by (nonlinear_arith)
            requires
                0 <= total <= u64::MAX,
                0 <= e <= i64::MAX,
        ;
    }
}

/// Reinterprets a signed difference as an unsigned 128-bit integer.
fn wrap_to_u128(x: i64) -> (r: u128)
    ensures
        r == as_wrapped_u128(x as int),
{
    if x >= 0 {
        x as u128
    } else {
        let k: i64 = -(x + 1);
        u128::MAX - (k as u128)
    }
}

/// Computes how much of `total_amount` has vested at `now` for a schedule
/// that starts at `start_time`, opens at `cliff_time` and completes at
/// `end_time`. At the cliff the linear share since the start unlocks at once.
/// The share is computed with checked arithmetic; where a step would overflow
/// (or divide by zero) the answer is `MathOverflow`.
pub fn calculate_vested_amount(
    total_amount: u64,
    start_time: i64,
    cliff_time: i64,
    end_time: i64,
    now: i64,
) -> (r: Result<u64, VestingError>)
    ensures
        r is Ok <==> vesting_computable(total_amount, start_time, cliff_time, end_time, now),
        r matches Ok(v) ==> v == vested_amount(total_amount, start_time, cliff_time, end_time, now),
        r matches Ok(v) ==> (start_time <= cliff_time ==> v <= total_amount),
        r matches Err(e) ==> e == VestingError::MathOverflow,
{
    if now < cliff_time {
        return Ok(0);
    }
    if now >= end_time {
        return Ok(total_amount);
    }
    let e: i64 = match now.checked_sub(start_time) {
        Some(v) => v,
        None => return Err(VestingError::MathOverflow),
    };
    let d: i64 = match end_time.checked_sub(start_time) {
        Some(v) => v,
        None => return Err(VestingError::MathOverflow),
    };
    let elapsed: u128 = wrap_to_u128(e);
    let duration: u128 = wrap_to_u128(d);
    if duration == 0 {
        return Err(VestingError::MathOverflow);
    }
    let product: u128 = match (total_amount as u128).checked_mul(elapsed) {
        Some(p) => p,
        None => return Err(VestingError::MathOverflow),
    };
    let share: u128 = product / duration;
    let vested: u128 = share % 0x1_0000_0000_0000_0000u128;
    proof {
        lemma_vested_within_total(total_amount, start_time, cliff_time, end_time, now);
    }
    Ok(vested as u64)
}

/// What a stream has unlocked at `now`: for a milestone stream everything
/// once the milestone is marked reached and `now` is not before its
/// `milestone_time`, and nothing otherwise; for a clock-driven
/// stream the vested amount of its schedule (`None` where that cannot be
/// computed).
pub open spec fn unlocked_amount(s: Stream, now: i64) -> Option<int> {
    if s.vesting_type == VestingType::Milestone {
        Some(
            if s.milestone_reached && now >= s.milestone_time {
                s.total_amount as int
            } else {
                0
            },
        )
    } else if vesting_computable(s.total_amount, s.start_time, s.cliff_time, s.end_time, now) {
        Some(vested_amount(s.total_amount, s.start_time, s.cliff_time, s.end_time, now))
    } else {
        None
    }
}

/// Computes what `stream` has unlocked at `now`.
pub fn stream_unlocked_amount(stream: &Stream, now: i64) -> (r: Result<u64, VestingError>)
    ensures
        r is Ok <==> unlocked_amount(*stream, now) is Some,
        r matches Ok(v) ==> unlocked_amount(*stream, now) == Some(v as int),
        r matches Ok(v) ==> (stream.is_time_based() ==> stream.start_time <= stream.cliff_time)
            ==> v <= stream.total_amount,
        r matches Err(e) ==> e == VestingError::MathOverflow,
{
    match stream.vesting_type {
        VestingType::Milestone => {
            if stream.milestone_reached && now >= stream.milestone_time {
                Ok(stream.total_amount)
            } else {
                Ok(0)
            }
        },
        _ => calculate_vested_amount(
            stream.total_amount,
            stream.start_time,
            stream.cliff_time,
            stream.end_time,
            now,
        ),
    }
}

/// The answer to a withdrawal at `now`: refused on a canceled stream, refused
/// when the unlocked amount cannot be computed, refused when nothing beyond
/// what was already withdrawn has unlocked, and otherwise the difference.
pub open spec fn withdraw_result(s: Stream, now: i64) -> Result<u64, VestingError> {
    if s.canceled {
        Err(VestingError::AlreadyCancelled)
    } else {
        match unlocked_amount(s, now) {
            None => Err(VestingError::MathOverflow),
            Some(v) => if v <= s.withdrawn_amount {
                Err(VestingError::NothingToWithdraw)
            } else {
                Ok((v - s.withdrawn_amount) as u64)
            },
        }
    }
}

/// The stream after `amount` more has been paid out to the recipient.
pub open spec fn after_withdraw(s: Stream, amount: u64) -> Stream {
    Stream { withdrawn_amount: (s.withdrawn_amount + amount) as u64, ..s }
}

/// The recipient claims whatever has unlocked and not yet been withdrawn.
/// On success the stream records the payout and the amount to move from the
/// escrow to the recipient is returned; on a refusal the stream is unchanged.
pub fn withdraw_handler(stream: &mut Stream, now: i64) -> (r: Result<u64, VestingError>)
    ensures
        r == withdraw_result(*old(stream), now),
        r matches Ok(amount) ==> *final(stream) == after_withdraw(*old(stream), amount),
        r is Err ==> *final(stream) == *old(stream),
{
    if stream.canceled {
        return Err(VestingError::AlreadyCancelled);
    }
    let vested = match stream_unlocked_amount(stream, now) {
        Ok(v) => v,
        Err(e) => return Err(e),
    };
    let withdrawable = vested.saturating_sub(stream.withdrawn_amount);
    if withdrawable == 0 {
        return Err(VestingError::NothingToWithdraw);
    }
    match stream.withdrawn_amount.checked_add(withdrawable) {
        Some(w) => {
            stream.withdrawn_amount = w;
        },
        None => return Err(VestingError::MathOverflow),
    }
    Ok(withdrawable)
}

} // verus!
