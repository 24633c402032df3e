//! Cliff vesting behaviour at multiple time points.
//! Schedule: start=1000, cliff=2000, end=5000, total=1_000_000.
//! Before cliff -> 0. At cliff -> linear catch-up since start. After cliff -> linear. At/after end -> total.

use tdp_solana::calculate_vested_amount;
use tdp_solana::VestingError;

const TOTAL: u64 = 1_000_000;
const START: i64 = 1_000;
const CLIFF: i64 = 2_000;
const END: i64 = 5_000;

#[test]
fn nothing_vested_before_cliff() {
    assert_eq!(
        calculate_vested_amount(TOTAL, START, CLIFF, END, START).unwrap(),
        0
    );
    assert_eq!(
        calculate_vested_amount(TOTAL, START, CLIFF, END, CLIFF - 1).unwrap(),
        0
    );
}

#[test]
fn cliff_unlocks_catch_up_amount() {
    // At the cliff: elapsed since start = 1000 of 4000 => 25% unlocks at once.
    assert_eq!(
        calculate_vested_amount(TOTAL, START, CLIFF, END, CLIFF).unwrap(),
        250_000
    );
}

#[test]
fn vesting_is_linear_after_cliff() {
    // t=3000 -> 2000/4000 = 50%.
    assert_eq!(
        calculate_vested_amount(TOTAL, START, CLIFF, END, 3_000).unwrap(),
        500_000
    );
    // t=4000 -> 3000/4000 = 75%.
    assert_eq!(
        calculate_vested_amount(TOTAL, START, CLIFF, END, 4_000).unwrap(),
        750_000
    );
}

#[test]
fn fully_vested_at_and_after_end() {
    assert_eq!(
        calculate_vested_amount(TOTAL, START, CLIFF, END, END).unwrap(),
        TOTAL
    );
    assert_eq!(
        calculate_vested_amount(TOTAL, START, CLIFF, END, END + 10_000).unwrap(),
        TOTAL
    );
}

#[test]
fn no_cliff_behaves_as_pure_linear() {
    // cliff == start -> no cliff gate; 25% at quarter time (t=2000).
    assert_eq!(
        calculate_vested_amount(TOTAL, START, START, END, 2_000).unwrap(),
        250_000
    );
}

#[test]
fn vested_amount_rounds_down() {
    // 1000 * 1 / 3 = 333.33.. -> 333
    assert_eq!(calculate_vested_amount(1_000, 0, 0, 3, 1), Ok(333));
    assert_eq!(calculate_vested_amount(1_000, 0, 0, 3, 2), Ok(666));
}

#[test]
fn vested_amount_handles_wide_schedules() {
    // The widest span that fits the timestamp type, without overflow.
    let start = i64::MIN / 2;
    let end = start + i64::MAX;
    assert_eq!(
        calculate_vested_amount(u64::MAX, start, start, end, 0),
        Ok(9_223_372_036_854_775_808)
    );
    assert_eq!(calculate_vested_amount(u64::MAX, start, start, end, end - 1), Ok(18_446_744_073_709_551_612));
}

#[test]
fn vested_amount_rejects_span_beyond_timestamp_range() {
    // end - start does not fit the timestamp type.
    assert_eq!(
        calculate_vested_amount(u64::MAX, i64::MIN, i64::MIN, i64::MAX, 0),
        Err(VestingError::MathOverflow)
    );
    // now - start does not fit either.
    assert_eq!(
        calculate_vested_amount(10, i64::MIN, -10, i64::MAX, i64::MAX - 1),
        Err(VestingError::MathOverflow)
    );
}

#[test]
fn vested_amount_with_cliff_before_start() {
    // Between a cliff that precedes the start and the start itself the
    // elapsed time is negative; it is reinterpreted as an unsigned 128-bit
    // value, so the product overflows for any sizeable deposit...
    assert_eq!(
        calculate_vested_amount(TOTAL, START, 500, END, 700),
        Err(VestingError::MathOverflow)
    );
    // ...is zero for a zero deposit...
    assert_eq!(calculate_vested_amount(0, START, 500, END, 700), Ok(0));
    // ...and keeps the low 64 bits of the share for a deposit of one.
    assert_eq!(
        calculate_vested_amount(1, START, 500, END, 700),
        Ok(16_675_856_642_633_434_660)
    );
    // Before the cliff or after the end the amount is fixed regardless.
    assert_eq!(calculate_vested_amount(TOTAL, START, 500, END, 400), Ok(0));
    assert_eq!(calculate_vested_amount(TOTAL, START, 500, END, END), Ok(TOTAL));
}

#[test]
fn vested_amount_rejects_empty_duration() {
    // start == end with the cliff before both: the duration is zero.
    assert_eq!(calculate_vested_amount(0, 10, 0, 10, 5), Err(VestingError::MathOverflow));
}

#[test]
fn vested_amount_never_decreases_over_time() {
    let mut previous = 0;
    let mut t = START - 100;
    while t <= END + 100 {
        let v = calculate_vested_amount(TOTAL, START, CLIFF, END, t).unwrap();
        assert!(v >= previous);
        assert!(v <= TOTAL);
        previous = v;
        t += 7;
    }
    assert_eq!(previous, TOTAL);
}
