use tdp_solana::instructions::cancel_stream::split_cancel_amounts;
use tdp_solana::VestingError;

#[test]
fn split_before_cliff_returns_all_to_creator() {
    let (to_recipient, to_creator) = split_cancel_amounts(1_000, 0, 0).unwrap();

    assert_eq!(to_recipient, 0);
    assert_eq!(to_creator, 1_000);
}

#[test]
fn split_mid_stream_splits_vested_and_locked() {
    let (to_recipient, to_creator) = split_cancel_amounts(1_000, 600, 0).unwrap();

    assert_eq!(to_recipient, 600);
    assert_eq!(to_creator, 400);
}

#[test]
fn split_accounts_for_already_withdrawn() {
    let (to_recipient, to_creator) = split_cancel_amounts(1_000, 600, 250).unwrap();

    assert_eq!(to_recipient, 350);
    assert_eq!(to_creator, 400);
}

#[test]
fn split_rejects_overdrawn_state() {
    let result = split_cancel_amounts(1_000, 200, 500);

    assert!(result.is_err());
}

#[test]
fn split_rejects_vested_beyond_total() {
    assert_eq!(split_cancel_amounts(1_000, 1_001, 0), Err(VestingError::MathOverflow));
}

#[test]
fn split_fully_vested_leaves_nothing_for_creator() {
    assert_eq!(split_cancel_amounts(1_000, 1_000, 400), Ok((600, 0)));
}
