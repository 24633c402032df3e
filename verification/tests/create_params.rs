use tdp_solana::instructions::create_stream::{
    create_stream_handler, validate_create_stream_params, CreateStreamAccounts,
};
use tdp_solana::{Pubkey, VestingError, VestingType};

fn key(n: u8) -> Pubkey {
    Pubkey::new_from_array([n; 32])
}

fn assert_vesting_error(result: Result<(), VestingError>, expected_name: &str) {
    let error = result.unwrap_err();
    assert_eq!(error.name(), expected_name);
}

#[test]
fn validate_create_stream_accepts_cliff_params() {
    let result = validate_create_stream_params(
        key(7),
        1_000,
        109,
        110,
        110,
        VestingType::Cliff,
        0,
        1_000,
    );

    assert!(result.is_ok());
}

#[test]
fn validate_create_stream_accepts_linear_params() {
    let result = validate_create_stream_params(
        key(7),
        1_000,
        10,
        10,
        110,
        VestingType::Linear,
        0,
        1_000,
    );

    assert!(result.is_ok());
}

#[test]
fn validate_create_stream_accepts_milestone_params() {
    let result = validate_create_stream_params(
        key(7),
        1_000,
        0,
        0,
        0,
        VestingType::Milestone,
        110,
        1_000,
    );

    assert!(result.is_ok());
}

#[test]
fn validate_create_stream_rejects_zero_amount() {
    let result = validate_create_stream_params(
        key(7),
        0,
        10,
        10,
        110,
        VestingType::Linear,
        0,
        1_000,
    );

    assert_vesting_error(result, "InvalidAmount");
}

#[test]
fn validate_create_stream_rejects_default_recipient() {
    let result = validate_create_stream_params(
        Pubkey::default(),
        1_000,
        10,
        10,
        110,
        VestingType::Linear,
        0,
        1_000,
    );

    assert_vesting_error(result, "InvalidRecipient");
}

#[test]
fn validate_create_stream_rejects_invalid_schedule() {
    let result = validate_create_stream_params(
        key(7),
        1_000,
        110,
        110,
        10,
        VestingType::Linear,
        0,
        1_000,
    );

    assert_vesting_error(result, "InvalidSchedule");
}

#[test]
fn validate_create_stream_rejects_wrong_cliff_shape() {
    let cliff_not_at_end = validate_create_stream_params(
        key(7),
        1_000,
        10,
        50,
        110,
        VestingType::Cliff,
        0,
        1_000,
    );
    let linear_with_late_cliff = validate_create_stream_params(
        key(7),
        1_000,
        10,
        50,
        110,
        VestingType::Linear,
        0,
        1_000,
    );

    assert_vesting_error(cliff_not_at_end, "InvalidCliff");
    assert_vesting_error(linear_with_late_cliff, "InvalidCliff");
}

#[test]
fn validate_create_stream_rejects_insufficient_funds() {
    let result = validate_create_stream_params(
        key(7),
        1_001,
        10,
        10,
        110,
        VestingType::Linear,
        0,
        1_000,
    );

    assert_vesting_error(result, "InsufficientFunds");
}

#[test]
fn validate_create_stream_rejects_missing_milestone_time() {
    let result = validate_create_stream_params(
        key(7),
        1_000,
        0,
        0,
        0,
        VestingType::Milestone,
        0,
        1_000,
    );

    assert_vesting_error(result, "InvalidMilestoneTime");
}

#[test]
fn validate_checks_amount_before_recipient() {
    let result = validate_create_stream_params(
        Pubkey::default(),
        0,
        10,
        10,
        110,
        VestingType::Linear,
        0,
        1_000,
    );
    assert_eq!(result, Err(VestingError::InvalidAmount));
}

#[test]
fn validate_rejects_cliff_schedule_out_of_order() {
    let result = validate_create_stream_params(
        key(7),
        1_000,
        110,
        110,
        110,
        VestingType::Cliff,
        0,
        1_000,
    );
    assert_eq!(result, Err(VestingError::InvalidSchedule));
}

#[test]
fn recipient_with_one_nonzero_byte_is_not_default() {
    let mut bytes = [0u8; 32];
    bytes[31] = 1;
    let recipient = Pubkey::new_from_array(bytes);
    assert!(!recipient.is_default());
    assert!(Pubkey::default().is_default());
    assert_eq!(recipient.to_bytes(), bytes);
}

#[test]
fn create_stream_records_schedule_and_accounts() {
    let accounts = CreateStreamAccounts {
        creator: key(1),
        mint: key(3),
        escrow_token_account: key(4),
        creator_token_balance: 5_000,
        stream_bump: 250,
        escrow_bump: 251,
    };
    let stream = create_stream_handler(
        &accounts,
        42,
        9,
        key(2),
        1_000,
        100,
        100,
        500,
        true,
        VestingType::Linear,
        0,
    )
    .unwrap();
    assert!(stream.creator.same_as(&key(1)));
    assert!(stream.recipient.same_as(&key(2)));
    assert!(stream.mint.same_as(&key(3)));
    assert!(stream.escrow_token_account.same_as(&key(4)));
    assert_eq!(stream.stream_id, 9);
    assert_eq!(stream.total_amount, 1_000);
    assert_eq!(stream.withdrawn_amount, 0);
    assert_eq!((stream.start_time, stream.cliff_time, stream.end_time), (100, 100, 500));
    assert!(stream.cancelable);
    assert!(!stream.canceled);
    assert!(!stream.milestone_reached);
    assert_eq!(stream.vesting_type, VestingType::Linear);
    assert_eq!((stream.bump, stream.escrow_bump, stream.created_at), (250, 251, 42));
}

#[test]
fn create_stream_refuses_what_validation_refuses() {
    let accounts = CreateStreamAccounts {
        creator: key(1),
        mint: key(3),
        escrow_token_account: key(4),
        creator_token_balance: 999,
        stream_bump: 250,
        escrow_bump: 251,
    };
    let result = create_stream_handler(
        &accounts,
        42,
        9,
        key(2),
        1_000,
        100,
        100,
        500,
        true,
        VestingType::Linear,
        0,
    );
    assert_eq!(result.unwrap_err(), VestingError::InsufficientFunds);
}

#[test]
fn error_messages_match_names() {
    assert_eq!(VestingError::InvalidCliff.name(), "InvalidCliff");
    assert_eq!(
        VestingError::InvalidCliff.message(),
        "cliff_time must be between start_time and end_time"
    );
    assert_eq!(VestingError::MathOverflow.message(), "Arithmetic overflow or underflow");
}
