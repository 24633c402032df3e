use tdp_solana::{stream_unlocked_amount, withdraw_handler, Pubkey, Stream, VestingError, VestingType};

fn make_pubkey(n: u8) -> Pubkey {
    Pubkey::new_from_array([n; 32])
}

fn stream_with(cliff_time: i64) -> Stream {
    Stream {
        creator: make_pubkey(1),
        recipient: make_pubkey(2),
        mint: make_pubkey(3),
        escrow_token_account: make_pubkey(4),
        stream_id: 1,
        total_amount: 1_000_000,
        withdrawn_amount: 0,
        start_time: 0,
        cliff_time,
        end_time: 1_000_000,
        cancelable: false,
        canceled: false,
        vesting_type: VestingType::Linear,
        milestone_reached: false,
        milestone_time: 0,
        bump: 255,
        escrow_bump: 254,
        created_at: 0,
    }
}

fn make_stream() -> Stream {
    stream_with(500_000)
}

fn make_stream_no_cliff() -> Stream {
    stream_with(0)
}

fn calculate_vested_amount(stream: &Stream, now: i64) -> u64 {
    stream_unlocked_amount(stream, now).unwrap()
}

#[test]
fn test_vested_before_cliff_is_zero() {
    let stream = make_stream();
    assert_eq!(calculate_vested_amount(&stream, 100_000), 0);
}

#[test]
fn test_vested_at_25_percent() {
    let stream = make_stream_no_cliff();
    assert_eq!(calculate_vested_amount(&stream, 250_000), 250_000);
}

#[test]
fn test_vested_at_cliff() {
    let stream = make_stream();
    assert_eq!(calculate_vested_amount(&stream, 500_000), 500_000);
}

#[test]
fn test_vested_halfway() {
    let stream = make_stream();
    assert_eq!(calculate_vested_amount(&stream, 750_000), 750_000);
}

#[test]
fn test_vested_at_end() {
    let stream = make_stream();
    assert_eq!(calculate_vested_amount(&stream, 1_000_000), 1_000_000);
}

#[test]
fn test_vested_after_end_is_total() {
    let stream = make_stream();
    assert_eq!(calculate_vested_amount(&stream, 9_999_999), 1_000_000);
}

#[test]
fn test_withdrawable_subtracts_already_withdrawn() {
    let mut stream = make_stream();
    stream.withdrawn_amount = 300_000;
    let vested = calculate_vested_amount(&stream, 750_000);
    let withdrawable = vested.saturating_sub(stream.withdrawn_amount);
    assert_eq!(withdrawable, 450_000);
    assert_eq!(withdraw_handler(&mut stream, 750_000), Ok(450_000));
    assert_eq!(stream.withdrawn_amount, 750_000);
}

#[test]
fn test_nothing_to_withdraw_before_cliff() {
    let mut stream = make_stream();
    let vested = calculate_vested_amount(&stream, 100_000);
    let withdrawable = vested.saturating_sub(stream.withdrawn_amount);
    assert_eq!(withdrawable, 0);
    assert_eq!(withdraw_handler(&mut stream, 100_000), Err(VestingError::NothingToWithdraw));
    assert_eq!(stream.withdrawn_amount, 0);
}

#[test]
fn test_unauthorized_cannot_withdraw() {
    let valid_recipient = make_pubkey(1);
    let attacker = make_pubkey(2);
    assert_ne!(valid_recipient, attacker);
    assert!(!valid_recipient.same_as(&attacker));
}

#[test]
fn test_withdraw_full_amount() {
    let mut stream = make_stream();
    let vested = calculate_vested_amount(&stream, 1_000_000);
    let withdrawable = vested.saturating_sub(stream.withdrawn_amount);
    assert_eq!(withdrawable, 1_000_000);
    assert_eq!(withdraw_handler(&mut stream, 1_000_000), Ok(1_000_000));
}

#[test]
fn test_withdraw_partial_then_more() {
    let mut stream = make_stream();
    let vested_first = calculate_vested_amount(&stream, 500_000);
    let first_withdraw = vested_first.saturating_sub(stream.withdrawn_amount);
    assert_eq!(first_withdraw, 500_000);
    stream.withdrawn_amount += first_withdraw;

    let vested_second = calculate_vested_amount(&stream, 750_000);
    let second_withdraw = vested_second.saturating_sub(stream.withdrawn_amount);
    assert_eq!(second_withdraw, 250_000);
}

#[test]
fn withdraw_from_canceled_stream_is_refused() {
    let mut stream = make_stream();
    stream.canceled = true;
    assert_eq!(withdraw_handler(&mut stream, 1_000_000), Err(VestingError::AlreadyCancelled));
    assert_eq!(stream.withdrawn_amount, 0);
}

#[test]
fn withdraw_reports_uncomputable_schedule() {
    let mut stream = make_stream();
    stream.start_time = 600_000;
    assert_eq!(withdraw_handler(&mut stream, 550_000), Err(VestingError::MathOverflow));
}

#[test]
fn milestone_stream_unlocks_by_flag_and_milestone_time() {
    let mut stream = make_stream();
    stream.vesting_type = VestingType::Milestone;
    stream.milestone_time = 600_000;
    assert_eq!(stream_unlocked_amount(&stream, 2_000_000), Ok(0));
    stream.milestone_reached = true;
    assert_eq!(stream_unlocked_amount(&stream, 599_999), Ok(0));
    assert_eq!(stream_unlocked_amount(&stream, 600_000), Ok(1_000_000));
    assert_eq!(withdraw_handler(&mut stream, 599_999), Err(VestingError::NothingToWithdraw));
    assert_eq!(withdraw_handler(&mut stream, 600_000), Ok(1_000_000));
}
