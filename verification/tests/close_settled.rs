use tdp_solana::instructions::close_stream::{close_stream_handler, validate_stream_settled};
use tdp_solana::{Pubkey, Stream, VestingError, VestingType};

#[test]
fn settled_when_fully_withdrawn() {
    assert!(validate_stream_settled(false, 1_000, 1_000).is_ok());
}

#[test]
fn settled_when_canceled() {
    assert!(validate_stream_settled(true, 250, 1_000).is_ok());
}

#[test]
fn rejects_active_stream() {
    let result = validate_stream_settled(false, 250, 1_000);

    let error = result.unwrap_err();
    assert_eq!(error.name(), "StreamNotSettled");
}

fn stream(canceled: bool, withdrawn_amount: u64) -> Stream {
    Stream {
        creator: Pubkey::new_from_array([1; 32]),
        recipient: Pubkey::new_from_array([2; 32]),
        mint: Pubkey::new_from_array([3; 32]),
        escrow_token_account: Pubkey::new_from_array([4; 32]),
        stream_id: 1,
        total_amount: 1_000,
        withdrawn_amount,
        start_time: 100,
        cliff_time: 100,
        end_time: 500,
        cancelable: true,
        canceled,
        vesting_type: VestingType::Linear,
        milestone_reached: false,
        milestone_time: 0,
        bump: 255,
        escrow_bump: 254,
        created_at: 100,
    }
}

#[test]
fn close_handler_follows_settlement() {
    assert_eq!(close_stream_handler(&stream(false, 1_000)), Ok(()));
    assert_eq!(close_stream_handler(&stream(true, 0)), Ok(()));
    assert_eq!(close_stream_handler(&stream(false, 999)), Err(VestingError::StreamNotSettled));
}
