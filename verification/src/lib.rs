//! Token vesting streams: a creator locks tokens in an escrow for a
//! recipient, who can claim them as they unlock (cliff, linear or
//! milestone schedules); the creator may cancel a stream, splitting the
//! escrow between the two, and a settled stream can be closed.

pub mod error;
pub mod instructions;
pub mod laws;
pub mod laws_ops;
pub mod state;

pub use error::VestingError;
pub use instructions::cancel_stream::{
    cancel_stream_handler, split_cancel_amounts, CancelPayout, CancelStreamAccounts, Payee,
    TokenTransfer,
};
pub use instructions::close_stream::{close_stream_handler, validate_stream_settled};
pub use instructions::create_stream::{
    create_stream_handler, validate_create_stream_params, CreateStreamAccounts,
};
pub use instructions::set_milestone::set_milestone_handler;
pub use instructions::withdraw::{calculate_vested_amount, stream_unlocked_amount, withdraw_handler};
pub use state::{Pubkey, Stream, VestingType};
