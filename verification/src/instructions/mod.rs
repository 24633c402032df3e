pub mod cancel_stream;
pub mod close_stream;
pub mod create_stream;
pub mod set_milestone;
pub mod withdraw;
