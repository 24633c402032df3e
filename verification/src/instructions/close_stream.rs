use vstd::prelude::*;

use crate::error::VestingError;
use crate::state::Stream;

verus! {

/// A stream is settled once it is canceled or its recipient has withdrawn
/// the whole deposit.
pub open spec fn settled(canceled: bool, withdrawn_amount: u64, total_amount: u64) -> bool {
    canceled || withdrawn_amount == total_amount
}

/// A stream may be closed only once it is fully settled: either cancelled, or
/// the recipient has withdrawn the entire amount.
pub fn validate_stream_settled(
    canceled: bool,
    withdrawn_amount: u64,
    total_amount: u64,
) -> (r: Result<(), VestingError>)
    ensures
        r is Ok <==> settled(canceled, withdrawn_amount, total_amount),
        r matches Err(e) ==> e == VestingError::StreamNotSettled,
{
    if canceled || withdrawn_amount == total_amount {
        Ok(())
    } else {
        Err(VestingError::StreamNotSettled)
    }
}

/// Decides whether `stream` may be closed (its escrow and record reclaimed).
pub fn close_stream_handler(stream: &Stream) -> (r: Result<(), VestingError>)
    ensures
        r is Ok <==> settled(stream.canceled, stream.withdrawn_amount, stream.total_amount),
        r matches Err(e) ==> e == VestingError::StreamNotSettled,
{
    validate_stream_settled(stream.canceled, stream.withdrawn_amount, stream.total_amount)
}

} // verus!
