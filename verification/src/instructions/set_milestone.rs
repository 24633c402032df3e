use vstd::prelude::*;

use crate::error::VestingError;
use crate::state::{Pubkey, Stream, VestingType};

verus! {

/// The answer to a request by `signer` to mark the milestone reached: only
/// the creator may, only on a milestone stream, not once it is canceled and
/// not a second time.
pub open spec fn set_milestone_result(s: Stream, signer: Pubkey) -> Result<(), VestingError> {
    if signer != s.creator {
        Err(VestingError::Unauthorized)
    } else if s.vesting_type != VestingType::Milestone {
        Err(VestingError::NotMilestoneStream)
    } else if s.canceled {
        Err(VestingError::AlreadyCancelled)
    } else if s.milestone_reached {
        Err(VestingError::FullyVested)
    } else {
        Ok(())
    }
}

/// The stream once its milestone is marked reached.
pub open spec fn after_set_milestone(s: Stream) -> Stream {
    Stream { milestone_reached: true, ..s }
}

/// The creator marks a milestone stream's milestone as reached, which unlocks
/// its whole deposit; on a refusal the stream is unchanged.
pub fn set_milestone_handler(stream: &mut Stream, signer: &Pubkey) -> (r: Result<(), VestingError>)
    ensures
        r == set_milestone_result(*old(stream), *signer),
        r is Ok ==> *final(stream) == after_set_milestone(*old(stream)),
        r is Err ==> *final(stream) == *old(stream),
{
    if !signer.same_as(&stream.creator) {
        return Err(VestingError::Unauthorized);
    }
    if stream.vesting_type != VestingType::Milestone {
        return Err(VestingError::NotMilestoneStream);
    }
    if stream.canceled {
        return Err(VestingError::AlreadyCancelled);
    }
    if stream.milestone_reached {
        return Err(VestingError::FullyVested);
    }
    stream.milestone_reached = true;
    Ok(())
}

} // verus!
