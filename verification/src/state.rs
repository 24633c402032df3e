use vstd::prelude::*;

verus! {

broadcast use vstd::array::group_array_axioms;

/// A 32-byte account address, held as its raw bytes.
#[derive(Clone, Copy, Debug, PartialEq, Eq, Hash)]
pub struct Pubkey(pub [u8; 32]);

impl Pubkey {
    /// The all-zero address, which no wallet owns.
    pub open spec fn is_default_key(self) -> bool {
        forall|i: int| 0 <= i < 32 ==> #[trigger] self.0[i] == 0u8
    }

    /// Builds an address from its bytes.
    pub fn new_from_array(bytes: [u8; 32]) -> (k: Pubkey)
        ensures
            k.0 == bytes,
    {
        Pubkey(bytes)
    }

    /// The address's bytes.
    pub fn to_bytes(&self) -> (bytes: [u8; 32])
        ensures
            bytes == self.0,
    {
        self.0
    }

    /// Whether this is the all-zero (default) address.
    pub fn is_default(&self) -> (b: bool)
        ensures
            b == self.is_default_key(),
    {
        let mut i: usize = 0;
        while i < 32
            invariant
                0 <= i <= 32,
                forall|j: int| 0 <= j < i ==> #[trigger] self.0[j] == 0u8,
            decreases 32 - i,
        {
            if self.0[i] != 0 {
                return false;
            }
            i = i + 1;
        }
        true
    }

    /// Whether two addresses are the same.
    pub fn same_as(&self, other: &Pubkey) -> (b: bool)
        ensures
            b == (*self == *other),
    {
        let mut i: usize = 0;
        while i < 32
            invariant
                0 <= i <= 32,
                forall|j: int| 0 <= j < i ==> #[trigger] self.0[j] == other.0[j],
            decreases 32 - i,
        {
            if self.0[i] != other.0[i] {
                return false;
            }
            i = i + 1;
        }
        assert(self.0 =~= other.0);
        true
    }
}

impl Default for Pubkey {
    fn default() -> (k: Pubkey)
        ensures
            k.is_default_key(),
    {
        Pubkey([0u8; 32])
    }
}

/// The rule by which a stream unlocks its tokens.
#[derive(Clone, Copy, Debug, PartialEq, Eq, Structural)]
pub enum VestingType {
    /// Everything unlocks at once at `end_time` (the cliff sits at the end).
    Cliff,
    /// Tokens unlock linearly from `start_time` to `end_time`.
    Linear,
    /// Everything unlocks at once when the creator marks the milestone
    /// reached, but not before the stream's `milestone_time`.
    Milestone,
}

/// The on-chain record of one vesting stream.
#[derive(Clone, Copy, Debug)]
pub struct Stream {
    /// Wallet that created the stream and funded the escrow.
    pub creator: Pubkey,
    /// Wallet entitled to withdraw vested tokens from the stream.
    pub recipient: Pubkey,
    /// SPL token mint being vested.
    pub mint: Pubkey,
    /// Escrow token account (PDA-owned) holding the locked tokens.
    pub escrow_token_account: Pubkey,
    /// Identifier scoped to the creator, used for PDA derivation.
    pub stream_id: u64,
    /// Total token amount originally deposited into the stream.
    pub total_amount: u64,
    /// Cumulative amount the recipient has already withdrawn.
    pub withdrawn_amount: u64,
    /// Unix timestamp at which vesting begins.
    pub start_time: i64,
    /// Unix timestamp before which no tokens are claimable.
    pub cliff_time: i64,
    /// Unix timestamp at which vesting completes (100% unlocked).
    pub end_time: i64,
    /// Whether the creator is allowed to cancel the stream.
    pub cancelable: bool,
    /// Whether the stream has been canceled.
    pub canceled: bool,
    /// Vesting rule used to calculate the unlocked amount.
    pub vesting_type: VestingType,
    /// Whether the creator has marked the milestone as reached.
    pub milestone_reached: bool,
    /// Unix timestamp before which a milestone cannot unlock tokens.
    pub milestone_time: i64,
    /// Bump seed for the stream account PDA.
    pub bump: u8,
    /// Bump seed for the escrow authority PDA.
    pub escrow_bump: u8,
    /// Unix timestamp at which the stream account was created.
    pub created_at: i64,
}

impl Stream {
    /// Whether the stream unlocks by the clock (cliff or linear schedule).
    pub open spec fn is_time_based(self) -> bool {
        self.vesting_type != VestingType::Milestone
    }

    /// Whether a clock-driven schedule's span `end - start` fits the
    /// timestamp type (the vested amount is computed on it).
    pub open spec fn span_fits(self) -> bool {
        self.is_time_based() ==> self.end_time - self.start_time <= i64::MAX
    }

    /// The invariant that every stream the program creates keeps: the
    /// deposit is positive, nothing beyond it is ever withdrawn, a milestone stream
    /// pays nothing before its milestone, and a clock-driven schedule is
    /// ordered `start <= cliff <= end` with `start < end`.
    pub open spec fn wf(self) -> bool {
        &&& self.total_amount > 0
        &&& self.withdrawn_amount <= self.total_amount
        &&& (self.vesting_type == VestingType::Milestone && !self.milestone_reached)
            ==> self.withdrawn_amount == 0
        &&& self.is_time_based() ==> {
            &&& self.start_time <= self.cliff_time <= self.end_time
            &&& self.start_time < self.end_time
        }
    }
}

} // verus!
