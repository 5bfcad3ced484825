//! Vote receipts.

use vstd::prelude::*;
use crate::address::Pubkey;

verus! {

/// The receipt of one vote. There is at most one per poll and voter, and it
/// never changes.
#[derive(Clone, Copy, Debug, PartialEq, Eq)]
pub struct VoteRecord {
    /// The voter.
    pub voter: Pubkey,
    /// Ordinal of the poll.
    pub poll_id: u64,
    /// Index of the chosen option.
    pub option_index: u8,
    /// Token units burned by the vote.
    pub tokens_spent: u64,
    /// Time at which the vote was cast.
    pub voted_at: i64,
    /// Nonce of the record's address.
    pub bump: u8,
}

impl VoteRecord {
    /// Bytes of the stored record, with its 8-byte type marker.
    pub const SIZE: usize = 8 + 32 + 8 + 1 + 8 + 8 + 1;
}

} // verus!
