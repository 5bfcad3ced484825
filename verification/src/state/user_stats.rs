//! Per-user statistics.

use vstd::prelude::*;
use crate::address::Pubkey;

verus! {

/// What one user has bought and done. Created by the user's first purchase.
#[derive(Clone, Copy, Debug, PartialEq, Eq)]
pub struct UserStats {
    /// The user.
    pub wallet: Pubkey,
    /// Token units bought in the current quota day.
    pub tokens_purchased_today: u64,
    /// Time at which the current quota day was opened (0: never).
    pub last_purchase_day: i64,
    /// Token units ever bought.
    pub total_tokens_purchased: u64,
    /// Number of polls created.
    pub polls_created: u64,
    /// Number of votes cast.
    pub votes_cast: u64,
    /// Nonce of the record's address.
    pub bump: u8,
}

impl UserStats {
    /// Bytes of the stored record, with its 8-byte type marker.
    pub const SIZE: usize = 8 + 32 + 8 + 8 + 8 + 8 + 8 + 1;

    /// The record of a user who has done nothing yet.
    pub open spec fn fresh(wallet: Pubkey, bump: u8) -> UserStats {
        UserStats {
            wallet,
            tokens_purchased_today: 0,
            last_purchase_day: 0,
            total_tokens_purchased: 0,
            polls_created: 0,
            votes_cast: 0,
            bump,
        }
    }

    /// The daily quota is respected.
    pub open spec fn within_limit(self, daily_purchase_limit: u64) -> bool {
        self.tokens_purchased_today <= daily_purchase_limit
    }
}

} // verus!
