//! The singleton configuration record.

use vstd::prelude::*;
use crate::address::Pubkey;
use crate::constants::{
    DAILY_PURCHASE_LIMIT, POLL_CREATION_COST, SOL_USD_RATE, TOKENS_PER_USD, VOTE_COST,
};

verus! {

/// Parameters of one deployment. Created once; afterwards only
/// `total_polls_created` changes.
#[derive(Clone, Copy, Debug, PartialEq, Eq)]
pub struct Config {
    /// Program admin.
    pub admin: Pubkey,
    /// Token mint.
    pub token_mint: Pubkey,
    /// Settlement vault.
    pub sol_vault: Pubkey,
    /// Price of one settlement coin in USD cents (15000 = $150.00).
    pub sol_usd_rate: u64,
    /// Token units per USD.
    pub tokens_per_usd: u64,
    /// Most token units a user may buy per day.
    pub daily_purchase_limit: u64,
    /// Token units burned to create a poll.
    pub poll_creation_cost: u64,
    /// Token units burned by a vote in fair mode.
    pub vote_cost: u64,
    /// Polls created so far; also the ordinal of the next poll.
    pub total_polls_created: u64,
    /// Nonce of the record's address.
    pub bump: u8,
}

impl Config {
    /// Bytes of the stored record, with its 8-byte type marker.
    pub const SIZE: usize = 8 + 32 + 32 + 32 + 8 + 8 + 8 + 8 + 8 + 8 + 1;

    /// The configuration that bootstrap writes: the fixed economics and no
    /// polls yet.
    pub open spec fn initial(admin: Pubkey, token_mint: Pubkey, sol_vault: Pubkey, bump: u8) -> Config {
        Config {
            admin,
            token_mint,
            sol_vault,
            sol_usd_rate: SOL_USD_RATE,
            tokens_per_usd: TOKENS_PER_USD,
            daily_purchase_limit: DAILY_PURCHASE_LIMIT,
            poll_creation_cost: POLL_CREATION_COST,
            vote_cost: VOTE_COST,
            total_polls_created: 0,
            bump,
        }
    }
}

} // verus!
