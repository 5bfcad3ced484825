//! Fixed parameters of the ledger: role tags for derived addresses, token
//! economics, poll limits and the day-bucket clock.

use vstd::prelude::*;

verus! {

/// Role tag of the singleton configuration record.
pub const CONFIG_SEED: [u8; 6] = [99, 111, 110, 102, 105, 103];

/// Role tag of the token mint.
pub const MINT_SEED: [u8; 4] = [109, 105, 110, 116];

/// Role tag of the settlement vault.
pub const VAULT_SEED: [u8; 5] = [118, 97, 117, 108, 116];

/// Role tag of a per-user statistics record.
pub const USER_SEED: [u8; 4] = [117, 115, 101, 114];

/// Role tag of a poll record.
pub const POLL_SEED: [u8; 4] = [112, 111, 108, 108];

/// Role tag of a vote receipt.
pub const VOTE_SEED: [u8; 4] = [118, 111, 116, 101];

/// Decimal places of the token: one token is 1_000_000 units.
pub const TOKEN_DECIMALS: u8 = 6;

/// Token units that one USD buys.
pub const TOKENS_PER_USD: u64 = 1_000_000;

/// Most token units one user may buy per day (100 tokens).
pub const DAILY_PURCHASE_LIMIT: u64 = 100_000_000;

/// Token units burned to create a poll (10 tokens).
pub const POLL_CREATION_COST: u64 = 10_000_000;

/// Token units burned by one vote in fair mode, and the minimum stake in
/// holding mode (1 token).
pub const VOTE_COST: u64 = 1_000_000;

/// Longest question, in bytes of its UTF-8 encoding.
pub const MAX_QUESTION_LENGTH: usize = 280;

/// Longest option text, in bytes of its UTF-8 encoding.
pub const MAX_OPTION_LENGTH: usize = 100;

/// Fewest options a poll may offer.
pub const MIN_OPTIONS: usize = 2;

/// Most options a poll may offer.
pub const MAX_OPTIONS: usize = 4;

/// Shortest poll duration, in minutes.
pub const MIN_DURATION_MINUTES: u16 = 10;

/// Longest poll duration, in minutes (24 hours).
pub const MAX_DURATION_MINUTES: u16 = 1440;

/// Offset of the day boundary from UTC, in seconds (UTC+8).
pub const SGT_OFFSET_SECONDS: i64 = 8 * 60 * 60;

/// Seconds in one day.
pub const SECONDS_PER_DAY: i64 = 86400;

/// Price of one unit of the settlement currency in USD cents ($150.00).
pub const SOL_USD_RATE: u64 = 15000;

} // verus!
