//! Token economics: the day-bucket clock of the daily purchase quota and the
//! conversion of token units into the settlement currency.

use vstd::prelude::*;
use vstd::arithmetic::div_mod::{lemma_div_is_ordered, lemma_fundamental_div_mod};
use crate::constants::{SECONDS_PER_DAY, SGT_OFFSET_SECONDS};
use crate::errors::MvoteError;

verus! {

/// The day, counted in the UTC+8 calendar, in which `timestamp` falls:
/// the floor of `(timestamp + 28800) / 86400`.
pub open spec fn day_bucket(timestamp: int) -> int {
    (timestamp + SGT_OFFSET_SECONDS) / (SECONDS_PER_DAY as int)
}

/// Whether a purchase at `current_timestamp` opens a new quota day for a user
/// whose quota day was last opened at `last_timestamp` (0: never).
pub open spec fn is_new_day(last_timestamp: int, current_timestamp: int) -> bool {
    last_timestamp == 0 || day_bucket(current_timestamp) > day_bucket(last_timestamp)
}

/// The day bucket of `timestamp`, for every `i64` timestamp.
pub fn day_bucket_of(timestamp: i64) -> (day: i64)
    ensures
        day == day_bucket(timestamp as int),
{
    let shifted: i128 = timestamp as i128 + SGT_OFFSET_SECONDS as i128;
    let day: i128 = if shifted >= 0 {
        shifted / (SECONDS_PER_DAY as i128)
    } else {
        let up: i128 = (-shifted + (SECONDS_PER_DAY as i128 - 1)) / (SECONDS_PER_DAY as i128);
        proof {
            lemma_fundamental_div_mod(shifted as int, 86400);
            lemma_fundamental_div_mod(-shifted + 86399, 86400);
        }
        -up
    };
    proof {
        lemma_fundamental_div_mod(shifted as int, 86400);
    }
    day as i64
}

/// Whether it is a new day in UTC+8 since `last_timestamp`: always for a user
/// who never bought (`last_timestamp == 0`), else when the day bucket of
/// `current_timestamp` is later than that of `last_timestamp`.
pub fn is_new_day_sgt(last_timestamp: i64, current_timestamp: i64) -> (new_day: bool)
    ensures
        new_day == is_new_day(last_timestamp as int, current_timestamp as int),
{
    if last_timestamp == 0 {
        return true;
    }
    let last_day = day_bucket_of(last_timestamp);
    let current_day = day_bucket_of(current_timestamp);
    current_day > last_day
}

/// Units of the settlement currency owed for `token_amount` token units at
/// `rate_cents` USD cents per settlement coin: the floor of
/// `token_amount * 100_000 / rate_cents`.
pub open spec fn settlement_cost(token_amount: nat, rate_cents: nat) -> nat
    recommends
        rate_cents > 0,
{
    (token_amount * 100_000) / rate_cents
}

/// The settlement cost of `token_amount` token units, computed in 128 bits.
/// A zero rate, or a cost that does not fit in 64 bits, is an overflow.
pub fn calculate_sol_cost(token_amount: u64, sol_usd_rate: u64) -> (cost: Result<u64, MvoteError>)
    ensures
        sol_usd_rate > 0 && settlement_cost(token_amount as nat, sol_usd_rate as nat) <= u64::MAX
            ==> cost == Ok::<u64, MvoteError>(
            settlement_cost(token_amount as nat, sol_usd_rate as nat) as u64,
        ),
        sol_usd_rate == 0 || settlement_cost(token_amount as nat, sol_usd_rate as nat) > u64::MAX
            ==> cost == Err::<u64, MvoteError>(MvoteError::Overflow),
{
    let scaled: u128 = match (token_amount as u128).checked_mul(100_000) {
        Some(scaled) => scaled,
        None => {
            return Err(MvoteError::Overflow);
        },
    };
    let lamports: u128 = match scaled.checked_div(sol_usd_rate as u128) {
        Some(lamports) => lamports,
        None => {
            return Err(MvoteError::Overflow);
        },
    };
    if lamports > u64::MAX as u128 {
        return Err(MvoteError::Overflow);
    }
    Ok(lamports as u64)
}

/// Nothing is owed for no tokens.
pub proof fn lemma_settlement_cost_zero(rate_cents: nat)
    requires
        rate_cents > 0,
    ensures
        settlement_cost(0, rate_cents) == 0,
{
}

/// More tokens never cost less.
pub proof fn lemma_settlement_cost_monotonic(smaller: nat, larger: nat, rate_cents: nat)
    requires
        rate_cents > 0,
        smaller <= larger,
    ensures
        settlement_cost(smaller, rate_cents) <= settlement_cost(larger, rate_cents),
{
    lemma_div_is_ordered((smaller * 100_000) as int, (larger * 100_000) as int, rate_cents as int);
}

} // verus!
