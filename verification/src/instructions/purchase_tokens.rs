//! Buying tokens with the settlement currency, under a daily quota.

use vstd::prelude::*;
use crate::address::{config_address, is_derivation, program_address, user_address, Pubkey};
use crate::address::{config_seeds, user_seeds};
use crate::clock::Clock;
use crate::economics::{calculate_sol_cost, is_new_day, is_new_day_sgt, settlement_cost};
use crate::errors::MvoteError;
use crate::state::{Config, UserStats};

verus! {

/// Nonces of the records that a purchase may create.
#[derive(Clone, Copy, Debug, PartialEq, Eq, Structural)]
pub struct PurchaseTokensBumps {
    /// Nonce of the buyer's statistics record.
    pub user_stats: u8,
}

/// What a purchase reads and writes.
#[derive(Clone, Copy, Debug, PartialEq, Eq)]
pub struct PurchaseTokens {
    /// Who buys.
    pub buyer: Pubkey,
    /// The buyer's balance of the settlement currency.
    pub buyer_lamports: u64,
    /// Address of the configuration record.
    pub config_key: Pubkey,
    /// The configuration.
    pub config: Config,
    /// Address of the buyer's statistics record.
    pub user_stats_key: Pubkey,
    /// The buyer's statistics; `None` before the first purchase.
    pub user_stats: Option<UserStats>,
    /// The buyer's token balance.
    pub buyer_token_amount: u64,
    /// The vault's balance of the settlement currency.
    pub sol_vault_lamports: u64,
    /// The time of the purchase.
    pub clock: Clock,
    /// Nonces of the records to create.
    pub bumps: PurchaseTokensBumps,
}

impl PurchaseTokens {
    /// The statistics the purchase starts from: the stored record, or that of
    /// a user who has done nothing yet.
    pub open spec fn stats_before(self) -> UserStats {
        match self.user_stats {
            Some(stats) => stats,
            None => UserStats::fresh(self.buyer, self.bumps.user_stats),
        }
    }

    /// Whether the purchase opens a new quota day.
    pub open spec fn opens_new_day(self) -> bool {
        is_new_day(self.stats_before().last_purchase_day as int, self.clock.unix_timestamp as int)
    }

    /// Token units already counted in the quota day of the purchase.
    pub open spec fn counted_today(self) -> nat {
        if self.opens_new_day() {
            0
        } else {
            self.stats_before().tokens_purchased_today as nat
        }
    }

    /// What the purchase of `amount` costs.
    pub open spec fn cost(self, amount: u64) -> nat {
        settlement_cost(amount as nat, self.config.sol_usd_rate as nat)
    }

    /// Why the purchase of `amount` is rejected, if it is: the first of the
    /// checks, in this order, that fails.
    pub open spec fn rejection(self, amount: u64) -> Option<MvoteError> {
        let stats = self.stats_before();
        if amount == 0 {
            Some(MvoteError::InvalidAmount)
        } else if self.counted_today() + amount > u64::MAX {
            Some(MvoteError::Overflow)
        } else if self.counted_today() + amount > self.config.daily_purchase_limit {
            Some(MvoteError::DailyLimitExceeded)
        } else if self.config.sol_usd_rate == 0 || self.cost(amount) > u64::MAX {
            Some(MvoteError::Overflow)
        } else if self.cost(amount) > self.buyer_lamports {
            Some(MvoteError::InsufficientFunds)
        } else if self.sol_vault_lamports + self.cost(amount) > u64::MAX {
            Some(MvoteError::Overflow)
        } else if self.buyer_token_amount + amount > u64::MAX {
            Some(MvoteError::Overflow)
        } else if stats.total_tokens_purchased + amount > u64::MAX {
            Some(MvoteError::Overflow)
        } else {
            None
        }
    }

    /// The configuration and the buyer's statistics are presented at the
    /// addresses derived from their keys under `program_id`, with the nonces
    /// of those derivations.
    pub open spec fn addresses_valid(self, program_id: Seq<u8>) -> bool {
        &&& program_address(config_seeds(), program_id) == Some(
            (self.config_key@, self.config.bump),
        )
        &&& program_address(user_seeds(self.buyer@), program_id) == Some(
            (self.user_stats_key@, self.stats_before().bump),
        )
    }

    /// Derives the addresses again and compares them, and their nonces, with
    /// what is presented.
    pub fn check_addresses(&self, program_id: &Pubkey) -> (ok: bool)
        ensures
            ok == self.addresses_valid(program_id@),
    {
        let stats_bump = match self.user_stats {
            Some(stats) => stats.bump,
            None => self.bumps.user_stats,
        };
        is_derivation(config_address(program_id), &self.config_key, self.config.bump)
            && is_derivation(
            user_address(program_id, &self.buyer),
            &self.user_stats_key,
            stats_bump,
        )
    }

    /// The state after the purchase of `amount` is attempted at time `now`:
    /// that of the accepted purchase, or the same state where it is rejected.
    pub open spec fn attempt(self, amount: u64, now: i64) -> PurchaseTokens {
        let at = PurchaseTokens { clock: Clock { unix_timestamp: now }, ..self };
        if at.rejection(amount) is None {
            at.after(amount)
        } else {
            at
        }
    }

    /// The state after the purchases `(amount, time)` are attempted in turn.
    pub open spec fn attempt_all(self, purchases: Seq<(u64, i64)>) -> PurchaseTokens
        decreases purchases.len(),
    {
        if purchases.len() == 0 {
            self
        } else {
            self.attempt_all(purchases.drop_last()).attempt(
                purchases.last().0,
                purchases.last().1,
            )
        }
    }

    /// The state after an accepted purchase of `amount`.
    pub open spec fn after(self, amount: u64) -> PurchaseTokens {
        let stats = self.stats_before();
        PurchaseTokens {
            buyer_lamports: (self.buyer_lamports - self.cost(amount)) as u64,
            sol_vault_lamports: (self.sol_vault_lamports + self.cost(amount)) as u64,
            buyer_token_amount: (self.buyer_token_amount + amount) as u64,
            user_stats: Some(
                UserStats {
                    tokens_purchased_today: (self.counted_today() + amount) as u64,
                    last_purchase_day: if self.opens_new_day() {
                        self.clock.unix_timestamp
                    } else {
                        stats.last_purchase_day
                    },
                    total_tokens_purchased: (stats.total_tokens_purchased + amount) as u64,
                    ..stats
                },
            ),
            ..self
        }
    }
}

/// Buys `amount` token units for the buyer: opens the buyer's statistics
/// record if there is none, starts a new quota day where one has begun, holds
/// the purchase to the daily limit, moves the settlement cost from the buyer
/// to the vault and credits the tokens. A rejected purchase changes nothing.
pub fn handler(ctx: &mut PurchaseTokens, amount: u64) -> (res: Result<(), MvoteError>)
    ensures
        match res {
            Ok(()) => old(ctx).rejection(amount) is None && *final(ctx) == old(ctx).after(amount),
            Err(e) => old(ctx).rejection(amount) == Some(e) && *final(ctx) == *old(ctx),
        },
{
    if amount == 0 {
        return Err(MvoteError::InvalidAmount);
    }
    let current_time = ctx.clock.unix_timestamp;
    let mut user_stats = match ctx.user_stats {
        Some(stats) => stats,
        None => UserStats {
            wallet: ctx.buyer,
            tokens_purchased_today: 0,
            last_purchase_day: 0,
            total_tokens_purchased: 0,
            polls_created: 0,
            votes_cast: 0,
            bump: ctx.bumps.user_stats,
        },
    };
    if is_new_day_sgt(user_stats.last_purchase_day, current_time) {
        user_stats.tokens_purchased_today = 0;
        user_stats.last_purchase_day = current_time;
    }
    let new_total = match user_stats.tokens_purchased_today.checked_add(amount) {
        Some(total) => total,
        None => {
            return Err(MvoteError::Overflow);
        },
    };
    if new_total > ctx.config.daily_purchase_limit {
        return Err(MvoteError::DailyLimitExceeded);
    }
    let sol_cost = match calculate_sol_cost(amount, ctx.config.sol_usd_rate) {
        Ok(cost) => cost,
        Err(e) => {
            return Err(e);
        },
    };
    if sol_cost > ctx.buyer_lamports {
        return Err(MvoteError::InsufficientFunds);
    }
    let vault_lamports = match ctx.sol_vault_lamports.checked_add(sol_cost) {
        Some(lamports) => lamports,
        None => {
            return Err(MvoteError::Overflow);
        },
    };
    let token_amount = match ctx.buyer_token_amount.checked_add(amount) {
        Some(tokens) => tokens,
        None => {
            return Err(MvoteError::Overflow);
        },
    };
    let total_purchased = match user_stats.total_tokens_purchased.checked_add(amount) {
        Some(total) => total,
        None => {
            return Err(MvoteError::Overflow);
        },
    };
    user_stats.tokens_purchased_today = new_total;
    user_stats.total_tokens_purchased = total_purchased;
    ctx.buyer_lamports = ctx.buyer_lamports - sol_cost;
    ctx.sol_vault_lamports = vault_lamports;
    ctx.buyer_token_amount = token_amount;
    ctx.user_stats = Some(user_stats);
    Ok(())
}

/// An accepted purchase leaves the buyer within the daily limit. Where it
/// opens a new quota day the day's count restarts from zero, so that it is
/// the amount bought; else the amount is added to the day's count.
pub proof fn lemma_purchase_within_limit(ctx: PurchaseTokens, amount: u64)
    requires
        ctx.rejection(amount) is None,
    ensures
        ctx.after(amount).stats_before().within_limit(ctx.config.daily_purchase_limit),
        ctx.opens_new_day() ==> ctx.after(amount).stats_before().tokens_purchased_today == amount,
        !ctx.opens_new_day() ==> ctx.after(amount).stats_before().tokens_purchased_today
            == ctx.stats_before().tokens_purchased_today + amount,
{
}

/// However many purchases are attempted, at whatever times and for whatever
/// amounts, a buyer who starts within the daily limit stays within it.
pub proof fn lemma_purchases_within_limit(ctx: PurchaseTokens, purchases: Seq<(u64, i64)>)
    requires
        ctx.stats_before().within_limit(ctx.config.daily_purchase_limit),
    ensures
        ctx.attempt_all(purchases).config == ctx.config,
        ctx.attempt_all(purchases).stats_before().within_limit(ctx.config.daily_purchase_limit),
    decreases purchases.len(),
{
    if purchases.len() > 0 {
        lemma_purchases_within_limit(ctx, purchases.drop_last());
    }
}

} // verus!
