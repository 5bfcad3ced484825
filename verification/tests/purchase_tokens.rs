use mvote::address::Pubkey;
use mvote::clock::Clock;
use mvote::errors::MvoteError;
use mvote::instructions::purchase_tokens::handler;
use mvote::instructions::{PurchaseTokens, PurchaseTokensBumps};
use mvote::state::{Config, UserStats};

const DAY_START: i64 = 57_600;

fn key(byte: u8) -> Pubkey {
    Pubkey::new_from_array([byte; 32])
}

fn default_config() -> Config {
    Config {
        admin: key(1),
        token_mint: key(2),
        sol_vault: key(3),
        sol_usd_rate: 15000,
        tokens_per_usd: 1_000_000,
        daily_purchase_limit: 100_000_000,
        poll_creation_cost: 10_000_000,
        vote_cost: 1_000_000,
        total_polls_created: 0,
        bump: 254,
    }
}

fn first_purchase(now: i64) -> PurchaseTokens {
    PurchaseTokens {
        buyer: key(10),
        buyer_lamports: 10_000_000_000,
        config_key: key(4),
        config: default_config(),
        user_stats_key: key(5),
        user_stats: None,
        buyer_token_amount: 0,
        sol_vault_lamports: 0,
        clock: Clock { unix_timestamp: now },
        bumps: PurchaseTokensBumps { user_stats: 251 },
    }
}

#[test]
fn purchase_of_one_token_debits_6_666_666() {
    let mut ctx = first_purchase(DAY_START + 10);
    assert_eq!(handler(&mut ctx, 1_000_000), Ok(()));
    assert_eq!(ctx.buyer_lamports, 10_000_000_000 - 6_666_666);
    assert_eq!(ctx.sol_vault_lamports, 6_666_666);
    assert_eq!(ctx.buyer_token_amount, 1_000_000);
}

#[test]
fn first_purchase_opens_the_statistics_record() {
    let mut ctx = first_purchase(DAY_START + 10);
    assert_eq!(handler(&mut ctx, 2_500_000), Ok(()));
    assert_eq!(
        ctx.user_stats,
        Some(UserStats {
            wallet: key(10),
            tokens_purchased_today: 2_500_000,
            last_purchase_day: DAY_START + 10,
            total_tokens_purchased: 2_500_000,
            polls_created: 0,
            votes_cast: 0,
            bump: 251,
        })
    );
    assert_eq!(ctx.config, default_config());
}

#[test]
fn purchases_within_one_day_add_up() {
    let mut ctx = first_purchase(DAY_START + 10);
    assert_eq!(handler(&mut ctx, 40_000_000), Ok(()));
    ctx.clock = Clock { unix_timestamp: DAY_START + 3_600 };
    assert_eq!(handler(&mut ctx, 60_000_000), Ok(()));
    let stats = ctx.user_stats.unwrap();
    assert_eq!(stats.tokens_purchased_today, 100_000_000);
    assert_eq!(stats.total_tokens_purchased, 100_000_000);
    assert_eq!(stats.last_purchase_day, DAY_START + 10);
    assert_eq!(ctx.buyer_token_amount, 100_000_000);
}

#[test]
fn purchase_beyond_the_daily_limit_is_rejected_and_changes_nothing() {
    let mut ctx = first_purchase(DAY_START + 10);
    assert_eq!(handler(&mut ctx, 100_000_000), Ok(()));
    ctx.clock = Clock { unix_timestamp: DAY_START + 86_399 };
    let before = ctx;
    assert_eq!(handler(&mut ctx, 1), Err(MvoteError::DailyLimitExceeded));
    assert_eq!(ctx, before);
    let mut fresh = first_purchase(DAY_START + 10);
    let untouched = fresh;
    assert_eq!(handler(&mut fresh, 100_000_001), Err(MvoteError::DailyLimitExceeded));
    assert_eq!(fresh, untouched);
}

#[test]
fn repeated_purchases_never_exceed_the_daily_limit() {
    let mut ctx = first_purchase(DAY_START);
    let mut now = DAY_START;
    for step in 0..200u64 {
        now += 500;
        ctx.clock = Clock { unix_timestamp: now };
        ctx.buyer_lamports = 10_000_000_000;
        let amount = 1 + (step * 7_919_317) % 60_000_000;
        let _ = handler(&mut ctx, amount);
        if let Some(stats) = ctx.user_stats {
            assert!(stats.tokens_purchased_today <= 100_000_000);
        }
    }
    assert!(ctx.user_stats.unwrap().total_tokens_purchased > 100_000_000);
}

#[test]
fn crossing_the_day_boundary_resets_the_count() {
    let mut ctx = first_purchase(DAY_START + 10);
    assert_eq!(handler(&mut ctx, 100_000_000), Ok(()));
    ctx.clock = Clock { unix_timestamp: DAY_START + 86_400 };
    assert_eq!(handler(&mut ctx, 30_000_000), Ok(()));
    let stats = ctx.user_stats.unwrap();
    assert_eq!(stats.tokens_purchased_today, 30_000_000);
    assert_eq!(stats.last_purchase_day, DAY_START + 86_400);
    assert_eq!(stats.total_tokens_purchased, 130_000_000);
}

#[test]
fn purchase_of_nothing_is_an_invalid_amount() {
    let mut ctx = first_purchase(DAY_START + 10);
    let before = ctx;
    assert_eq!(handler(&mut ctx, 0), Err(MvoteError::InvalidAmount));
    assert_eq!(ctx, before);
}

#[test]
fn purchase_without_enough_settlement_balance_is_rejected() {
    let mut ctx = first_purchase(DAY_START + 10);
    ctx.buyer_lamports = 6_666_665;
    let before = ctx;
    assert_eq!(handler(&mut ctx, 1_000_000), Err(MvoteError::InsufficientFunds));
    assert_eq!(ctx, before);
    ctx.buyer_lamports = 6_666_666;
    assert_eq!(handler(&mut ctx, 1_000_000), Ok(()));
    assert_eq!(ctx.buyer_lamports, 0);
}

#[test]
fn purchase_overflows_are_rejected() {
    let mut zero_rate = first_purchase(DAY_START + 10);
    zero_rate.config.sol_usd_rate = 0;
    assert_eq!(handler(&mut zero_rate, 1), Err(MvoteError::Overflow));

    let mut counted = first_purchase(DAY_START + 10);
    counted.config.daily_purchase_limit = u64::MAX;
    counted.user_stats = Some(UserStats {
        wallet: key(10),
        tokens_purchased_today: u64::MAX,
        last_purchase_day: DAY_START,
        total_tokens_purchased: 0,
        polls_created: 0,
        votes_cast: 0,
        bump: 251,
    });
    assert_eq!(handler(&mut counted, 1), Err(MvoteError::Overflow));

    let mut full_vault = first_purchase(DAY_START + 10);
    full_vault.sol_vault_lamports = u64::MAX;
    assert_eq!(handler(&mut full_vault, 1_000_000), Err(MvoteError::Overflow));

    let mut full_wallet = first_purchase(DAY_START + 10);
    full_wallet.buyer_token_amount = u64::MAX;
    assert_eq!(handler(&mut full_wallet, 1), Err(MvoteError::Overflow));

    let mut full_total = first_purchase(DAY_START + 10);
    full_total.user_stats = Some(UserStats {
        wallet: key(10),
        tokens_purchased_today: 0,
        last_purchase_day: DAY_START,
        total_tokens_purchased: u64::MAX,
        polls_created: 0,
        votes_cast: 0,
        bump: 251,
    });
    let before = full_total;
    assert_eq!(handler(&mut full_total, 1), Err(MvoteError::Overflow));
    assert_eq!(full_total, before);
}

#[test]
fn purchase_keeps_the_other_counters() {
    let mut ctx = first_purchase(DAY_START + 10);
    ctx.user_stats = Some(UserStats {
        wallet: key(10),
        tokens_purchased_today: 5,
        last_purchase_day: DAY_START,
        total_tokens_purchased: 50,
        polls_created: 3,
        votes_cast: 4,
        bump: 200,
    });
    assert_eq!(handler(&mut ctx, 10), Ok(()));
    assert_eq!(
        ctx.user_stats,
        Some(UserStats {
            wallet: key(10),
            tokens_purchased_today: 15,
            last_purchase_day: DAY_START,
            total_tokens_purchased: 60,
            polls_created: 3,
            votes_cast: 4,
            bump: 200,
        })
    );
    assert_eq!(ctx.buyer_token_amount, 10);
    assert_eq!(ctx.sol_vault_lamports, 66);
}
