use mvote::economics::{calculate_sol_cost, day_bucket_of, is_new_day_sgt};
use mvote::errors::MvoteError;

#[test]
fn settlement_cost_of_one_token_at_default_rate() {
    assert_eq!(calculate_sol_cost(1_000_000, 15000), Ok(6_666_666));
}

#[test]
fn settlement_cost_of_nothing_is_nothing() {
    assert_eq!(calculate_sol_cost(0, 15000), Ok(0));
    assert_eq!(calculate_sol_cost(0, 1), Ok(0));
}

#[test]
fn settlement_cost_rejects_zero_rate() {
    assert_eq!(calculate_sol_cost(1_000_000, 0), Err(MvoteError::Overflow));
}

#[test]
fn settlement_cost_rejects_cost_beyond_64_bits() {
    assert_eq!(calculate_sol_cost(u64::MAX, 1), Err(MvoteError::Overflow));
    assert_eq!(calculate_sol_cost(u64::MAX, 100_000), Ok(u64::MAX));
}

#[test]
fn settlement_cost_is_monotonic_on_samples() {
    let amounts = [0u64, 1, 14, 15, 149, 150, 1_000_000, 3_000_000, 100_000_000];
    let mut last = 0u64;
    for amount in amounts {
        let cost = calculate_sol_cost(amount, 15000).unwrap();
        assert!(cost >= last);
        last = cost;
    }
}

#[test]
fn day_bucket_changes_at_utc_plus_eight_midnight() {
    assert_eq!(day_bucket_of(0), 0);
    assert_eq!(day_bucket_of(57_599), 0);
    assert_eq!(day_bucket_of(57_600), 1);
    assert_eq!(day_bucket_of(-28_800), 0);
    assert_eq!(day_bucket_of(-28_801), -1);
    assert_eq!(day_bucket_of(i64::MAX), 106_751_991_167_300);
    assert_eq!(day_bucket_of(i64::MIN), -106_751_991_167_301);
}

#[test]
fn new_day_for_first_purchase_and_across_boundary() {
    assert!(is_new_day_sgt(0, 1_000));
    assert!(!is_new_day_sgt(1_000, 57_599));
    assert!(is_new_day_sgt(1_000, 57_600));
    assert!(!is_new_day_sgt(57_600, 1_000));
    assert!(!is_new_day_sgt(57_600, 57_600 + 86_399));
    assert!(is_new_day_sgt(57_600, 57_600 + 86_400));
}
