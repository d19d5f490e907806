use solagate::logic::{
    can_charge, dynamic_price_lamports, enforce_quota_window, refill_bucket, BucketState,
    QuotaState,
};

#[test]
fn bucket_refills_and_caps_at_capacity() {
    let mut bucket = BucketState {
        capacity: 10,
        tokens: 1,
        refill_per_second: 3,
        last_refill_ts: 100,
    };

    refill_bucket(&mut bucket, 103);
    assert_eq!(bucket.tokens, 10);
    assert_eq!(bucket.last_refill_ts, 103);
}

#[test]
fn quota_rolls_over_after_window() {
    let mut quota = QuotaState {
        period_seconds: 60,
        period_start_ts: 0,
        period_limit: 100,
        remaining: 0,
    };

    enforce_quota_window(&mut quota, 61);
    assert_eq!(quota.period_start_ts, 61);
    assert_eq!(quota.remaining, 100);
}

#[test]
fn dynamic_pricing_rises_with_utilization() {
    let low_util = dynamic_price_lamports(1_000, 100, 90, 5_000);
    let high_util = dynamic_price_lamports(1_000, 100, 10, 5_000);

    assert!(high_util > low_util);
    assert_eq!(dynamic_price_lamports(1_000, 100, 100, 5_000), 1_000);
}

#[test]
fn charge_checks_post_rent_balance() {
    assert!(can_charge(2_000_000, 1_000_000, 500_000));
    assert!(!can_charge(1_400_000, 1_000_000, 500_000));
}

#[test]
fn quota_is_untouched_before_window_elapses() {
    let mut quota = QuotaState {
        period_seconds: 60,
        period_start_ts: 0,
        period_limit: 100,
        remaining: 7,
    };

    enforce_quota_window(&mut quota, 59);
    assert_eq!(quota.period_start_ts, 0);
    assert_eq!(quota.remaining, 7);
}

#[test]
fn quota_rolling_disabled_with_nonpositive_period() {
    let mut quota = QuotaState {
        period_seconds: 0,
        period_start_ts: 5,
        period_limit: 100,
        remaining: 3,
    };

    enforce_quota_window(&mut quota, 1_000_000);
    assert_eq!(quota.period_start_ts, 5);
    assert_eq!(quota.remaining, 3);
}

#[test]
fn bucket_ignores_non_increasing_clock() {
    let mut bucket = BucketState {
        capacity: 10,
        tokens: 4,
        refill_per_second: 3,
        last_refill_ts: 100,
    };

    refill_bucket(&mut bucket, 100);
    assert_eq!(bucket.tokens, 4);
    assert_eq!(bucket.last_refill_ts, 100);

    refill_bucket(&mut bucket, 50);
    assert_eq!(bucket.tokens, 4);
    assert_eq!(bucket.last_refill_ts, 100);
}

#[test]
fn bucket_survives_adversarial_elapsed_time() {
    let mut bucket = BucketState {
        capacity: 10,
        tokens: 0,
        refill_per_second: u64::MAX,
        last_refill_ts: i64::MIN,
    };

    refill_bucket(&mut bucket, i64::MAX);
    assert_eq!(bucket.tokens, 10);
    assert_eq!(bucket.last_refill_ts, i64::MAX);
}

#[test]
fn dynamic_pricing_exact_surcharge() {
    // 90 of 100 used: 9000 bps utilization, surge 9000 * 2000 / 10000 =
    // 1800 bps, price 1000 * 11800 / 10000 = 1180.
    assert_eq!(dynamic_price_lamports(1_000, 100, 10, 2_000), 1_180);
    // Quota disabled or zero base: the base price comes back unchanged.
    assert_eq!(dynamic_price_lamports(1_000, 0, 0, 5_000), 1_000);
    assert_eq!(dynamic_price_lamports(0, 100, 10, 5_000), 0);
}

#[test]
fn charge_check_rejects_overflowing_requirement() {
    assert!(!can_charge(u64::MAX, u64::MAX, 1));
    assert!(can_charge(u64::MAX, u64::MAX, 0));
}
