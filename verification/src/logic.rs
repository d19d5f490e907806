//! The consumption core: the token-bucket rate limiter, the rolling quota
//! window, the utilization-based surge price, and the atomic consume
//! transition that composes them.  Every function here is pure and total
//! over its inputs; a rejected consume leaves the runtime state untouched.

use vstd::prelude::*;

verus! {

use vstd::arithmetic::div_mod::lemma_div_is_ordered;
use vstd::arithmetic::div_mod::lemma_div_multiples_vanish;
use vstd::arithmetic::mul::lemma_mul_inequality;

/// A token bucket: one token is spent per allowed call, and tokens come
/// back at `refill_per_second`, never above `capacity`.
#[derive(Debug, Clone, Copy, PartialEq, Eq)]
pub struct BucketState {
    pub capacity: u64,
    pub tokens: u64,
    pub refill_per_second: u64,
    pub last_refill_ts: i64,
}

/// A fixed-length recurring quota period with a call budget that resets
/// entirely once the period has elapsed.
#[derive(Debug, Clone, Copy, PartialEq, Eq)]
pub struct QuotaState {
    pub period_seconds: i64,
    pub period_start_ts: i64,
    pub period_limit: u64,
    pub remaining: u64,
}

/// The immutable per-gateway pricing and limiting rules.
#[derive(Debug, Clone, Copy, PartialEq, Eq)]
pub struct GatewayRules {
    pub base_price_lamports: u64,
    pub max_surge_bps: u16,
    pub period_limit: u64,
    pub period_seconds: i64,
    pub bucket_capacity: u64,
    pub refill_per_second: u64,
}

/// The mutable per-consumer counters that the consume transition updates.
#[derive(Debug, Clone, Copy, PartialEq, Eq)]
pub struct ConsumerRuntimeState {
    pub bucket_tokens: u64,
    pub bucket_last_refill_ts: i64,
    pub quota_remaining: u64,
    pub quota_period_start_ts: i64,
    pub total_calls: u64,
    pub total_spent_lamports: u64,
}

/// The three engine-level rejections a consume attempt can end in.
#[derive(Debug, Clone, Copy, PartialEq, Eq)]
pub enum ConsumeError {
    RateLimited,
    QuotaExceeded,
    InsufficientBalance,
}

/// The smaller of two integers.
pub open spec fn min2(a: int, b: int) -> int {
    if a < b {
        a
    } else {
        b
    }
}

/// Addition that saturates at `u64::MAX`.
pub open spec fn sat_add_u64(a: int, b: int) -> int {
    if a + b > u64::MAX as int {
        u64::MAX as int
    } else {
        a + b
    }
}

/// Multiplication that saturates at `u64::MAX`.
pub open spec fn sat_mul_u64(a: int, b: int) -> int {
    if a * b > u64::MAX as int {
        u64::MAX as int
    } else {
        a * b
    }
}

/// `u64` multiplication saturating at `u64::MAX`.
fn sat_mul64(a: u64, b: u64) -> (r: u64)
    ensures
        r == sat_mul_u64(a as int, b as int),
{
    match a.checked_mul(b) {
        Some(v) => v,
        None => u64::MAX,
    }
}

/// The token count after advancing `b` to `now_ts`: unchanged unless time
/// moved forward, else grown by elapsed seconds times the refill rate,
/// saturating, and capped at the capacity.
pub open spec fn spec_refilled_tokens(b: BucketState, now_ts: i64) -> int {
    if now_ts <= b.last_refill_ts {
        b.tokens as int
    } else {
        min2(
            b.capacity as int,
            sat_add_u64(
                b.tokens as int,
                sat_mul_u64(now_ts - b.last_refill_ts, b.refill_per_second as int),
            ),
        )
    }
}

/// Advance a bucket to `now_ts`.  A non-increasing clock changes nothing;
/// otherwise elapsed seconds times the refill rate are added, saturating,
/// capped at the capacity, and the refill timestamp moves to `now_ts`.
/// Never overflows, however large the elapsed time or the refill rate.
pub fn refill_bucket(bucket: &mut BucketState, now_ts: i64)
    ensures
        final(bucket).capacity == old(bucket).capacity,
        final(bucket).refill_per_second == old(bucket).refill_per_second,
        final(bucket).tokens == spec_refilled_tokens(*old(bucket), now_ts),
        final(bucket).last_refill_ts == if now_ts <= old(bucket).last_refill_ts {
            old(bucket).last_refill_ts
        } else {
            now_ts
        },
        old(bucket).tokens <= old(bucket).capacity ==> final(bucket).tokens
            <= final(bucket).capacity,
{
    if now_ts <= bucket.last_refill_ts {
        return ;
    }
    let elapsed: u64 = ((now_ts as i128) - (bucket.last_refill_ts as i128)) as u64;
    let refill: u64 = sat_mul64(elapsed, bucket.refill_per_second);
    let grown: u64 = bucket.tokens.saturating_add(refill);
    bucket.tokens = if grown > bucket.capacity {
        bucket.capacity
    } else {
        grown
    };
    bucket.last_refill_ts = now_ts;
}

/// Whether the quota window of `q` has run out at `now_ts` (only ever true
/// when rolling is enabled, that is when `period_seconds` is positive).
pub open spec fn spec_window_expired(q: QuotaState, now_ts: i64) -> bool {
    q.period_seconds > 0 && now_ts - q.period_start_ts >= q.period_seconds
}

/// The call budget left after rolling `q` forward to `now_ts`: the full
/// limit if the window expired, the current remainder otherwise.
pub open spec fn spec_rolled_remaining(q: QuotaState, now_ts: i64) -> int {
    if spec_window_expired(q, now_ts) {
        q.period_limit as int
    } else {
        q.remaining as int
    }
}

/// Roll a quota window forward to `now_ts`.  With `period_seconds <= 0`
/// rolling is disabled and nothing changes.  An expired window resets the
/// start to `now_ts` and the remainder to the full limit, exactly once no
/// matter how many whole periods were skipped; an unexpired one is left
/// alone.
pub fn enforce_quota_window(quota: &mut QuotaState, now_ts: i64)
    ensures
        final(quota).period_seconds == old(quota).period_seconds,
        final(quota).period_limit == old(quota).period_limit,
        final(quota).remaining == spec_rolled_remaining(*old(quota), now_ts),
        final(quota).period_start_ts == if spec_window_expired(*old(quota), now_ts) {
            now_ts
        } else {
            old(quota).period_start_ts
        },
{
    if quota.period_seconds <= 0 {
        return ;
    }
    if (now_ts as i128) - (quota.period_start_ts as i128) >= (quota.period_seconds as i128) {
        quota.period_start_ts = now_ts;
        quota.remaining = quota.period_limit;
    }
}

/// The quota utilization of a window with `limit` calls and `remaining`
/// left, in basis points, truncating.  Meaningful only for `limit > 0`.
pub open spec fn spec_utilization_bps(limit: int, remaining: int) -> int {
    sat_mul_u64(limit - min2(remaining, limit), 10000) / limit
}

/// The surge surcharge in basis points for the given utilization.
pub open spec fn spec_surge_bps(limit: int, remaining: int, max_surge_bps: int) -> int {
    sat_mul_u64(spec_utilization_bps(limit, remaining), max_surge_bps) / 10000
}

/// The integer charge for one call: the base price, marked up by a surge
/// proportional to how much of the quota window is already used.  With no
/// quota to measure against (`limit == 0`) or a zero base price, the base
/// price is returned unchanged.  Products saturate rather than wrap.
pub open spec fn spec_dynamic_price(base: int, limit: int, remaining: int, max_surge_bps: int) -> int {
    if limit == 0 || base == 0 {
        base
    } else {
        sat_mul_u64(base, 10000 + spec_surge_bps(limit, remaining, max_surge_bps)) / 10000
    }
}

/// Compute the charge for one call under the given rules; see
/// [`spec_dynamic_price`] for the exact formula.  Pure and total.
pub fn dynamic_price_lamports(
    base_price_lamports: u64,
    period_limit: u64,
    remaining_quota: u64,
    max_surge_bps: u16,
) -> (r: u64)
    ensures
        r == spec_dynamic_price(
            base_price_lamports as int,
            period_limit as int,
            remaining_quota as int,
            max_surge_bps as int,
        ),
{
    if period_limit == 0 || base_price_lamports == 0 {
        return base_price_lamports;
    }
    let capped_remaining: u64 = if remaining_quota < period_limit {
        remaining_quota
    } else {
        period_limit
    };
    let used: u64 = period_limit - capped_remaining;
    let utilization_bps: u64 = sat_mul64(used, 10_000) / period_limit;
    let surge_bps: u64 = sat_mul64(utilization_bps, max_surge_bps as u64) / 10_000;
    proof {
        lemma_div_is_ordered(
            sat_mul_u64(utilization_bps as int, max_surge_bps as int),
            u64::MAX as int,
            10000,
        );
    }
    sat_mul64(base_price_lamports, 10_000 + surge_bps) / 10_000
}

/// Whether a balance of `available` can bear a charge of `charge` while
/// keeping at least `floor` untouched; an overflowing requirement fails.
pub open spec fn spec_can_charge(available: int, floor: int, charge: int) -> bool {
    floor + charge <= u64::MAX as int && available >= floor + charge
}

/// Check that `available_balance` covers `charge_lamports` on top of the
/// retention floor `minimum_rent`; a requirement that overflows `u64` is
/// treated as unaffordable.
pub fn can_charge(available_balance: u64, minimum_rent: u64, charge_lamports: u64) -> (r: bool)
    ensures
        r == spec_can_charge(
            available_balance as int,
            minimum_rent as int,
            charge_lamports as int,
        ),
{
    match minimum_rent.checked_add(charge_lamports) {
        Some(required_balance) => available_balance >= required_balance,
        None => false,
    }
}

/// Zero utilization prices at exactly the base: as long as the base price
/// times `10000` fits a `u64`, a full remaining quota yields `base` itself.
/// (A base so large that the product saturates is clipped instead.)
pub proof fn lemma_dynamic_price_identity(base: u64, limit: u64, max_surge_bps: u16)
    requires
        base as int * 10000 <= u64::MAX as int,
    ensures
        spec_dynamic_price(base as int, limit as int, limit as int, max_surge_bps as int)
            == base as int,
{
    if limit != 0 && base != 0 {
        assert(min2(limit as int, limit as int) == limit as int);
        assert(spec_utilization_bps(limit as int, limit as int) == 0) by {
            assert(sat_mul_u64(0, 10000) == 0);
            assert(0int / (limit as int) == 0);
        }
        assert(spec_surge_bps(limit as int, limit as int, max_surge_bps as int) == 0) by {
            assert(sat_mul_u64(0, max_surge_bps as int) == 0);
        }
        assert(sat_mul_u64(base as int, 10000) == base as int * 10000);
        lemma_div_multiples_vanish(base as int, 10000);
        assert((10000 * (base as int)) / 10000 == base as int);
        assert(base as int * 10000 == 10000 * (base as int)) by (nonlinear_arith);
    }
}

/// The bucket the consume transition works on: capacity and rate from the
/// rules, token count and refill timestamp from the consumer's counters.
pub open spec fn spec_bucket_of(rules: GatewayRules, s: ConsumerRuntimeState) -> BucketState {
    BucketState {
        capacity: rules.bucket_capacity,
        tokens: s.bucket_tokens,
        refill_per_second: rules.refill_per_second,
        last_refill_ts: s.bucket_last_refill_ts,
    }
}

/// The quota window the consume transition works on.
pub open spec fn spec_quota_of(rules: GatewayRules, s: ConsumerRuntimeState) -> QuotaState {
    QuotaState {
        period_seconds: rules.period_seconds,
        period_start_ts: s.quota_period_start_ts,
        period_limit: rules.period_limit,
        remaining: s.quota_remaining,
    }
}

/// A consume attempt at `now_ts` is rate limited: rate limiting is enabled
/// and the bucket is empty even after refilling to `now_ts`.
pub open spec fn spec_rate_limited(rules: GatewayRules, s: ConsumerRuntimeState, now_ts: i64) -> bool {
    rules.bucket_capacity > 0 && spec_refilled_tokens(spec_bucket_of(rules, s), now_ts) == 0
}

/// A consume attempt at `now_ts` exceeds the quota: it passed the rate
/// limiter, quota enforcement is enabled, and the budget is empty even
/// after rolling the window to `now_ts`.
pub open spec fn spec_quota_exceeded(rules: GatewayRules, s: ConsumerRuntimeState, now_ts: i64) -> bool {
    !spec_rate_limited(rules, s, now_ts) && rules.period_limit > 0 && spec_rolled_remaining(
        spec_quota_of(rules, s),
        now_ts,
    ) == 0
}

/// The remaining quota the price is measured against: the budget after
/// this very call is counted, or the raw remainder when quota is disabled.
pub open spec fn spec_price_remaining(rules: GatewayRules, s: ConsumerRuntimeState, now_ts: i64) -> int {
    if rules.period_limit > 0 {
        spec_rolled_remaining(spec_quota_of(rules, s), now_ts) - 1
    } else {
        s.quota_remaining as int
    }
}

/// The charge a consume attempt at `now_ts` would collect, priced at the
/// utilization after the call itself is counted.
pub open spec fn spec_consume_price(rules: GatewayRules, s: ConsumerRuntimeState, now_ts: i64) -> int {
    spec_dynamic_price(
        rules.base_price_lamports as int,
        rules.period_limit as int,
        spec_price_remaining(rules, s, now_ts),
        rules.max_surge_bps as int,
    )
}

/// A consume attempt passed the limiter and the quota but the balance
/// cannot bear the charge on top of the retention floor.
pub open spec fn spec_insufficient_balance(
    rules: GatewayRules,
    s: ConsumerRuntimeState,
    now_ts: i64,
    available_balance: u64,
    minimum_rent: u64,
) -> bool {
    !spec_rate_limited(rules, s, now_ts) && !spec_quota_exceeded(rules, s, now_ts)
        && !spec_can_charge(
        available_balance as int,
        minimum_rent as int,
        spec_consume_price(rules, s, now_ts),
    )
}

/// A consume attempt succeeds: no rejection applies.
pub open spec fn spec_consume_ok(
    rules: GatewayRules,
    s: ConsumerRuntimeState,
    now_ts: i64,
    available_balance: u64,
    minimum_rent: u64,
) -> bool {
    !spec_rate_limited(rules, s, now_ts) && !spec_quota_exceeded(rules, s, now_ts)
        && spec_can_charge(
        available_balance as int,
        minimum_rent as int,
        spec_consume_price(rules, s, now_ts),
    )
}

/// The counters after the bucket stage of a successful consume: the bucket
/// refilled to `now_ts` and one token spent.  Identity when rate limiting
/// is disabled.
pub open spec fn spec_after_bucket(rules: GatewayRules, s: ConsumerRuntimeState, now_ts: i64) -> ConsumerRuntimeState {
    if rules.bucket_capacity == 0 {
        s
    } else {
        ConsumerRuntimeState {
            bucket_tokens: (spec_refilled_tokens(spec_bucket_of(rules, s), now_ts) - 1) as u64,
            bucket_last_refill_ts: if now_ts <= s.bucket_last_refill_ts {
                s.bucket_last_refill_ts
            } else {
                now_ts
            },
            ..s
        }
    }
}

/// The counters a successful consume at `now_ts` commits: bucket and quota
/// staged, the call counter and the spent total bumped, saturating.
pub open spec fn spec_consume_commit(rules: GatewayRules, s: ConsumerRuntimeState, now_ts: i64) -> ConsumerRuntimeState {
    let s1 = spec_after_bucket(rules, s, now_ts);
    let s2 = if rules.period_limit > 0 {
        ConsumerRuntimeState {
            quota_remaining: (spec_rolled_remaining(spec_quota_of(rules, s), now_ts) - 1) as u64,
            quota_period_start_ts: if spec_window_expired(spec_quota_of(rules, s), now_ts) {
                now_ts
            } else {
                s.quota_period_start_ts
            },
            ..s1
        }
    } else {
        s1
    };
    ConsumerRuntimeState {
        total_calls: sat_add_u64(s.total_calls as int, 1) as u64,
        total_spent_lamports: sat_add_u64(
            s.total_spent_lamports as int,
            spec_consume_price(rules, s, now_ts),
        ) as u64,
        ..s2
    }
}

/// The single atomic decision point: whether one call may be charged and
/// what it costs.  Steps, each short-circuiting with no mutation: refill
/// the bucket and take a token, roll the quota window and take a unit of
/// budget, price the call at the post-decrement utilization, and check the
/// balance against the retention floor.  All staged changes commit only on
/// success; a rejected attempt leaves `state` exactly as it was.
pub fn apply_consume(
    rules: &GatewayRules,
    state: &mut ConsumerRuntimeState,
    now_ts: i64,
    available_balance: u64,
    minimum_rent: u64,
) -> (r: Result<u64, ConsumeError>)
    ensures
        r is Err ==> *final(state) == *old(state),
        (r == Err::<u64, ConsumeError>(ConsumeError::RateLimited)) <==> spec_rate_limited(
            *rules,
            *old(state),
            now_ts,
        ),
        (r == Err::<u64, ConsumeError>(ConsumeError::QuotaExceeded)) <==> spec_quota_exceeded(
            *rules,
            *old(state),
            now_ts,
        ),
        (r == Err::<u64, ConsumeError>(ConsumeError::InsufficientBalance))
            <==> spec_insufficient_balance(
            *rules,
            *old(state),
            now_ts,
            available_balance,
            minimum_rent,
        ),
        (r is Ok) <==> spec_consume_ok(*rules, *old(state), now_ts, available_balance, minimum_rent),
        r matches Ok(charge) ==> charge == spec_consume_price(*rules, *old(state), now_ts)
            && *final(state) == spec_consume_commit(*rules, *old(state), now_ts),
        final(state).total_calls >= old(state).total_calls,
        final(state).total_spent_lamports >= old(state).total_spent_lamports,
        final(state).total_calls > old(state).total_calls ==> r is Ok,
        final(state).total_spent_lamports > old(state).total_spent_lamports ==> r is Ok,
{
    let mut next_state = *state;

    if rules.bucket_capacity > 0 {
        let mut bucket = BucketState {
            capacity: rules.bucket_capacity,
            tokens: next_state.bucket_tokens,
            refill_per_second: rules.refill_per_second,
            last_refill_ts: next_state.bucket_last_refill_ts,
        };
        refill_bucket(&mut bucket, now_ts);

        if bucket.tokens == 0 {
            return Err(ConsumeError::RateLimited);
        }

        bucket.tokens = bucket.tokens - 1;
        next_state.bucket_tokens = bucket.tokens;
        next_state.bucket_last_refill_ts = bucket.last_refill_ts;
    }

    let mut remaining_quota_for_price: u64 = next_state.quota_remaining;

    if rules.period_limit > 0 {
        let mut quota = QuotaState {
            period_seconds: rules.period_seconds,
            period_start_ts: next_state.quota_period_start_ts,
            period_limit: rules.period_limit,
            remaining: next_state.quota_remaining,
        };

        enforce_quota_window(&mut quota, now_ts);
        if quota.remaining == 0 {
            return Err(ConsumeError::QuotaExceeded);
        }

        quota.remaining = quota.remaining - 1;
        remaining_quota_for_price = quota.remaining;
        next_state.quota_remaining = quota.remaining;
        next_state.quota_period_start_ts = quota.period_start_ts;
    }

    let price = dynamic_price_lamports(
        rules.base_price_lamports,
        rules.period_limit,
        remaining_quota_for_price,
        rules.max_surge_bps,
    );

    if !can_charge(available_balance, minimum_rent, price) {
        return Err(ConsumeError::InsufficientBalance);
    }

    next_state.total_calls = next_state.total_calls.saturating_add(1);
    next_state.total_spent_lamports = next_state.total_spent_lamports.saturating_add(price);
    *state = next_state;

    Ok(price)
}

/// Saturating multiplication is monotone in its first factor, for
/// non-negative operands.
proof fn lemma_sat_mul_mono(a1: int, a2: int, b: int)
    requires
        0 <= a1 <= a2,
        0 <= b,
    ensures
        sat_mul_u64(a1, b) <= sat_mul_u64(a2, b),
{
    lemma_mul_inequality(a1, a2, b);
}

/// The price is non-decreasing as the remaining quota decreases: with all
/// rules fixed, higher utilization never prices below lower utilization.
pub proof fn lemma_dynamic_price_monotonic(
    base: u64,
    limit: u64,
    remaining_lo: u64,
    remaining_hi: u64,
    max_surge_bps: u16,
)
    requires
        remaining_lo <= remaining_hi,
    ensures
        spec_dynamic_price(base as int, limit as int, remaining_lo as int, max_surge_bps as int)
            >= spec_dynamic_price(
            base as int,
            limit as int,
            remaining_hi as int,
            max_surge_bps as int,
        ),
{
    if limit != 0 && base != 0 {
        let l = limit as int;
        let m = max_surge_bps as int;
        let used_lo = l - min2(remaining_lo as int, l);
        let used_hi = l - min2(remaining_hi as int, l);
        assert(0 <= used_hi <= used_lo);
        lemma_sat_mul_mono(used_hi, used_lo, 10000);
        lemma_div_is_ordered(sat_mul_u64(used_hi, 10000), sat_mul_u64(used_lo, 10000), l);
        let util_lo = spec_utilization_bps(l, remaining_lo as int);
        let util_hi = spec_utilization_bps(l, remaining_hi as int);
        assert(util_hi <= util_lo);
        assert(0 <= util_hi) by {
            assert(0 <= sat_mul_u64(used_hi, 10000));
            assert(sat_mul_u64(used_hi, 10000) / l >= 0) by (nonlinear_arith)
                requires
                    0 <= sat_mul_u64(used_hi, 10000),
                    0 < l,
            ;
        }
        lemma_sat_mul_mono(util_hi, util_lo, m);
        lemma_div_is_ordered(sat_mul_u64(util_hi, m), sat_mul_u64(util_lo, m), 10000);
        let surge_lo = spec_surge_bps(l, remaining_lo as int, m);
        let surge_hi = spec_surge_bps(l, remaining_hi as int, m);
        assert(surge_hi <= surge_lo);
        assert(0 <= surge_hi) by {
            assert(0 <= sat_mul_u64(util_hi, m));
            assert(sat_mul_u64(util_hi, m) / 10000 >= 0) by (nonlinear_arith)
                requires
                    0 <= sat_mul_u64(util_hi, m),
            ;
        }
        assert(sat_mul_u64(base as int, 10000 + surge_hi) <= sat_mul_u64(
            base as int,
            10000 + surge_lo,
        )) by {
            lemma_mul_inequality(10000 + surge_hi, 10000 + surge_lo, base as int);
            assert((10000 + surge_hi) * (base as int) == (base as int) * (10000 + surge_hi))
                by (nonlinear_arith);
            assert((10000 + surge_lo) * (base as int) == (base as int) * (10000 + surge_lo))
                by (nonlinear_arith);
        }
        lemma_div_is_ordered(
            sat_mul_u64(base as int, 10000 + surge_hi),
            sat_mul_u64(base as int, 10000 + surge_lo),
            10000,
        );
    }
}

} // verus!
