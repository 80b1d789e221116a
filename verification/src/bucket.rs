//! The token bucket.
//!
//! A bucket holds a fractional token count, kept here in fixed point: one
//! token is [`TOKEN_SCALE`] micro-tokens, so a `u64` count is exact where
//! the elapsed time is measured in whole microseconds.  Refilling clamps
//! the elapsed time to 24 hours before applying the replenishment formula,
//! so a stalled or manipulated clock can never produce an enormous credit,
//! and the count never leaves `0 ..= burst * TOKEN_SCALE`.

use std::time::Instant;
use vstd::prelude::*;

use crate::clock::{duration_to_micros, elapsed_since, instant_now};
use crate::config::TokenBucketConfig;

verus! {

/// Micro-tokens per token: the fixed-point scale of a bucket's count.
pub const TOKEN_SCALE: u64 = 1_000_000;

/// The most elapsed microseconds a single refill will credit: 24 hours.
pub const MAX_ELAPSED_MICROS: u64 = 86_400_000_000;

/// The mathematical state of a bucket: its count in micro-tokens, the
/// timestamp of its last refill in microseconds on the bucket's own clock,
/// and its configured rate and burst.
pub ghost struct BucketModel {
    /// Current count, in micro-tokens.
    pub tokens: int,
    /// Microseconds from the bucket's clock origin to the last refill.
    pub last_refill: int,
    /// Whole tokens added per second.
    pub rate: int,
    /// Most whole tokens the bucket may hold.
    pub burst: int,
}

/// The bucket invariant: a valid configuration, and a count within
/// `0 ..= burst * TOKEN_SCALE`.
pub open spec fn model_wf(b: BucketModel) -> bool {
    &&& 1 <= b.rate <= 100_000
    &&& 1 <= b.burst <= 10_000
    &&& b.burst <= b.rate * 60
    &&& 0 <= b.tokens <= b.burst * TOKEN_SCALE
}

/// The elapsed time a refill credits: never negative, and clamped to
/// 24 hours as protection against clock manipulation.
pub open spec fn clamped_elapsed(last_refill: int, now: int) -> int {
    let elapsed = if now >= last_refill { now - last_refill } else { 0 };
    if elapsed > MAX_ELAPSED_MICROS { MAX_ELAPSED_MICROS as int } else { elapsed }
}

/// One refill at time `now`: credit `clamped_elapsed * rate` micro-tokens,
/// cap the count at the burst capacity, and advance `last_refill` to `now`
/// unconditionally.
pub open spec fn spec_refill(b: BucketModel, now: int) -> BucketModel {
    let cap = b.burst * TOKEN_SCALE;
    let filled = b.tokens + clamped_elapsed(b.last_refill, now) * b.rate;
    BucketModel { tokens: if filled > cap { cap } else { filled }, last_refill: now, ..b }
}

/// Whether a consume attempt at time `now` succeeds: after the refill that
/// always precedes it, at least one whole token is available.
pub open spec fn spec_can_consume(b: BucketModel, now: int) -> bool {
    spec_refill(b, now).tokens >= TOKEN_SCALE
}

/// One consume attempt at time `now`: refill, then take one token if a
/// whole one is available, else leave the refilled state as it is.
pub open spec fn spec_consume(b: BucketModel, now: int) -> BucketModel {
    let refilled = spec_refill(b, now);
    if refilled.tokens >= TOKEN_SCALE {
        BucketModel { tokens: refilled.tokens - TOKEN_SCALE, ..refilled }
    } else {
        refilled
    }
}

/// The state of a fresh bucket built from `config`: full, last refilled at
/// time zero of its own clock.
pub open spec fn fresh_bucket_model(config: TokenBucketConfig) -> BucketModel {
    BucketModel {
        tokens: config.burst_capacity * TOKEN_SCALE,
        last_refill: 0,
        rate: config.max_per_second as int,
        burst: config.burst_capacity as int,
    }
}

/// Token bucket for rate limiting one message category.
pub struct TokenBucket {
    /// Count in micro-tokens; at most `burst_capacity * TOKEN_SCALE`.
    tokens: u64,
    /// Microseconds from `origin` to the last refill.
    last_refill: u64,
    config: TokenBucketConfig,
    /// The monotonic clock reading this bucket's timestamps are measured from.
    origin: Instant,
}

impl View for TokenBucket {
    type V = BucketModel;

    closed spec fn view(&self) -> BucketModel {
        BucketModel {
            tokens: self.tokens as int,
            last_refill: self.last_refill as int,
            rate: self.config.max_per_second as int,
            burst: self.config.burst_capacity as int,
        }
    }
}

impl TokenBucket {
    /// The bucket invariant; established by [`TokenBucket::new`] and kept by
    /// every mutation.
    pub open spec fn wf(&self) -> bool {
        model_wf(self@)
    }

    /// A fresh bucket: full, with its clock started now.
    pub fn new(config: TokenBucketConfig) -> (r: TokenBucket)
        requires
            config.wf(),
        ensures
            r.wf(),
            r@ == fresh_bucket_model(config),
    {
        let tokens = (config.burst_capacity as u64) * TOKEN_SCALE;
        TokenBucket { tokens, last_refill: 0, config, origin: instant_now() }
    }

    /// Current count in micro-tokens.
    pub fn current_tokens_micro(&self) -> (r: u64)
        ensures
            r == self@.tokens,
    {
        self.tokens
    }

    /// Move the last-refill timestamp, expressed in microseconds on the
    /// bucket's own clock; the token count is untouched.
    pub fn set_last_refill(&mut self, last_refill_micros: u64)
        ensures
            final(self)@ == (BucketModel { last_refill: last_refill_micros as int, ..old(self)@ }),
    {
        self.last_refill = last_refill_micros;
    }

    /// Refill at the given clock reading (microseconds on the bucket's own
    /// clock): the deterministic core of [`TokenBucket::refill`].
    pub fn refill_at(&mut self, now_micros: u64)
        requires
            old(self).wf(),
        ensures
            final(self).wf(),
            final(self)@ == spec_refill(old(self)@, now_micros as int),
    {
        let rate = self.config.max_per_second as u64;
        let elapsed = if now_micros >= self.last_refill {
            now_micros - self.last_refill
        } else {
            0
        };
        let clamped = if elapsed > MAX_ELAPSED_MICROS {
            MAX_ELAPSED_MICROS
        } else {
            elapsed
        };
        assert(clamped * rate <= 86_400_000_000 * 100_000) by (nonlinear_arith)
            requires
                clamped <= 86_400_000_000u64,
                rate <= 100_000u64,
        ;
        let to_add = clamped * rate;
        let cap = (self.config.burst_capacity as u64) * TOKEN_SCALE;
        let filled = self.tokens + to_add;
        self.tokens = if filled > cap { cap } else { filled };
        self.last_refill = now_micros;
    }

    /// Refill from the monotonic clock.  The clock's value is not under the
    /// caller's control, so the contract promises what holds of every
    /// reading: the bucket moves to the refilled state for some time.
    pub(crate) fn refill(&mut self)
        requires
            old(self).wf(),
        ensures
            final(self).wf(),
            exists|now: int| final(self)@ == #[trigger] spec_refill(old(self)@, now),
    {
        let d = elapsed_since(&self.origin);
        let now = duration_to_micros(&d);
        self.refill_at(now);
    }

    /// Force a refill from the monotonic clock.
    pub fn force_refill(&mut self)
        requires
            old(self).wf(),
        ensures
            final(self).wf(),
            exists|now: int| final(self)@ == #[trigger] spec_refill(old(self)@, now),
    {
        self.refill();
    }

    /// Try to consume a token at the given clock reading: the deterministic
    /// core of [`TokenBucket::try_consume`].  Refills first, then takes one
    /// token exactly when a whole one is available.
    pub fn try_consume_at(&mut self, now_micros: u64) -> (r: bool)
        requires
            old(self).wf(),
        ensures
            final(self).wf(),
            r == spec_can_consume(old(self)@, now_micros as int),
            final(self)@ == spec_consume(old(self)@, now_micros as int),
    {
        self.refill_at(now_micros);
        if self.tokens >= TOKEN_SCALE {
            self.tokens = self.tokens - TOKEN_SCALE;
            true
        } else {
            false
        }
    }

    /// Try to consume a token, reading the monotonic clock; returns true on
    /// success.  The contract promises what holds of every clock reading:
    /// the bucket takes one consume step for some time, and the result
    /// reports exactly whether that step took a token.
    pub fn try_consume(&mut self) -> (r: bool)
        requires
            old(self).wf(),
        ensures
            final(self).wf(),
            exists|now: int|
                {
                    &&& final(self)@ == #[trigger] spec_consume(old(self)@, now)
                    &&& r == spec_can_consume(old(self)@, now)
                },
    {
        let d = elapsed_since(&self.origin);
        let now = duration_to_micros(&d);
        self.try_consume_at(now)
    }
}

/// The bucket after `n` consume attempts, all at time `now`.
pub open spec fn spec_consume_n(b: BucketModel, now: int, n: nat) -> BucketModel
    decreases n,
{
    if n == 0 {
        b
    } else {
        spec_consume(spec_consume_n(b, now, (n - 1) as nat), now)
    }
}

/// However large the elapsed time — a year idle, or a manipulated clock —
/// a refill keeps the count within `0 ..= burst * TOKEN_SCALE`.
pub proof fn lemma_refill_bounded(b: BucketModel, now: int)
    requires
        model_wf(b),
    ensures
        model_wf(spec_refill(b, now)),
        0 <= spec_refill(b, now).tokens <= b.burst * TOKEN_SCALE,
{
    let clamped = clamped_elapsed(b.last_refill, now);
    assert(clamped * b.rate >= 0) by (nonlinear_arith)
        requires
            clamped >= 0,
            b.rate >= 1,
    ;
}

/// Once at least `1/rate` seconds have passed since the last refill, the
/// next consume attempt succeeds.  The hypothesis states that interval in
/// microseconds: `elapsed * rate >= TOKEN_SCALE` says the elapsed time
/// covers at least one whole token at the configured rate.
pub proof fn lemma_consume_after_interval(b: BucketModel, now: int)
    requires
        model_wf(b),
        now >= b.last_refill,
        (now - b.last_refill) * b.rate >= TOKEN_SCALE,
    ensures
        spec_can_consume(b, now),
{
    let elapsed = now - b.last_refill;
    let clamped = clamped_elapsed(b.last_refill, now);
    if elapsed > MAX_ELAPSED_MICROS {
        assert(clamped * b.rate >= MAX_ELAPSED_MICROS) by (nonlinear_arith)
            requires
                clamped == MAX_ELAPSED_MICROS,
                b.rate >= 1,
        ;
    }
    assert(b.burst * TOKEN_SCALE >= TOKEN_SCALE) by (nonlinear_arith)
        requires
            b.burst >= 1,
    ;
}

/// A refill at the very time of the last refill credits nothing: the
/// bucket is unchanged.
pub proof fn lemma_refill_same_time(b: BucketModel)
    requires
        0 <= b.tokens <= b.burst * TOKEN_SCALE,
    ensures
        spec_refill(b, b.last_refill) == b,
{
    let clamped = clamped_elapsed(b.last_refill, b.last_refill);
    assert(clamped * b.rate == 0) by (nonlinear_arith)
        requires
            clamped == 0,
    ;
}

/// After `k` immediate consume attempts on a full bucket, exactly
/// `max(burst - k, 0)` whole tokens remain; the timestamp and the
/// configuration are untouched.
pub proof fn lemma_consume_n_immediate(b: BucketModel, k: nat)
    requires
        model_wf(b),
        b.tokens == b.burst * TOKEN_SCALE,
    ensures
        spec_consume_n(b, b.last_refill, k).tokens == if k <= b.burst {
            (b.burst - k) * TOKEN_SCALE
        } else {
            0int
        },
        spec_consume_n(b, b.last_refill, k).last_refill == b.last_refill,
        spec_consume_n(b, b.last_refill, k).rate == b.rate,
        spec_consume_n(b, b.last_refill, k).burst == b.burst,
    decreases k,
{
    if k > 0 {
        lemma_consume_n_immediate(b, (k - 1) as nat);
        let prev = spec_consume_n(b, b.last_refill, (k - 1) as nat);
        lemma_refill_same_time(prev);
        assert(spec_consume_n(b, b.last_refill, k) == spec_consume(prev, b.last_refill));
    }
}

/// A fresh (full) bucket permits exactly `burst` immediate consumes:
/// each of the first `burst` attempts succeeds, and every attempt after
/// them fails until time passes.
pub proof fn lemma_full_bucket_permits_exactly_burst(b: BucketModel, k: nat)
    requires
        model_wf(b),
        b.tokens == b.burst * TOKEN_SCALE,
    ensures
        k < b.burst ==> spec_can_consume(spec_consume_n(b, b.last_refill, k), b.last_refill),
        k >= b.burst ==> !spec_can_consume(spec_consume_n(b, b.last_refill, k), b.last_refill),
{
    lemma_consume_n_immediate(b, k);
    lemma_refill_same_time(spec_consume_n(b, b.last_refill, k));
}

} // verus!
