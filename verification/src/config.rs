//! Validated token-bucket configuration.
//!
//! A bucket is described by a rate (tokens added per second) and a burst
//! capacity (the most tokens the bucket can hold).  Both are checked once,
//! at construction: a `TokenBucketConfig` built through [`TokenBucketConfig::new`]
//! never exists in an invalid state.

use vstd::prelude::*;

verus! {

/// Token bucket parameters for one message category.
#[derive(Debug, Clone, Copy, PartialEq, Eq, Structural)]
pub struct TokenBucketConfig {
    /// Maximum tokens per second.
    pub max_per_second: u32,
    /// Maximum burst capacity.
    pub burst_capacity: u32,
}

/// Configuration validation errors.
#[derive(Debug, Clone, Copy, PartialEq, Eq, Structural)]
pub enum ConfigError {
    /// The rate is zero or above 100,000 requests per second.
    InvalidRateLimit(u32),
    /// The burst capacity is zero or above 10,000.
    InvalidBurstCapacity(u32),
    /// The burst capacity exceeds what the rate could accumulate in a minute.
    UnreasonableBurst { rate: u32, burst: u32 },
}

/// The rate must lie between 1 and 100,000 tokens per second.
pub open spec fn valid_rate(rate: u32) -> bool {
    1 <= rate <= 100_000
}

/// The burst capacity must lie between 1 and 10,000 tokens.
pub open spec fn valid_burst(burst: u32) -> bool {
    1 <= burst <= 10_000
}

/// A configuration is valid when rate and burst are in bounds and the burst
/// does not exceed one minute's accumulation at the configured rate.
pub open spec fn valid_bucket_config(rate: u32, burst: u32) -> bool {
    &&& valid_rate(rate)
    &&& valid_burst(burst)
    &&& burst <= rate * 60
}

/// The error reported for an invalid `(rate, burst)` pair: the bounds are
/// checked in order, and the first violated one is reported.
pub open spec fn first_config_violation(rate: u32, burst: u32) -> ConfigError {
    if !valid_rate(rate) {
        ConfigError::InvalidRateLimit(rate)
    } else if !valid_burst(burst) {
        ConfigError::InvalidBurstCapacity(burst)
    } else {
        ConfigError::UnreasonableBurst { rate, burst }
    }
}

impl TokenBucketConfig {
    /// The construction-time invariants, which every built value satisfies.
    pub open spec fn wf(self) -> bool {
        valid_bucket_config(self.max_per_second, self.burst_capacity)
    }

    /// Create a new token bucket configuration with validation.
    ///
    /// Succeeds exactly on valid pairs and yields exactly the given values;
    /// an invalid pair is rejected with the first violated bound.
    pub fn new(max_per_second: u32, burst_capacity: u32) -> (r: Result<TokenBucketConfig, ConfigError>)
        ensures
            valid_bucket_config(max_per_second, burst_capacity) ==> r == Ok::<TokenBucketConfig, ConfigError>(
                TokenBucketConfig { max_per_second, burst_capacity },
            ),
            !valid_bucket_config(max_per_second, burst_capacity) ==> r == Err::<TokenBucketConfig, ConfigError>(
                first_config_violation(max_per_second, burst_capacity),
            ),
    {
        if max_per_second == 0 || max_per_second > 100_000 {
            return Err(ConfigError::InvalidRateLimit(max_per_second));
        }
        if burst_capacity == 0 || burst_capacity > 10_000 {
            return Err(ConfigError::InvalidBurstCapacity(burst_capacity));
        }
        if burst_capacity > max_per_second * 60 {
            return Err(ConfigError::UnreasonableBurst { rate: max_per_second, burst: burst_capacity });
        }
        Ok(TokenBucketConfig { max_per_second, burst_capacity })
    }

    /// Create a configuration without runtime validation; the caller shows
    /// that the values already satisfy the invariants.
    pub(crate) fn new_unchecked(max_per_second: u32, burst_capacity: u32) -> (r: TokenBucketConfig)
        requires
            valid_bucket_config(max_per_second, burst_capacity),
        ensures
            r == (TokenBucketConfig { max_per_second, burst_capacity }),
    {
        TokenBucketConfig { max_per_second, burst_capacity }
    }
}

impl Default for TokenBucketConfig {
    /// 10 tokens per second with a burst of 5.
    fn default() -> (r: Self)
        ensures
            r == (TokenBucketConfig { max_per_second: 10u32, burst_capacity: 5u32 }),
            r.wf(),
    {
        TokenBucketConfig::new_unchecked(10, 5)
    }
}

/// Rate limiting configuration: one bucket per message category.
#[derive(Debug, Clone, Copy, PartialEq, Eq, Structural)]
pub struct RateLimitConfig {
    pub progress_notifications: TokenBucketConfig,
    pub logging_messages: TokenBucketConfig,
    pub sampling_requests: TokenBucketConfig,
    pub completion_requests: TokenBucketConfig,
    pub elicitation_requests: TokenBucketConfig,
    pub tool_calls: TokenBucketConfig,
    pub other: TokenBucketConfig,
}

impl RateLimitConfig {
    /// All seven per-category configurations are valid.
    pub open spec fn wf(self) -> bool {
        &&& self.progress_notifications.wf()
        &&& self.logging_messages.wf()
        &&& self.sampling_requests.wf()
        &&& self.completion_requests.wf()
        &&& self.elicitation_requests.wf()
        &&& self.tool_calls.wf()
        &&& self.other.wf()
    }
}

/// The built-in default table, as rate/burst pairs per category.
pub open spec fn default_rate_limit_config() -> RateLimitConfig {
    RateLimitConfig {
        progress_notifications: TokenBucketConfig { max_per_second: 10u32, burst_capacity: 5u32 },
        logging_messages: TokenBucketConfig { max_per_second: 50u32, burst_capacity: 10u32 },
        sampling_requests: TokenBucketConfig { max_per_second: 2u32, burst_capacity: 1u32 },
        completion_requests: TokenBucketConfig { max_per_second: 5u32, burst_capacity: 2u32 },
        elicitation_requests: TokenBucketConfig { max_per_second: 1u32, burst_capacity: 1u32 },
        tool_calls: TokenBucketConfig { max_per_second: 20u32, burst_capacity: 5u32 },
        other: TokenBucketConfig { max_per_second: 100u32, burst_capacity: 20u32 },
    }
}

impl Default for RateLimitConfig {
    /// The built-in defaults: generous limits for high-frequency low-risk
    /// categories (logging, progress), tight limits for user-facing or
    /// expensive ones (sampling, elicitation).
    fn default() -> (r: Self)
        ensures
            r == default_rate_limit_config(),
            r.wf(),
    {
        RateLimitConfig {
            progress_notifications: TokenBucketConfig::new_unchecked(10, 5),
            logging_messages: TokenBucketConfig::new_unchecked(50, 10),
            sampling_requests: TokenBucketConfig::new_unchecked(2, 1),
            completion_requests: TokenBucketConfig::new_unchecked(5, 2),
            elicitation_requests: TokenBucketConfig::new_unchecked(1, 1),
            tool_calls: TokenBucketConfig::new_unchecked(20, 5),
            other: TokenBucketConfig::new_unchecked(100, 20),
        }
    }
}

} // verus!
