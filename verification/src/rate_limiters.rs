//! Interface for rate limiters and an in-memory rate limiter.
//!
//! The in-memory rate limiter is a token bucket: tokens accumulate at a
//! fixed rate up to a cap, and each permitted request consumes one token.
//! Token quantities and rates are fixed-point numbers scaled by
//! [`TOKEN_SCALE`], so one whole token is `TOKEN_SCALE` units; timestamps
//! and backoff durations are in nanoseconds. The advanced limiter wraps the
//! bucket with a bounded retry/backoff policy that turns an unbounded
//! blocking wait into a fail-fast decision after a fixed number of retries.

use vstd::prelude::*;

use crate::errors::FerricLinkError;

verus! {

/// Fixed-point scale for token quantities, rates and second-valued
/// configuration: a value of `TOKEN_SCALE` stands for 1.0.
pub const TOKEN_SCALE: u64 = 1_000_000;

/// Nanoseconds in one second.
pub const NANOS_PER_SEC: u64 = 1_000_000_000;

/// An in-memory rate limiter based on a token bucket algorithm.
///
/// This is an in-memory rate limiter, so it cannot rate limit across
/// different processes. It only allows time-based rate limiting and does
/// not take any information about the input into account.
///
/// The bucket starts with exactly one token rather than a full bucket, so
/// the very first request proceeds immediately without granting an initial
/// burst.
#[derive(Debug, Clone, Copy, PartialEq, Eq, Structural)]
pub struct InMemoryRateLimiter {
    /// Number of requests per second, fixed-point scaled by [`TOKEN_SCALE`]
    pub requests_per_second: u64,
    /// Number of tokens in the bucket, fixed-point scaled by [`TOKEN_SCALE`]
    pub available_tokens: u64,
    /// Maximum number of tokens in the bucket, fixed-point scaled by
    /// [`TOKEN_SCALE`]
    pub max_bucket_size: u64,
    /// The last time tokens were refilled, in nanoseconds; unset before the
    /// first acquisition attempt
    pub last: Option<u64>,
    /// Check whether tokens are available every this many seconds,
    /// fixed-point scaled by [`TOKEN_SCALE`]
    pub check_every_n_seconds: u64,
}

/// Serializable version of InMemoryRateLimiter for configuration
#[derive(Debug, Clone, Copy, PartialEq, Eq, Structural)]
pub struct InMemoryRateLimiterConfig {
    /// Number of requests per second, fixed-point scaled by [`TOKEN_SCALE`]
    pub requests_per_second: u64,
    /// Maximum number of tokens in the bucket, fixed-point scaled by
    /// [`TOKEN_SCALE`]
    pub max_bucket_size: u64,
    /// Check interval in seconds, fixed-point scaled by [`TOKEN_SCALE`]
    pub check_every_n_seconds: u64,
}

impl InMemoryRateLimiter {
    /// A valid limiter configuration: a positive rate, a positive check
    /// interval, and room for at least one whole token.
    pub open spec fn spec_valid_config(
        requests_per_second: u64,
        check_every_n_seconds: u64,
        max_bucket_size: u64,
    ) -> bool {
        &&& requests_per_second >= 1
        &&& check_every_n_seconds >= 1
        &&& max_bucket_size >= TOKEN_SCALE
    }

    /// Well-formedness: the configuration is valid and the bucket never
    /// holds more than `max_bucket_size` tokens.
    pub open spec fn wf(self) -> bool {
        &&& Self::spec_valid_config(
            self.requests_per_second,
            self.check_every_n_seconds,
            self.max_bucket_size,
        )
        &&& self.available_tokens <= self.max_bucket_size
    }

    /// The reference time of an attempt at `now`: the last refill time, or
    /// `now` itself on the first attempt.
    pub open spec fn spec_last0(self, now: u64) -> u64 {
        match self.last {
            Some(t) => t,
            None => now,
        }
    }

    /// Nanoseconds elapsed since the reference time, saturating at zero for
    /// clock readings that go backwards.
    pub open spec fn spec_elapsed(self, now: u64) -> u64 {
        now.saturating_sub(self.spec_last0(now))
    }

    /// Whether at least one whole token's worth of time has passed, so that
    /// the bucket refills. Elapsed time below that granularity is not
    /// banked.
    pub open spec fn spec_refills(self, now: u64) -> bool {
        self.spec_elapsed(now) * self.requests_per_second >= TOKEN_SCALE * NANOS_PER_SEC
    }

    /// The token count after the refill step and the clamp to the bucket
    /// size, before any token is consumed.
    pub open spec fn spec_tokens_after_refill(self, now: u64) -> int {
        let refilled = if self.spec_refills(now) {
            self.available_tokens as int + (self.spec_elapsed(now) as int)
                * (self.requests_per_second as int) / (NANOS_PER_SEC as int)
        } else {
            self.available_tokens as int
        };
        if refilled > self.max_bucket_size {
            self.max_bucket_size as int
        } else {
            refilled
        }
    }

    /// Whether an attempt at `now` acquires a token.
    pub open spec fn spec_acquired(self, now: u64) -> bool {
        self.spec_tokens_after_refill(now) >= TOKEN_SCALE
    }

    /// The full effect of one consume attempt at `now`: `post` is the state
    /// after the attempt and `acquired` its outcome.
    pub open spec fn spec_consume_rel(pre: Self, post: Self, now: u64, acquired: bool) -> bool {
        &&& acquired == pre.spec_acquired(now)
        &&& post.available_tokens == if acquired {
            pre.spec_tokens_after_refill(now) - TOKEN_SCALE
        } else {
            pre.spec_tokens_after_refill(now)
        }
        &&& post.last == if pre.last is None || pre.spec_refills(now) {
            Some(now)
        } else {
            pre.last
        }
        &&& post.requests_per_second == pre.requests_per_second
        &&& post.max_bucket_size == pre.max_bucket_size
        &&& post.check_every_n_seconds == pre.check_every_n_seconds
    }

    /// Create a new in-memory rate limiter based on a token bucket.
    ///
    /// All quantities are fixed-point scaled by [`TOKEN_SCALE`]: the rate
    /// and the check interval must be positive, and the bucket must have
    /// room for at least one whole token. The bucket starts with exactly
    /// one token, so the first request can proceed at once without an
    /// initial burst.
    pub fn new(
        requests_per_second: u64,
        check_every_n_seconds: u64,
        max_bucket_size: u64,
    ) -> (r: Self)
        requires
            Self::spec_valid_config(requests_per_second, check_every_n_seconds, max_bucket_size),
        ensures
            r.wf(),
            r.requests_per_second == requests_per_second,
            r.check_every_n_seconds == check_every_n_seconds,
            r.max_bucket_size == max_bucket_size,
            r.available_tokens == TOKEN_SCALE,
            r.last is None,
    {
        InMemoryRateLimiter {
            requests_per_second,
            available_tokens: TOKEN_SCALE,
            max_bucket_size,
            last: None,
            check_every_n_seconds,
        }
    }

    /// Create a new limiter, rejecting an invalid configuration with a
    /// configuration error instead of clamping it silently.
    pub fn try_new(
        requests_per_second: u64,
        check_every_n_seconds: u64,
        max_bucket_size: u64,
    ) -> (r: Result<Self, FerricLinkError>)
        ensures
            r is Ok <==> Self::spec_valid_config(
                requests_per_second,
                check_every_n_seconds,
                max_bucket_size,
            ),
            r matches Ok(l) ==> {
                &&& l.wf()
                &&& l.requests_per_second == requests_per_second
                &&& l.check_every_n_seconds == check_every_n_seconds
                &&& l.max_bucket_size == max_bucket_size
                &&& l.available_tokens == TOKEN_SCALE
                &&& l.last is None
            },
            r matches Err(e) ==> e matches FerricLinkError::Configuration(_),
    {
        if requests_per_second < 1 {
            Err(FerricLinkError::configuration("requests_per_second must be greater than 0"))
        } else if check_every_n_seconds < 1 {
            Err(FerricLinkError::configuration("check_every_n_seconds must be greater than 0"))
        } else if max_bucket_size < TOKEN_SCALE {
            Err(FerricLinkError::configuration("max_bucket_size must be at least 1 token"))
        } else {
            Ok(Self::new(requests_per_second, check_every_n_seconds, max_bucket_size))
        }
    }

    /// Try to consume a token at an explicit time, in nanoseconds.
    ///
    /// Refill and consumption happen together: elapsed time worth at least
    /// one whole token adds `elapsed * rate` tokens and resets the refill
    /// time; the bucket is clamped to its maximum; and when at least one
    /// whole token is available it is consumed and the attempt succeeds.
    pub fn consume_at(&mut self, now_nanos: u64) -> (acquired: bool)
        requires
            old(self).wf(),
        ensures
            final(self).wf(),
            Self::spec_consume_rel(*old(self), *final(self), now_nanos, acquired),
    {
        let last0 = match self.last {
            Some(t) => t,
            None => {
                // Initialize on first call to avoid a burst
                self.last = Some(now_nanos);
                now_nanos
            },
        };
        let elapsed = now_nanos.saturating_sub(last0);

        proof {
            let e = elapsed as int;
            let rps = self.requests_per_second as int;
            assert(e * rps <= (u64::MAX as int) * (u64::MAX as int) && (u64::MAX as int) * (
            u64::MAX as int) < u128::MAX as int) by (nonlinear_arith)
                requires
                    0 <= e <= u64::MAX as int,
                    0 <= rps <= u64::MAX as int,
            ;
        }
        let prod: u128 = elapsed as u128 * self.requests_per_second as u128;
        let mut tokens = self.available_tokens;
        if prod >= TOKEN_SCALE as u128 * NANOS_PER_SEC as u128 {
            let refill: u128 = prod / (NANOS_PER_SEC as u128);
            let sum: u128 = tokens as u128 + refill;
            tokens = if sum > self.max_bucket_size as u128 {
                self.max_bucket_size
            } else {
                sum as u64
            };
            self.last = Some(now_nanos);
        }

        // Make sure that we don't exceed the bucket size.
        if tokens > self.max_bucket_size {
            tokens = self.max_bucket_size;
        }

        // As long as we have at least one token, we can proceed.
        if tokens >= TOKEN_SCALE {
            self.available_tokens = tokens - TOKEN_SCALE;
            true
        } else {
            self.available_tokens = tokens;
            false
        }
    }

    /// Try to consume a token at the present moment.
    ///
    /// The outcome depends on the clock reading; whatever it was, the
    /// effect on the bucket is that of one consume attempt at that reading.
    pub fn consume(&mut self) -> (acquired: bool)
        requires
            old(self).wf(),
        ensures
            final(self).wf(),
            exists|t: u64| Self::spec_consume_rel(*old(self), *final(self), t, acquired),
    {
        let now = crate::clock::now_nanos();
        let r = self.consume_at(now);
        proof {
            assert(Self::spec_consume_rel(*old(self), *self, now, r));
        }
        r
    }

    /// Get the current number of available tokens, fixed-point scaled by
    /// [`TOKEN_SCALE`].
    pub fn available_tokens(&self) -> (r: u64)
        ensures
            r == self.available_tokens,
    {
        self.available_tokens
    }

    /// Get the maximum bucket size, fixed-point scaled by [`TOKEN_SCALE`].
    pub fn max_bucket_size(&self) -> (r: u64)
        ensures
            r == self.max_bucket_size,
    {
        self.max_bucket_size
    }

    /// Get the requests per second rate, fixed-point scaled by
    /// [`TOKEN_SCALE`].
    pub fn requests_per_second(&self) -> (r: u64)
        ensures
            r == self.requests_per_second,
    {
        self.requests_per_second
    }

    /// Get the check interval in seconds, fixed-point scaled by
    /// [`TOKEN_SCALE`].
    pub fn check_every_n_seconds(&self) -> (r: u64)
        ensures
            r == self.check_every_n_seconds,
    {
        self.check_every_n_seconds
    }

    /// Convert to a serializable configuration
    pub fn to_config(&self) -> (r: InMemoryRateLimiterConfig)
        ensures
            r.requests_per_second == self.requests_per_second,
            r.max_bucket_size == self.max_bucket_size,
            r.check_every_n_seconds == self.check_every_n_seconds,
    {
        InMemoryRateLimiterConfig {
            requests_per_second: self.requests_per_second,
            max_bucket_size: self.max_bucket_size,
            check_every_n_seconds: self.check_every_n_seconds,
        }
    }

    /// Create from a serializable configuration
    pub fn from_config(config: InMemoryRateLimiterConfig) -> (r: Self)
        requires
            Self::spec_valid_config(
                config.requests_per_second,
                config.check_every_n_seconds,
                config.max_bucket_size,
            ),
        ensures
            r.wf(),
            r.requests_per_second == config.requests_per_second,
            r.check_every_n_seconds == config.check_every_n_seconds,
            r.max_bucket_size == config.max_bucket_size,
            r.available_tokens == TOKEN_SCALE,
            r.last is None,
    {
        Self::new(
            config.requests_per_second,
            config.check_every_n_seconds,
            config.max_bucket_size,
        )
    }
}

/// At every observation the bucket holds between zero and
/// `max_bucket_size` tokens: a consume attempt at any time, on any
/// well-formed limiter, keeps the count within those bounds.
pub proof fn lemma_token_bounds(pre: InMemoryRateLimiter, post: InMemoryRateLimiter, now: u64, acquired: bool)
    requires
        pre.wf(),
        InMemoryRateLimiter::spec_consume_rel(pre, post, now, acquired),
    ensures
        0 <= post.available_tokens <= post.max_bucket_size,
        post.max_bucket_size == pre.max_bucket_size,
{
}

/// Configuration for the advanced rate limiter
#[derive(Debug, Clone, Copy, PartialEq, Eq, Structural)]
pub struct RateLimiterConfig {
    /// Whether to use exponential backoff while waiting for a token
    pub use_exponential_backoff: bool,
    /// Maximum backoff duration, in nanoseconds
    pub max_backoff_nanos: u64,
    /// Initial backoff duration, in nanoseconds
    pub initial_backoff_nanos: u64,
    /// Maximum number of retries before a blocking acquisition fails
    pub max_retries: u32,
    /// Whether to log rate limiting events
    pub log_events: bool,
}

impl RateLimiterConfig {
    /// The default policy: exponential backoff from 100 milliseconds up to
    /// one minute, five retries, no logging.
    pub open spec fn spec_default() -> RateLimiterConfig {
        RateLimiterConfig {
            use_exponential_backoff: true,
            max_backoff_nanos: 60_000_000_000,
            initial_backoff_nanos: 100_000_000,
            max_retries: 5,
            log_events: false,
        }
    }
}

impl Default for RateLimiterConfig {
    /// The default policy, as [`RateLimiterConfig::spec_default`] gives it.
    fn default() -> (r: Self)
        ensures
            r == RateLimiterConfig::spec_default(),
    {
        RateLimiterConfig {
            use_exponential_backoff: true,
            max_backoff_nanos: 60_000_000_000,
            initial_backoff_nanos: 100_000_000,
            max_retries: 5,
            log_events: false,
        }
    }
}

/// The running state of one bounded acquisition: how many retries have been
/// spent and the backoff that the next wait would use.
#[derive(Debug, Clone, Copy, PartialEq, Eq, Structural)]
pub struct RetryState {
    /// Retries spent so far
    pub retries: u32,
    /// Backoff for the next wait, in nanoseconds
    pub backoff_nanos: u64,
}

/// What a bounded acquisition step decided.
#[derive(Debug, Clone, Copy, PartialEq, Eq, Structural)]
pub enum RetryDecision {
    /// A token was acquired; the acquisition succeeded
    Acquired,
    /// No token and the caller did not ask to block: give up with failure
    GiveUp,
    /// No token and the retries are exhausted: the acquisition fails with a
    /// rate-limit-exceeded error
    Failed,
    /// No token yet: wait this many nanoseconds, then try again
    Wait(u64),
}

/// A backoff doubled, saturating at the largest representable duration.
pub open spec fn spec_doubled(backoff_nanos: u64) -> u64 {
    if backoff_nanos > u64::MAX / 2 {
        u64::MAX
    } else {
        (backoff_nanos * 2) as u64
    }
}

/// The backoff that follows a wait: doubled and capped when exponential
/// backoff is on, unchanged otherwise.
pub open spec fn spec_next_backoff(config: RateLimiterConfig, backoff_nanos: u64) -> u64 {
    if config.use_exponential_backoff {
        if spec_doubled(backoff_nanos) > config.max_backoff_nanos {
            config.max_backoff_nanos
        } else {
            spec_doubled(backoff_nanos)
        }
    } else {
        backoff_nanos
    }
}

/// A more advanced rate limiter that supports different rate limiting strategies.
///
/// It wraps a token bucket with a retry policy that bounds the blocking
/// acquisition path: instead of waiting without limit, the acquisition
/// fails with a rate-limit-exceeded error once `max_retries` retries have
/// been spent. The policy can be swapped at runtime without touching the
/// accumulated token state.
#[derive(Debug, Clone, Copy, PartialEq, Eq, Structural)]
pub struct AdvancedRateLimiter {
    /// The underlying rate limiter
    pub inner: InMemoryRateLimiter,
    /// Additional configuration
    pub config: RateLimiterConfig,
}

impl AdvancedRateLimiter {
    /// Well-formedness of the underlying bucket.
    pub open spec fn wf(self) -> bool {
        self.inner.wf()
    }

    /// Create a new advanced rate limiter
    pub fn new(
        requests_per_second: u64,
        check_every_n_seconds: u64,
        max_bucket_size: u64,
        config: RateLimiterConfig,
    ) -> (r: Self)
        requires
            InMemoryRateLimiter::spec_valid_config(
                requests_per_second,
                check_every_n_seconds,
                max_bucket_size,
            ),
        ensures
            r.wf(),
            r.inner.requests_per_second == requests_per_second,
            r.inner.check_every_n_seconds == check_every_n_seconds,
            r.inner.max_bucket_size == max_bucket_size,
            r.inner.available_tokens == TOKEN_SCALE,
            r.inner.last is None,
            r.config == config,
    {
        AdvancedRateLimiter {
            inner: InMemoryRateLimiter::new(
                requests_per_second,
                check_every_n_seconds,
                max_bucket_size,
            ),
            config,
        }
    }

    /// Get the current configuration
    pub fn config(&self) -> (r: &RateLimiterConfig)
        ensures
            *r == self.config,
    {
        &self.config
    }

    /// Update the configuration.
    ///
    /// Swapping the policy does not reconstruct the bucket: the accumulated
    /// token state is untouched.
    pub fn update_config(&mut self, config: RateLimiterConfig)
        ensures
            final(self).config == config,
            final(self).inner == old(self).inner,
    {
        self.config = config;
    }

    /// The retry state at the start of a bounded acquisition.
    pub fn retry_begin(&self) -> (r: RetryState)
        ensures
            r == (RetryState { retries: 0, backoff_nanos: self.config.initial_backoff_nanos }),
    {
        RetryState { retries: 0, backoff_nanos: self.config.initial_backoff_nanos }
    }

    /// One step of a bounded acquisition at an explicit time: try to
    /// consume a token and decide what follows.
    ///
    /// A token ends the acquisition at once. Without one, a non-blocking
    /// caller gives up; a blocking caller waits for the current backoff and
    /// retries, until `max_retries` retries have been spent, at which point
    /// the step decides `Failed` — the rate-limit-exceeded outcome — rather
    /// than waiting on.
    pub fn acquire_with_retry_step(
        &mut self,
        blocking: bool,
        now_nanos: u64,
        state: &mut RetryState,
    ) -> (d: RetryDecision)
        requires
            old(self).wf(),
        ensures
            final(self).wf(),
            final(self).config == old(self).config,
            InMemoryRateLimiter::spec_consume_rel(
                old(self).inner,
                final(self).inner,
                now_nanos,
                old(self).inner.spec_acquired(now_nanos),
            ),
            ({
                let acq = old(self).inner.spec_acquired(now_nanos);
                let cfg = old(self).config;
                if acq {
                    d == RetryDecision::Acquired && *final(state) == *old(state)
                } else if !blocking {
                    d == RetryDecision::GiveUp && *final(state) == *old(state)
                } else if old(state).retries >= cfg.max_retries {
                    d == RetryDecision::Failed && *final(state) == *old(state)
                } else {
                    &&& d == RetryDecision::Wait(old(state).backoff_nanos)
                    &&& final(state).retries == old(state).retries + 1
                    &&& final(state).backoff_nanos
                        == spec_next_backoff(cfg, old(state).backoff_nanos)
                }
            }),
    {
        let acquired = self.inner.consume_at(now_nanos);
        if acquired {
            RetryDecision::Acquired
        } else if !blocking {
            RetryDecision::GiveUp
        } else if state.retries >= self.config.max_retries {
            RetryDecision::Failed
        } else {
            let wait = state.backoff_nanos;
            if self.config.use_exponential_backoff {
                let doubled = if state.backoff_nanos > u64::MAX / 2 {
                    u64::MAX
                } else {
                    state.backoff_nanos * 2
                };
                state.backoff_nanos = if doubled > self.config.max_backoff_nanos {
                    self.config.max_backoff_nanos
                } else {
                    doubled
                };
            }
            state.retries += 1;
            RetryDecision::Wait(wait)
        }
    }

    /// The distinguished error of an exhausted bounded acquisition.
    pub fn rate_limit_error(&self) -> (r: FerricLinkError)
        ensures
            r matches FerricLinkError::General(m) && m@ == crate::errors::spec_error_message(
                "Max retries exceeded for rate limiter"@,
                crate::errors::ErrorCode::ModelRateLimit,
            ),
    {
        FerricLinkError::model_rate_limit("Max retries exceeded for rate limiter")
    }
}

/// One wait-and-retry transition of a bounded blocking acquisition: the
/// attempt failed, a retry was available, and the counter moved up by one.
pub open spec fn spec_wait_step(
    config: RateLimiterConfig,
    pre: RetryState,
    post: RetryState,
) -> bool {
    &&& pre.retries < config.max_retries
    &&& post.retries == pre.retries + 1
    &&& post.backoff_nanos == spec_next_backoff(config, pre.backoff_nanos)
}

/// Retry exhaustion: a bounded blocking acquisition cannot wait without
/// limit. Any chain of wait-and-retry transitions that starts from a fresh
/// retry state spends one retry per wait, so it holds at most
/// `max_retries + 1` states; after the last one, a failing attempt decides
/// `Failed` rather than waiting on.
pub proof fn lemma_retry_exhaustion(config: RateLimiterConfig, chain: Seq<RetryState>)
    requires
        chain.len() >= 1,
        chain[0].retries == 0,
        forall|i: int| 0 <= i < chain.len() - 1
            ==> #[trigger] spec_wait_step(config, chain[i], chain[i + 1]),
    ensures
        forall|i: int| 0 <= i < chain.len() ==> #[trigger] chain[i].retries == i,
        chain.len() <= config.max_retries + 1,
    decreases chain.len(),
{
    if chain.len() > 1 {
        let prefix = chain.drop_last();
        assert forall|i: int| 0 <= i < prefix.len() - 1
            implies #[trigger] spec_wait_step(config, prefix[i], prefix[i + 1]) by {
            assert(prefix[i] == chain[i]);
            assert(prefix[i + 1] == chain[i + 1]);
            assert(spec_wait_step(config, chain[i], chain[i + 1]));
        }
        lemma_retry_exhaustion(config, prefix);
        let last: int = chain.len() - 2;
        assert(prefix[last] == chain[last]);
        assert(chain[last].retries == last);
        assert(spec_wait_step(config, chain[last], chain[last + 1]));
        assert forall|i: int| 0 <= i < chain.len() implies #[trigger] chain[i].retries == i by {
            if i < chain.len() - 1 {
                assert(prefix[i] == chain[i]);
                assert(prefix[i].retries == i);
            }
        }
    }
}

} // verus!
