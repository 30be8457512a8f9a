//! Tests for the token-bucket rate limiter and the retry policy layer.

use ferriclink_core::errors::FerricLinkError;
use ferriclink_core::rate_limiters::{
    AdvancedRateLimiter, InMemoryRateLimiter, RateLimiterConfig, RetryDecision, TOKEN_SCALE,
};

/// One second, in nanoseconds.
const SECOND: u64 = 1_000_000_000;

#[test]
fn test_rate_limiter_creation() {
    // rate 2.0/s, check every 0.1 s, bucket of 5.0 tokens, in fixed point
    let rate_limiter = InMemoryRateLimiter::new(2 * TOKEN_SCALE, TOKEN_SCALE / 10, 5 * TOKEN_SCALE);
    assert_eq!(rate_limiter.requests_per_second(), 2 * TOKEN_SCALE);
    assert_eq!(rate_limiter.check_every_n_seconds(), TOKEN_SCALE / 10);
    assert_eq!(rate_limiter.max_bucket_size(), 5 * TOKEN_SCALE);
}

#[test]
fn test_in_memory_rate_limiter_basic() {
    // rate 1.0/s, check every 0.1 s, bucket of 2.0 tokens
    let mut rate_limiter = InMemoryRateLimiter::new(TOKEN_SCALE, TOKEN_SCALE / 10, 2 * TOKEN_SCALE);
    let t0: u64 = 100 * SECOND;

    // First request should succeed
    assert!(rate_limiter.consume_at(t0));

    // Second request should fail immediately
    assert!(!rate_limiter.consume_at(t0 + 1_000_000));

    // Wait a bit and try again
    assert!(rate_limiter.consume_at(t0 + 1_100_000_000));
}

#[test]
fn test_in_memory_rate_limiter_burst() {
    // rate 10.0/s, bucket of 5.0 tokens
    let mut rate_limiter =
        InMemoryRateLimiter::new(10 * TOKEN_SCALE, TOKEN_SCALE / 100, 5 * TOKEN_SCALE);
    let t0: u64 = 100 * SECOND;

    // First call initializes the timer and should succeed
    assert!(rate_limiter.consume_at(t0));

    // After 200 ms, more tokens have accumulated
    let t1 = t0 + 200_000_000;
    let mut successful = 1;
    for k in 0..4u64 {
        if rate_limiter.consume_at(t1 + k) {
            successful += 1;
        }
    }
    assert!(successful >= 2);
}

#[test]
fn test_burst_scenario() {
    // rate 1/s, bucket 2: the first non-blocking acquire succeeds, an
    // immediate second one fails, and one after 1.1 s succeeds again.
    let mut limiter = InMemoryRateLimiter::new(TOKEN_SCALE, TOKEN_SCALE / 10, 2 * TOKEN_SCALE);
    let t0: u64 = 50 * SECOND;
    assert!(limiter.consume_at(t0));
    assert!(!limiter.consume_at(t0));
    assert!(limiter.consume_at(t0 + 1_100_000_000));
}

#[test]
fn test_available_tokens() {
    let mut rate_limiter = InMemoryRateLimiter::new(TOKEN_SCALE, TOKEN_SCALE / 10, 2 * TOKEN_SCALE);
    let t0: u64 = 100 * SECOND;

    // Initially one token, to allow the first request
    assert_eq!(rate_limiter.available_tokens(), TOKEN_SCALE);

    // First call should succeed and consume the token
    rate_limiter.consume_at(t0);
    assert_eq!(rate_limiter.available_tokens(), 0);

    // After 1.1 seconds a token has accumulated
    assert!(rate_limiter.consume_at(t0 + 1_100_000_000));
    assert!(rate_limiter.available_tokens() <= 2 * TOKEN_SCALE);
}

#[test]
fn test_token_bounds_observed() {
    // At every observation, 0 <= available_tokens <= max_bucket_size.
    let mut limiter = InMemoryRateLimiter::new(3 * TOKEN_SCALE, TOKEN_SCALE / 10, 2 * TOKEN_SCALE);
    let mut t: u64 = SECOND;
    for step in 0..50u64 {
        limiter.consume_at(t);
        assert!(limiter.available_tokens() <= limiter.max_bucket_size());
        t += (step % 7) * 100_000_000;
    }
}

#[test]
fn test_sub_token_elapsed_not_banked() {
    // Elapsed time worth less than one whole token adds nothing.
    let mut limiter = InMemoryRateLimiter::new(TOKEN_SCALE, TOKEN_SCALE / 10, 2 * TOKEN_SCALE);
    let t0: u64 = 10 * SECOND;
    assert!(limiter.consume_at(t0));
    // 0.9 s at 1/s is less than one token: still nothing available
    assert!(!limiter.consume_at(t0 + 900_000_000));
    // and the clock was not advanced by the skipped refill: 1.05 s after
    // the first call one whole token is there
    assert!(limiter.consume_at(t0 + 1_050_000_000));
}

#[test]
fn test_try_new_rejects_invalid_configuration() {
    assert!(InMemoryRateLimiter::try_new(0, TOKEN_SCALE / 10, TOKEN_SCALE).is_err());
    assert!(InMemoryRateLimiter::try_new(TOKEN_SCALE, 0, TOKEN_SCALE).is_err());
    assert!(InMemoryRateLimiter::try_new(TOKEN_SCALE, TOKEN_SCALE / 10, TOKEN_SCALE - 1).is_err());
    let err = InMemoryRateLimiter::try_new(0, TOKEN_SCALE / 10, TOKEN_SCALE).unwrap_err();
    assert!(matches!(err, FerricLinkError::Configuration(_)));
    assert!(InMemoryRateLimiter::try_new(TOKEN_SCALE, TOKEN_SCALE / 10, TOKEN_SCALE).is_ok());
}

#[test]
fn test_serialization() {
    let rate_limiter = InMemoryRateLimiter::new(2 * TOKEN_SCALE, TOKEN_SCALE / 10, 5 * TOKEN_SCALE);
    let config = rate_limiter.to_config();
    let deserialized_rate_limiter = InMemoryRateLimiter::from_config(config);

    assert_eq!(
        rate_limiter.requests_per_second(),
        deserialized_rate_limiter.requests_per_second()
    );
    assert_eq!(
        rate_limiter.check_every_n_seconds(),
        deserialized_rate_limiter.check_every_n_seconds()
    );
    assert_eq!(
        rate_limiter.max_bucket_size(),
        deserialized_rate_limiter.max_bucket_size()
    );
}

#[test]
fn test_advanced_rate_limiter() {
    let config = RateLimiterConfig {
        use_exponential_backoff: true,
        max_backoff_nanos: 1_000_000_000,
        initial_backoff_nanos: 10_000_000,
        max_retries: 3,
        log_events: false,
    };

    // rate 1.0/s, bucket of 1.0 tokens
    let mut rate_limiter =
        AdvancedRateLimiter::new(TOKEN_SCALE, TOKEN_SCALE / 100, TOKEN_SCALE, config);
    let t0: u64 = 100 * SECOND;

    // First blocking acquisition succeeds on the initial token
    let mut state = rate_limiter.retry_begin();
    assert_eq!(
        rate_limiter.acquire_with_retry_step(true, t0, &mut state),
        RetryDecision::Acquired
    );

    // Second blocking acquisition succeeds after waiting through retries
    let mut state = rate_limiter.retry_begin();
    let mut now = t0;
    let mut acquired = false;
    for _ in 0..10 {
        match rate_limiter.acquire_with_retry_step(true, now, &mut state) {
            RetryDecision::Acquired => {
                acquired = true;
                break;
            }
            RetryDecision::Wait(backoff) => now += backoff.max(500_000_000),
            other => panic!("unexpected decision: {other:?}"),
        }
    }
    assert!(acquired);
}

#[test]
fn test_retry_exhaustion_scenario() {
    // rate 0.5/s, max_retries = 2, small initial backoff, bucket size 1:
    // three rapid blocking acquisitions end in a rate-limit-exceeded error,
    // not an indefinite wait.
    let config = RateLimiterConfig {
        use_exponential_backoff: true,
        max_backoff_nanos: 20_000_000,
        initial_backoff_nanos: 5_000_000,
        max_retries: 2,
        log_events: false,
    };
    let mut limiter = AdvancedRateLimiter::new(TOKEN_SCALE / 2, TOKEN_SCALE / 100, TOKEN_SCALE, config);
    let mut now: u64 = 100 * SECOND;

    let mut outcomes = Vec::new();
    for _ in 0..3 {
        let mut state = limiter.retry_begin();
        let outcome = loop {
            match limiter.acquire_with_retry_step(true, now, &mut state) {
                RetryDecision::Acquired => break Ok(true),
                RetryDecision::GiveUp => break Ok(false),
                RetryDecision::Failed => break Err(limiter.rate_limit_error()),
                RetryDecision::Wait(backoff) => now += backoff,
            }
        };
        outcomes.push(outcome);
    }

    // The first acquisition takes the initial token; the later rapid ones
    // exhaust their retries long before the 2-second refill.
    assert!(outcomes[0].is_ok());
    let err = outcomes[2].as_ref().unwrap_err();
    assert!(err.to_string().contains("Max retries exceeded for rate limiter"));
    assert_eq!(
        err.error_code(),
        Some(ferriclink_core::errors::ErrorCode::ModelRateLimit)
    );
}

#[test]
fn test_backoff_doubles_and_caps() {
    let config = RateLimiterConfig {
        use_exponential_backoff: true,
        max_backoff_nanos: 40,
        initial_backoff_nanos: 10,
        max_retries: 5,
        log_events: false,
    };
    let mut limiter = AdvancedRateLimiter::new(TOKEN_SCALE, TOKEN_SCALE, TOKEN_SCALE, config);
    let t0: u64 = 100 * SECOND;
    // drain the initial token
    let mut state = limiter.retry_begin();
    assert_eq!(
        limiter.acquire_with_retry_step(true, t0, &mut state),
        RetryDecision::Acquired
    );
    // repeated failing attempts at the same instant: waits of 10, 20, 40,
    // 40 nanoseconds, capped at the maximum backoff
    let mut state = limiter.retry_begin();
    let mut waits = Vec::new();
    for _ in 0..4 {
        match limiter.acquire_with_retry_step(true, t0, &mut state) {
            RetryDecision::Wait(w) => waits.push(w),
            RetryDecision::Failed => break,
            other => panic!("unexpected decision: {other:?}"),
        }
    }
    assert_eq!(waits, vec![10, 20, 40, 40]);
}

#[test]
fn test_update_config_keeps_bucket_state() {
    let mut limiter = AdvancedRateLimiter::new(
        TOKEN_SCALE,
        TOKEN_SCALE / 10,
        2 * TOKEN_SCALE,
        RateLimiterConfig::default(),
    );
    let t0: u64 = 100 * SECOND;
    let mut state = limiter.retry_begin();
    limiter.acquire_with_retry_step(false, t0, &mut state);
    let tokens_before = limiter.inner.available_tokens();

    let looser = RateLimiterConfig {
        use_exponential_backoff: false,
        max_backoff_nanos: 1,
        initial_backoff_nanos: 1,
        max_retries: 100,
        log_events: true,
    };
    limiter.update_config(looser);
    assert_eq!(limiter.inner.available_tokens(), tokens_before);
    assert_eq!(limiter.config().max_retries, 100);
}

#[test]
fn test_default_retry_policy() {
    let config = RateLimiterConfig::default();
    assert!(config.use_exponential_backoff);
    assert_eq!(config.max_backoff_nanos, 60_000_000_000);
    assert_eq!(config.initial_backoff_nanos, 100_000_000);
    assert_eq!(config.max_retries, 5);
    assert!(!config.log_events);
}

#[test]
fn test_consume_with_clock() {
    // The clock-reading entry point behaves like a consume at some time.
    let mut limiter = InMemoryRateLimiter::new(TOKEN_SCALE, TOKEN_SCALE / 10, 2 * TOKEN_SCALE);
    assert!(limiter.consume());
    assert!(limiter.available_tokens() <= limiter.max_bucket_size());
}
