use openai_proxy::decimal::u64_to_decimal;
use openai_proxy::errors::GatewayError;
use openai_proxy::limiter::{rate_limit_key, Limiter};
use openai_proxy::settings::RateLimitSettings;
use openai_proxy::store::CounterStore;

fn settings(limit: usize, timeframe_seconds: usize) -> RateLimitSettings {
    RateLimitSettings { limit, timeframe_seconds, redis_url: "redis://localhost".to_string() }
}

#[test]
fn quota_runs_down_then_rejects() {
    let limiter = Limiter::new(&settings(3, 60));
    let mut store = CounterStore::new();
    let key = "alice:/chat/completions".to_string();
    let now = 1_700_000_000;
    // The first N calls are admitted with decreasing remainders, the
    // Nth with zero remaining; the (N+1)th is rejected.
    assert_eq!(limiter.check(&mut store, &key, now).unwrap(), 2);
    assert_eq!(limiter.check(&mut store, &key, now).unwrap(), 1);
    assert_eq!(limiter.check(&mut store, &key, now).unwrap(), 0);
    assert_eq!(
        limiter.check(&mut store, &key, now).unwrap_err(),
        GatewayError::RateLimitExceeded
    );
    assert_eq!(
        limiter.check(&mut store, &key, now).unwrap_err(),
        GatewayError::RateLimitExceeded
    );
}

#[test]
fn first_request_for_new_key_is_admitted() {
    let limiter = Limiter::new(&settings(5, 60));
    let mut store = CounterStore::new();
    let key = "bob:/chat/completions".to_string();
    assert_eq!(limiter.check(&mut store, &key, 100).unwrap(), 4);
}

#[test]
fn limit_of_one_admits_exactly_the_first_request() {
    let limiter = Limiter::new(&settings(1, 60));
    let mut store = CounterStore::new();
    let key = "carol:/chat/completions".to_string();
    // The first request for a new key always succeeds, with nothing
    // remaining; the second is rejected.
    assert_eq!(limiter.check(&mut store, &key, 100).unwrap(), 0);
    assert_eq!(
        limiter.check(&mut store, &key, 100).unwrap_err(),
        GatewayError::RateLimitExceeded
    );
}

#[test]
fn exhausted_key_admits_again_after_the_timeframe() {
    let limiter = Limiter::new(&settings(2, 60));
    let mut store = CounterStore::new();
    let key = "dave:/chat/completions".to_string();
    let now = 1_700_000_000;
    assert_eq!(limiter.check(&mut store, &key, now).unwrap(), 1);
    assert_eq!(limiter.check(&mut store, &key, now).unwrap(), 0);
    assert_eq!(
        limiter.check(&mut store, &key, now).unwrap_err(),
        GatewayError::RateLimitExceeded
    );
    // One timeframe later the old window's counter has expired and a
    // new window begins: the key is admitted with limit - 1 remaining.
    let later = now + 61;
    assert_eq!(limiter.check(&mut store, &key, later).unwrap(), 1);
}

#[test]
fn distinct_subjects_have_separate_budgets() {
    let limiter = Limiter::new(&settings(2, 60));
    let mut store = CounterStore::new();
    let route = "/chat/completions";
    let key_a = rate_limit_key("alice", route);
    let key_b = rate_limit_key("bob", route);
    let now = 1_700_000_000;
    // Exhaust subject A's quota.
    assert_eq!(limiter.check(&mut store, &key_a, now).unwrap(), 1);
    assert_eq!(limiter.check(&mut store, &key_a, now).unwrap(), 0);
    assert!(limiter.check(&mut store, &key_a, now).is_err());
    // Subject B is untouched: a full quota, as on a fresh store.
    assert_eq!(limiter.check(&mut store, &key_b, now).unwrap(), 1);
}

#[test]
fn admission_matches_window_counts() {
    let limiter = Limiter::new(&settings(3, 60));
    assert_eq!(limiter.admission(1).unwrap(), 2);
    assert_eq!(limiter.admission(2).unwrap(), 1);
    assert_eq!(limiter.admission(3).unwrap(), 0);
    assert_eq!(limiter.admission(4).unwrap_err(), GatewayError::RateLimitExceeded);
    assert_eq!(limiter.admission(10).unwrap_err(), GatewayError::RateLimitExceeded);
}

#[test]
fn rate_limit_key_joins_subject_and_route() {
    assert_eq!(rate_limit_key("alice", "/chat/completions"), "alice:/chat/completions");
    assert_eq!(rate_limit_key("", ""), ":");
}

#[test]
fn window_key_carries_the_window_boundaries() {
    let limiter = Limiter::new(&settings(3, 10));
    assert_eq!(limiter.window_key("k", 100), "k:90:101");
    // A clock before one whole timeframe clamps the window start to zero.
    assert_eq!(limiter.window_key("k", 5), "k:0:6");
}

#[test]
fn decimal_renders_exact_numerals() {
    assert_eq!(u64_to_decimal(0), "0");
    assert_eq!(u64_to_decimal(7), "7");
    assert_eq!(u64_to_decimal(42), "42");
    assert_eq!(u64_to_decimal(1234567890), "1234567890");
    assert_eq!(u64_to_decimal(u64::MAX), "18446744073709551615");
}
