use bsds_core::rate_limit::{login_rate_limit, rate_limit_key, rate_limit_key_for_user, RateLimiter};

#[test]
fn test_allows_under_limit() {
    let mut limiter = RateLimiter::new();
    let result = limiter.check("test", 5, 60_000);
    assert!(result.success);
    assert_eq!(result.remaining, 4);
}

#[test]
fn test_blocks_over_limit() {
    let mut limiter = RateLimiter::new();
    for _ in 0..5 {
        limiter.check("test", 5, 60_000);
    }
    let result = limiter.check("test", 5, 60_000);
    assert!(!result.success);
    assert_eq!(result.remaining, 0);
}

#[test]
fn test_different_keys_independent() {
    let mut limiter = RateLimiter::new();
    for _ in 0..5 {
        limiter.check("a", 5, 60_000);
    }
    let result = limiter.check("b", 5, 60_000);
    assert!(result.success);
}

#[test]
fn test_rate_limit_key() {
    assert_eq!(rate_limit_key("login", Some("1.2.3.4, 5.6.7.8"), None), "login:1.2.3.4");
    assert_eq!(rate_limit_key("login", None, Some("9.8.7.6")), "login:9.8.7.6");
    assert_eq!(rate_limit_key("login", None, None), "login:unknown");
}

#[test]
fn test_rate_limit_key_for_user() {
    assert_eq!(rate_limit_key_for_user("user-123", "api"), "api:user:user-123");
}

#[test]
fn test_clear() {
    let mut limiter = RateLimiter::new();
    limiter.check("test", 5, 60_000);
    assert_eq!(limiter.store_size(), 1);
    limiter.clear();
    assert_eq!(limiter.store_size(), 0);
}

#[test]
fn window_slides_at_fixed_times() {
    let mut limiter = RateLimiter::new();
    for t in 0..3u64 {
        assert!(limiter.check_at("k", 3, 1_000, 100 + t).success);
    }
    let blocked = limiter.check_at("k", 3, 1_000, 500);
    assert!(!blocked.success);
    assert_eq!(blocked.reset_at_ms, 1_100);
    let later = limiter.check_at("k", 3, 1_000, 1_101);
    assert!(later.success);
    assert_eq!(later.remaining, 1);
    assert_eq!(later.reset_at_ms, 1_102);
}

#[test]
fn cleanup_drops_stale_keys() {
    let mut limiter = RateLimiter::new();
    limiter.check_at("old", 5, 1_000, 10);
    limiter.check_at("new", 5, 1_000, 5_000);
    limiter.cleanup_at(1_000, 5_500);
    assert_eq!(limiter.store_size(), 1);
}

#[test]
fn login_limit_config() {
    let c = login_rate_limit();
    assert_eq!(c.max_attempts, 5);
    assert_eq!(c.window_ms, 15 * 60 * 1000);
}
