//! The fixed-window rate limiter.

use btc_pay::auth::token_claims;
use btc_pay::limiter::RateLimiter;

#[test]
fn requests_within_the_limit_pass() {
    let mut limiter = RateLimiter::new(2, 60);
    let ip = "10.0.0.1".to_string();
    assert!(!limiter.is_rate_limited(&ip, 100));
    assert!(!limiter.is_rate_limited(&ip, 110));
    assert!(limiter.is_rate_limited(&ip, 120));
    assert!(limiter.is_rate_limited(&ip, 130));
}

#[test]
fn a_full_window_resets_the_count() {
    let mut limiter = RateLimiter::new(1, 60);
    let ip = "10.0.0.2".to_string();
    assert!(!limiter.is_rate_limited(&ip, 0));
    assert!(limiter.is_rate_limited(&ip, 30));
    assert!(!limiter.is_rate_limited(&ip, 90));
    assert!(limiter.is_rate_limited(&ip, 91));
}

#[test]
fn a_zero_window_never_limits() {
    let mut limiter = RateLimiter::new(0, 0);
    let ip = "10.0.0.3".to_string();
    assert!(!limiter.is_rate_limited(&ip, 5));
    assert!(!limiter.is_rate_limited(&ip, 5));
    assert!(!limiter.is_rate_limited(&ip, 5));
}

#[test]
fn clients_are_counted_independently() {
    let mut limiter = RateLimiter::new(1, 60);
    let a = "10.0.0.4".to_string();
    let b = "10.0.0.5".to_string();
    assert!(!limiter.is_rate_limited(&a, 0));
    assert!(!limiter.is_rate_limited(&b, 1));
    assert!(limiter.is_rate_limited(&a, 2));
    assert!(limiter.is_rate_limited(&b, 3));
}

#[test]
fn a_clock_going_backwards_stays_in_the_window() {
    let mut limiter = RateLimiter::new(1, 60);
    let ip = "10.0.0.6".to_string();
    assert!(!limiter.is_rate_limited(&ip, 100));
    assert!(limiter.is_rate_limited(&ip, 40));
}

#[test]
fn claims_cover_a_full_day() {
    let claims = token_claims(&"admin".to_string(), 1_000);
    assert_eq!(claims.sub, "admin");
    assert_eq!(claims.iat, 1_000);
    assert_eq!(claims.exp, 1_000 + 24 * 3600);
}
