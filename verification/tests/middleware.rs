use rax_ftp_server::middleware::logging::{log_command, log_connection};
use rax_ftp_server::middleware::rate_limit::RateLimiter;
use rax_ftp_server::middleware::security::{check_suspicious_activity, is_allowed_ip};
use std::time::Duration;

#[test]
fn rate_limit_window() {
    let ms: u128 = 1_000_000;
    let mut r = RateLimiter::new(2, Duration::from_secs(1));
    assert!(r.is_allowed_at("a", 0));
    assert!(r.is_allowed_at("a", 10 * ms));
    assert!(!r.is_allowed_at("a", 20 * ms));
    // Other clients are counted apart.
    assert!(r.is_allowed_at("b", 20 * ms));
    // Exactly one window after the first request it still counts.
    assert!(!r.is_allowed_at("a", 1000 * ms));
    // One nanosecond later it no longer does.
    assert!(r.is_allowed_at("a", 1000 * ms + 1));
    assert!(!r.is_allowed_at("a", 1005 * ms));
    assert!(r.is_allowed_at("a", 2002 * ms));
}

#[test]
fn rate_limit_zero_allows_nothing() {
    let mut r = RateLimiter::new(0, Duration::from_secs(60));
    assert!(!r.is_allowed_at("a", 0));
    assert!(!r.is_allowed("a"));
}

#[test]
fn rate_limit_with_clock() {
    let mut r = RateLimiter::new(3, Duration::from_secs(60));
    assert!(r.is_allowed("c"));
    assert!(r.is_allowed("c"));
    assert!(r.is_allowed("c"));
    assert!(!r.is_allowed("c"));
}

#[test]
fn security_checks() {
    assert!(is_allowed_ip("10.0.0.1"));
    assert!(is_allowed_ip(""));
    assert!(!check_suspicious_activity("RETR ../../etc/passwd"));
}

#[test]
fn log_lines() {
    assert_eq!(log_connection("127.0.0.1:5000"), "Client connected: 127.0.0.1:5000");
    assert_eq!(log_command("127.0.0.1:5000", "PWD"), "Client 127.0.0.1:5000 executed: PWD");
}
