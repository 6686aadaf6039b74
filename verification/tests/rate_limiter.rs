//! The sliding-window rate limiter, driven with explicit clock readings.

use mailgate::rate_limit::{RateLimitState, RateType, ServerLimit};

#[test]
fn three_per_minute_admits_three_then_denies() {
    // limit 3 per minute: three calls inside the window pass, the fourth
    // is denied.
    let mut state = RateLimitState::new(RateType::PerMinute(3), 60);
    let now: i64 = 1_000_000;
    assert!(state.full_check_on_the_limit("A".to_string(), now));
    assert!(state.full_check_on_the_limit("A".to_string(), now + 1));
    assert!(state.full_check_on_the_limit("A".to_string(), now + 2));
    assert!(!state.full_check_on_the_limit("A".to_string(), now + 3));
}

#[test]
fn idle_client_resets_to_one_and_is_admitted() {
    let mut state = RateLimitState::new(RateType::PerMinute(3), 60);
    let now: i64 = 1_000_000;
    for k in 0..4 {
        state.full_check_on_the_limit("A".to_string(), now + k);
    }
    assert!(!state.full_check_on_the_limit("A".to_string(), now + 4));
    // After the reset timeout passes with no calls, the next call is
    // admitted and the count starts over at one.
    let later = now + 4 + 61;
    assert!(state.full_check_on_the_limit("A".to_string(), later));
    let record = state.get_client("A").unwrap();
    assert_eq!(record.count, 1);
    assert_eq!(record.last_request, later);
    assert_eq!(record.first_request, later);
}

#[test]
fn clients_are_throttled_independently() {
    let mut state = RateLimitState::new(RateType::PerMinute(1), 600);
    let now: i64 = 5_000;
    assert!(state.full_check_on_the_limit("A".to_string(), now));
    assert!(!state.full_check_on_the_limit("A".to_string(), now + 1));
    assert!(state.full_check_on_the_limit("B".to_string(), now + 2));
}

#[test]
fn first_request_creates_a_record_counting_one() {
    let mut state = RateLimitState::new(RateType::PerMinute(5), 60);
    assert!(state.get_client("A").is_none());
    assert!(state.full_check_on_the_limit("A".to_string(), 100));
    let record = state.get_client("A").unwrap();
    assert_eq!(record.ip, "A");
    assert_eq!(record.count, 1);
    assert_eq!(record.last_request, 100);
    assert_eq!(record.first_request, 100);
}

#[test]
fn add_client_increments_and_moves_last_seen() {
    let mut state = RateLimitState::new(RateType::PerMinute(5), 60);
    state.add_client("A".to_string(), 100);
    state.add_client("A".to_string(), 130);
    let record = state.get_client("A").unwrap();
    assert_eq!(record.count, 2);
    assert_eq!(record.last_request, 130);
    assert_eq!(record.first_request, 100);
}

#[test]
fn reset_client_zeroes_and_restamps() {
    let mut state = RateLimitState::new(RateType::PerMinute(5), 60);
    state.add_client("A".to_string(), 100);
    assert!(state.reset_client("A", 250));
    let record = state.get_client("A").unwrap();
    assert_eq!(record.count, 0);
    assert_eq!(record.last_request, 250);
    assert_eq!(record.first_request, 250);
    assert!(!state.reset_client("B", 250));
}

#[test]
fn on_the_limit_denies_unknown_clients() {
    let mut state = RateLimitState::new(RateType::PerMinute(5), 60);
    assert!(!state.on_the_limit("ghost", 100));
}

#[test]
fn passed_reset_timeout_watches_last_seen() {
    let mut state = RateLimitState::new(RateType::PerMinute(5), 60);
    state.add_client("A".to_string(), 100);
    assert!(!state.passed_reset_timeout("A", 160));
    assert!(state.passed_reset_timeout("A", 161));
    assert!(!state.passed_reset_timeout("B", 161));
}

#[test]
fn zero_limit_denies_even_the_first_request() {
    let mut state = RateLimitState::new(RateType::PerMinute(0), 60);
    assert!(!state.full_check_on_the_limit("A".to_string(), 100));
}

#[test]
fn server_limit_counts_and_checks() {
    let mut limit = ServerLimit::new(RateType::PerSecond(2), 60, 1_000);
    limit.increment();
    limit.increment();
    // two counted, within the window, not above the limit
    assert!(limit.check(1_000));
    limit.increment();
    // three counted: above the limit within the window
    assert!(!limit.check(1_000));
}

#[test]
fn server_limit_resets_after_idle_timeout() {
    let mut limit = ServerLimit::new(RateType::PerSecond(1), 60, 1_000);
    limit.increment();
    limit.increment();
    assert!(!limit.check(1_001));
    // past the idle timeout the counter starts over and requests pass again
    assert!(limit.check(1_061));
    assert!(limit.check(1_061));
}

#[test]
fn server_limit_reset_is_explicit_too() {
    let mut limit = ServerLimit::new(RateType::PerMinute(1), 600, 0);
    limit.increment();
    limit.increment();
    assert!(!limit.check(10));
    limit.reset(10);
    assert!(limit.check(11));
}
