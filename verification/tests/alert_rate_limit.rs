use phos::alert::rate_limit::{RateLimitDecision, RateLimitResult, RateLimiter};
use std::time::Duration;

const MS: u128 = 1_000_000;

#[test]
fn test_first_alert_allowed() {
    let limiter = RateLimiter::new();
    assert!(limiter.can_alert("error").is_allowed());
}

#[test]
fn test_hourly_limit() {
    let mut limiter = RateLimiter::new()
        .with_global_cooldown(Duration::ZERO)
        .with_per_condition_cooldown(Duration::ZERO)
        .with_max_per_hour(3);

    for i in 0..3 {
        assert!(limiter.can_alert(&format!("cond{i}")).is_allowed());
        limiter.record_alert(&format!("cond{i}"));
    }

    let result = limiter.can_alert("cond4");
    assert!(matches!(result, RateLimitResult::HourlyLimitReached { .. }));
}

#[test]
fn test_unlimited_hourly() {
    let mut limiter = RateLimiter::new()
        .with_global_cooldown(Duration::ZERO)
        .with_per_condition_cooldown(Duration::ZERO)
        .with_max_per_hour(0);

    for i in 0..100 {
        assert!(limiter.can_alert(&format!("cond{i}")).is_allowed());
        limiter.record_alert(&format!("cond{i}"));
    }
}

#[test]
fn rate_limit_test_reset() {
    let mut limiter = RateLimiter::new();
    limiter.record_alert("error");
    limiter.record_alert("warn");

    assert_eq!(limiter.hourly_count(), 2);

    limiter.reset();

    assert_eq!(limiter.hourly_count(), 0);
    assert!(limiter.can_alert("error").is_allowed());
}

#[test]
fn test_zero_cooldown() {
    let mut limiter = RateLimiter::new()
        .with_global_cooldown(Duration::ZERO)
        .with_per_condition_cooldown(Duration::ZERO)
        .with_max_per_hour(0);

    for _ in 0..10 {
        assert!(limiter.can_alert("error").is_allowed());
        limiter.record_alert("error");
    }
}

#[test]
fn test_rate_limit_result_is_allowed() {
    assert!(RateLimitResult::Allowed.is_allowed());

    assert!(!RateLimitResult::GlobalCooldown { remaining: Duration::from_secs(1) }.is_allowed());

    assert!(!RateLimitResult::ConditionCooldown { condition: "error".to_string(), remaining: Duration::from_secs(1) }
        .is_allowed());

    assert!(!RateLimitResult::HourlyLimitReached { remaining: Duration::from_secs(1) }.is_allowed());
}

#[test]
fn rate_limit_test_default_impl() {
    let limiter = RateLimiter::default();
    assert!(limiter.can_alert("any").is_allowed());
}

#[test]
fn test_builder_pattern() {
    let limiter = RateLimiter::new()
        .with_global_cooldown(Duration::from_secs(10))
        .with_per_condition_cooldown(Duration::from_secs(30))
        .with_max_per_hour(100);

    assert!(limiter.can_alert("test").is_allowed());
}

#[test]
fn test_hourly_count_getter() {
    let mut limiter = RateLimiter::new()
        .with_global_cooldown(Duration::ZERO)
        .with_per_condition_cooldown(Duration::ZERO);

    assert_eq!(limiter.hourly_count(), 0);

    limiter.record_alert("a");
    assert_eq!(limiter.hourly_count(), 1);

    limiter.record_alert("b");
    assert_eq!(limiter.hourly_count(), 2);
}

#[test]
fn test_condition_cooldown_remaining() {
    let mut limiter = RateLimiter::new()
        .with_global_cooldown(Duration::ZERO)
        .with_per_condition_cooldown(Duration::from_millis(100));

    limiter.record_alert("error");

    let result = limiter.can_alert("error");
    match result {
        RateLimitResult::ConditionCooldown { remaining, .. } => {
            assert!(remaining.as_millis() > 0);
            assert!(remaining.as_millis() <= 100);
        }
        _ => panic!("expected ConditionCooldown"),
    }
}

#[test]
fn global_cooldown_at_given_times() {
    let mut limiter = RateLimiter::new().with_global_cooldown_nanos(50 * MS);
    limiter.record_alert_at("error", 0);
    match limiter.decide_at("other", 10 * MS) {
        RateLimitDecision::GlobalCooldown { remaining } => assert_eq!(remaining, 40 * MS),
        _ => panic!("expected GlobalCooldown"),
    }
    assert!(matches!(limiter.decide_at("other", 50 * MS), RateLimitDecision::Allowed));
}

#[test]
fn per_condition_cooldown_at_given_times() {
    let mut limiter = RateLimiter::new()
        .with_global_cooldown_nanos(10 * MS)
        .with_per_condition_cooldown_nanos(100 * MS)
        .with_max_per_hour(0);
    limiter.record_alert_at("error", 0);
    match limiter.decide_at("error", 15 * MS) {
        RateLimitDecision::ConditionCooldown { condition, remaining } => {
            assert_eq!(condition, "error");
            assert_eq!(remaining, 85 * MS);
        }
        _ => panic!("expected ConditionCooldown"),
    }
    assert!(matches!(limiter.decide_at("peer_drop", 15 * MS), RateLimitDecision::Allowed));
    assert!(matches!(limiter.decide_at("error", 100 * MS), RateLimitDecision::Allowed));
}

#[test]
fn hourly_window_rolls_over() {
    let hour: u128 = 3_600_000_000_000;
    let mut limiter = RateLimiter::new()
        .with_global_cooldown_nanos(0)
        .with_per_condition_cooldown_nanos(0)
        .with_max_per_hour(1);
    limiter.record_alert_at("a", 0);
    match limiter.decide_at("b", 1000) {
        RateLimitDecision::HourlyLimitReached { remaining } => assert_eq!(remaining, hour - 1000),
        _ => panic!("expected HourlyLimitReached"),
    }
    assert!(matches!(limiter.decide_at("b", hour), RateLimitDecision::Allowed));
    limiter.record_alert_at("b", hour);
    assert_eq!(limiter.hourly_count(), 1);
}

#[test]
fn reset_at_forgets_everything() {
    let mut limiter = RateLimiter::new();
    limiter.record_alert_at("x", 5);
    limiter.reset_at(6);
    assert_eq!(limiter.hourly_count(), 0);
    assert!(matches!(limiter.decide_at("x", 6), RateLimitDecision::Allowed));
}

#[test]
fn result_from_decision_keeps_values() {
    match RateLimitResult::from_decision(RateLimitDecision::GlobalCooldown { remaining: 1_500_000_000 }) {
        RateLimitResult::GlobalCooldown { remaining } => assert_eq!(remaining, Duration::from_millis(1500)),
        _ => panic!("expected GlobalCooldown"),
    }
    assert!(RateLimitResult::from_decision(RateLimitDecision::Allowed).is_allowed());
}

#[test]
fn recorded_condition_is_held_back_under_an_hourly_limit() {
    let mut limiter = RateLimiter::new()
        .with_global_cooldown_nanos(10 * MS)
        .with_per_condition_cooldown_nanos(100 * MS)
        .with_max_per_hour(50);
    limiter.record_alert_at("error", 0);
    assert!(matches!(limiter.decide_at("error", 5 * MS), RateLimitDecision::GlobalCooldown { .. }));
    match limiter.decide_at("error", 20 * MS) {
        RateLimitDecision::ConditionCooldown { remaining, .. } => assert_eq!(remaining, 80 * MS),
        _ => panic!("expected ConditionCooldown"),
    }
    assert!(matches!(limiter.decide_at("other", 20 * MS), RateLimitDecision::Allowed));
    let mut full = RateLimiter::new()
        .with_global_cooldown_nanos(0)
        .with_per_condition_cooldown_nanos(100 * MS)
        .with_max_per_hour(1);
    full.record_alert_at("error", 0);
    assert!(matches!(full.decide_at("error", 20 * MS), RateLimitDecision::HourlyLimitReached { .. }));
}

#[test]
fn cooldown_durations_are_kept_exactly() {
    let limiter = RateLimiter::new()
        .with_global_cooldown(Duration::from_millis(1500))
        .with_per_condition_cooldown(Duration::new(2, 5));
    let mut l = limiter;
    l.record_alert_at("x", 0);
    match l.decide_at("x", 0) {
        RateLimitDecision::GlobalCooldown { remaining } => assert_eq!(remaining, 1_500_000_000),
        _ => panic!("expected GlobalCooldown"),
    }
    match l.decide_at("x", 1_500_000_000) {
        RateLimitDecision::ConditionCooldown { remaining, .. } => assert_eq!(remaining, 500_000_005),
        _ => panic!("expected ConditionCooldown"),
    }
}
