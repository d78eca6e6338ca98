use phos::alert::condition::AlertCondition;
use phos::alert::evaluator::ConditionEvaluator;
use phos::pattern::compile;

#[test]
fn test_evaluate_error_fires_once() {
    let mut evaluator = ConditionEvaluator::new();
    let condition = AlertCondition::Error;

    // First error should fire
    let result = evaluator.evaluate(&condition, "ERROR: something failed", 0, None, None, None);
    assert!(result.is_some());

    // Second error should not fire (fire-once)
    let result = evaluator.evaluate(&condition, "ERROR: another failure", 1, None, None, None);
    assert!(result.is_none());
}

#[test]
fn test_evaluate_error_threshold() {
    let mut evaluator = ConditionEvaluator::new();
    let condition = AlertCondition::ErrorThreshold { count: 5 };

    // Below threshold
    let result = evaluator.evaluate(&condition, "ERROR: test", 4, None, None, Some("lodestar"));
    assert!(result.is_none());

    // At threshold
    let result = evaluator.evaluate(&condition, "ERROR: test", 5, None, None, Some("lodestar"));
    assert!(result.is_some());
    let payload = result.unwrap();
    assert!(payload.title.contains("5 errors"));
    assert_eq!(payload.program, Some("lodestar".to_string()));
}

#[test]
fn test_evaluate_peer_drop() {
    let mut evaluator = ConditionEvaluator::new();
    let condition = AlertCondition::PeerDrop { threshold: 10 };

    // Set initial peer count above threshold
    evaluator.update_state(Some(15), None);

    // Peers above threshold - no alert
    let result = evaluator.evaluate(&condition, "peers=15", 0, Some(15), None, None);
    assert!(result.is_none());

    // Peers drop below threshold - should alert
    let result = evaluator.evaluate(&condition, "peers=5", 0, Some(5), None, Some("geth"));
    assert!(result.is_some());
    let payload = result.unwrap();
    assert!(payload.title.contains("Below 10"));
    assert_eq!(payload.fields.get("previous"), Some(&"15".to_string()));
    assert_eq!(payload.fields.get("current"), Some(&"5".to_string()));
}

#[test]
fn test_evaluate_pattern() {
    let mut evaluator = ConditionEvaluator::new();
    let regex = compile(r"FATAL|OOM").unwrap();
    let condition = AlertCondition::Pattern { regex };

    // No match
    let result = evaluator.evaluate(&condition, "INFO: normal log", 0, None, None, None);
    assert!(result.is_none());

    // Match
    let result = evaluator.evaluate(&condition, "FATAL: out of memory", 0, None, None, None);
    assert!(result.is_some());
}

#[test]
fn test_update_state() {
    let mut evaluator = ConditionEvaluator::new();

    evaluator.update_state(Some(50), Some(12345));
    assert_eq!(evaluator.last_peer_count, Some(50));
    assert_eq!(evaluator.last_slot, Some(12345));
    assert_eq!(evaluator.lines_since_slot_change, 0);

    // Same slot, lines counter should increase
    evaluator.update_state(None, Some(12345));
    assert_eq!(evaluator.lines_since_slot_change, 1);

    // New slot, counter should reset
    evaluator.update_state(None, Some(12346));
    assert_eq!(evaluator.lines_since_slot_change, 0);
}

#[test]
fn evaluator_test_reset() {
    let mut evaluator = ConditionEvaluator::new();

    // Set some state
    evaluator.update_state(Some(50), Some(12345));
    evaluator.error_fired = true;

    // Reset
    evaluator.reset();

    assert_eq!(evaluator.last_peer_count, None);
    assert_eq!(evaluator.last_slot, None);
    assert!(!evaluator.error_fired);
}

// =========================================================================
// EDGE CASE TESTS
// =========================================================================

#[test]
fn test_error_fires_after_reset() {
    let mut evaluator = ConditionEvaluator::new();
    let condition = AlertCondition::Error;

    // First error fires
    let result = evaluator.evaluate(&condition, "ERROR: first", 0, None, None, None);
    assert!(result.is_some());

    // Second error blocked
    let result = evaluator.evaluate(&condition, "ERROR: second", 1, None, None, None);
    assert!(result.is_none());

    // Reset and error fires again
    evaluator.reset();
    let result = evaluator.evaluate(&condition, "ERROR: third", 0, None, None, None);
    assert!(result.is_some());
}

#[test]
fn test_error_requires_pattern_match() {
    let mut evaluator = ConditionEvaluator::new();
    let condition = AlertCondition::Error;

    // INFO line should not fire error condition
    let result = evaluator.evaluate(&condition, "INFO: all good", 0, None, None, None);
    assert!(result.is_none());

    // WARN line should not fire error condition
    let result = evaluator.evaluate(&condition, "WARN: be careful", 0, None, None, None);
    assert!(result.is_none());
}

#[test]
fn test_error_threshold_fires_exactly_at_count() {
    let mut evaluator = ConditionEvaluator::new();
    let condition = AlertCondition::ErrorThreshold { count: 3 };

    // Below threshold
    let result = evaluator.evaluate(&condition, "ERROR: 1", 1, None, None, None);
    assert!(result.is_none());

    let result = evaluator.evaluate(&condition, "ERROR: 2", 2, None, None, None);
    assert!(result.is_none());

    // Exactly at threshold - should fire
    let result = evaluator.evaluate(&condition, "ERROR: 3", 3, None, None, None);
    assert!(result.is_some());

    // Above threshold - should not fire again
    let result = evaluator.evaluate(&condition, "ERROR: 4", 4, None, None, None);
    assert!(result.is_none());
}

#[test]
fn test_error_threshold_zero() {
    let mut evaluator = ConditionEvaluator::new();
    let condition = AlertCondition::ErrorThreshold { count: 0 };

    // Zero threshold fires on first error (count=0)
    let result = evaluator.evaluate(&condition, "ERROR: first", 0, None, None, None);
    assert!(result.is_some());
}

#[test]
fn test_peer_drop_requires_crossing_threshold() {
    let mut evaluator = ConditionEvaluator::new();
    let condition = AlertCondition::PeerDrop { threshold: 10 };

    // Start below threshold - should not alert (no crossing)
    evaluator.update_state(Some(5), None);
    let result = evaluator.evaluate(&condition, "peers=5", 0, Some(5), None, None);
    assert!(result.is_none());

    // Still below - no crossing
    evaluator.update_state(Some(3), None);
    let result = evaluator.evaluate(&condition, "peers=3", 0, Some(3), None, None);
    assert!(result.is_none());
}

#[test]
fn test_peer_drop_no_alert_without_peer_count() {
    let mut evaluator = ConditionEvaluator::new();
    let condition = AlertCondition::PeerDrop { threshold: 10 };

    // No peer count provided - should not fire
    let result = evaluator.evaluate(&condition, "some log", 0, None, None, None);
    assert!(result.is_none());
}

#[test]
fn test_sync_stall_requires_slot_history() {
    let mut evaluator = ConditionEvaluator::new();
    let condition = AlertCondition::SyncStall;

    // No slot history - should not fire even after many lines
    for _ in 0..150 {
        evaluator.update_state(None, None);
    }
    let result = evaluator.evaluate(&condition, "some log", 0, None, None, None);
    assert!(result.is_none());
}

#[test]
fn test_sync_stall_fires_after_threshold() {
    let mut evaluator = ConditionEvaluator::new();
    let condition = AlertCondition::SyncStall;

    // Set initial slot
    evaluator.update_state(None, Some(12345));

    // Simulate many lines without slot change
    for _ in 0..101 {
        evaluator.update_state(None, Some(12345)); // Same slot
    }

    // Should fire now
    let result = evaluator.evaluate(&condition, "some log", 0, None, Some(12345), None);
    assert!(result.is_some());
}

#[test]
fn test_sync_stall_resets_after_firing() {
    let mut evaluator = ConditionEvaluator::new();
    let condition = AlertCondition::SyncStall;

    // Set initial slot and exceed threshold
    evaluator.update_state(None, Some(12345));
    for _ in 0..101 {
        evaluator.update_state(None, Some(12345));
    }

    // Fire once
    let result = evaluator.evaluate(&condition, "stalled", 0, None, Some(12345), None);
    assert!(result.is_some());

    // Immediately after, should not fire (counter reset)
    let result = evaluator.evaluate(&condition, "still stalled", 0, None, Some(12345), None);
    assert!(result.is_none());
}

#[test]
fn test_pattern_complex_regex() {
    let mut evaluator = ConditionEvaluator::new();
    let regex = compile(r"error\[E\d{4}\]").unwrap(); // Rust compiler error pattern
    let condition = AlertCondition::Pattern { regex };

    assert!(
        evaluator
            .evaluate(
                &condition,
                "error[E0382]: borrow of moved value",
                0,
                None,
                None,
                None
            )
            .is_some()
    );

    assert!(
        evaluator
            .evaluate(&condition, "warning: unused variable", 0, None, None, None)
            .is_none()
    );
}

#[test]
fn test_evaluate_with_program() {
    let mut evaluator = ConditionEvaluator::new();
    let condition = AlertCondition::Error;

    let result =
        evaluator.evaluate(&condition, "ERROR: test", 0, None, None, Some("lighthouse"));

    assert!(result.is_some());
    let payload = result.unwrap();
    assert_eq!(payload.program, Some("lighthouse".to_string()));
}

#[test]
fn evaluator_test_default_impl() {
    let evaluator = ConditionEvaluator::default();
    assert!(evaluator.last_peer_count.is_none());
    assert!(evaluator.last_slot.is_none());
    assert!(!evaluator.error_fired);
}

#[test]
fn error_alert_payload_contents() {
    let mut evaluator = ConditionEvaluator::new();
    let payload = evaluator.evaluate(&AlertCondition::Error, "fatal: disk gone", 7, None, None, Some("geth")).unwrap();
    assert_eq!(payload.title, "Error Detected");
    assert_eq!(payload.message, "fatal: disk gone");
    assert_eq!(payload.program, Some("geth".to_string()));
    assert!(evaluator.error_fired);
}

#[test]
fn error_threshold_payload_fields() {
    let mut evaluator = ConditionEvaluator::new();
    let payload = evaluator
        .evaluate(&AlertCondition::ErrorThreshold { count: 2 }, "ERROR x", 2, None, None, None)
        .unwrap();
    assert_eq!(payload.title, "Error Threshold Reached: 2 errors");
    assert_eq!(payload.fields.get("error_count"), Some(&"2".to_string()));
    assert!(evaluator.evaluate(&AlertCondition::ErrorThreshold { count: 2 }, "all fine", 2, None, None, None).is_none());
}

#[test]
fn sync_stall_payload_fields() {
    let mut evaluator = ConditionEvaluator::new();
    evaluator.update_state(None, Some(9));
    for _ in 0..101 {
        evaluator.update_state(None, Some(9));
    }
    assert_eq!(evaluator.lines_since_slot_change(), 101);
    let payload = evaluator.evaluate(&AlertCondition::SyncStall, "s", 0, None, Some(9), None).unwrap();
    assert_eq!(payload.fields.get("last_slot"), Some(&"9".to_string()));
    assert_eq!(evaluator.lines_since_slot_change(), 0);
}

#[test]
fn pattern_condition_does_not_change_state() {
    let mut evaluator = ConditionEvaluator::new();
    evaluator.update_state(Some(3), Some(4));
    let cond = AlertCondition::Pattern { regex: compile("OOM").unwrap() };
    let payload = evaluator.evaluate(&cond, "OOM killer", 0, None, None, None).unwrap();
    assert_eq!(payload.message, "OOM killer");
    assert_eq!(payload.title, "Pattern Match");
    assert_eq!(payload.fields.get("pattern"), Some(&"OOM".to_string()));
    assert_eq!(evaluator.last_peer_count, Some(3));
    assert_eq!(evaluator.last_slot, Some(4));
    assert!(!evaluator.error_fired);
}
