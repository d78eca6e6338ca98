use phos::alert::condition::AlertCondition;
use phos::alert::formatter::WebhookService;
use phos::alert::{AlertManager, AlertManagerBuilder};

#[test]
fn test_alert_manager_builder() {
    let manager = AlertManagerBuilder::new()
        .url("https://discord.com/api/webhooks/123/abc")
        .condition("error")
        .unwrap()
        .condition("peer-drop:5")
        .unwrap()
        .program("lodestar")
        .cooldown_secs(60)
        .build();

    assert!(manager.is_some());
    let manager = manager.unwrap();
    assert_eq!(manager.condition_count(), 2);
    assert_eq!(manager.url(), "https://discord.com/api/webhooks/123/abc");
}

#[test]
fn test_alert_manager_builder_no_url() {
    let manager = AlertManagerBuilder::new().condition("error").unwrap().build();
    assert!(manager.is_none());
}

#[test]
fn test_alert_manager_builder_telegram() {
    let manager = AlertManagerBuilder::new()
        .url("https://api.telegram.org/bot123:ABC/sendMessage")
        .chat_id("-1001234567890")
        .condition("error")
        .unwrap()
        .build();

    assert!(manager.is_some());
    let manager = manager.unwrap();
    assert_eq!(manager.service(), &WebhookService::Telegram { chat_id: "-1001234567890".to_string() });
}

#[test]
fn test_alert_manager_default_condition() {
    let manager = AlertManagerBuilder::new().url("https://example.com/webhook").build();

    assert!(manager.is_some());
    let manager = manager.unwrap();
    assert_eq!(manager.condition_count(), 1);
}

#[test]
fn builder_rejects_bad_condition() {
    assert!(AlertManagerBuilder::new().condition("nope").is_err());
    let list = vec!["error".to_string(), "bogus".to_string()];
    assert!(AlertManagerBuilder::new().conditions(&list).is_err());
    let list = vec!["error".to_string(), "sync-stall".to_string()];
    let manager = AlertManagerBuilder::new().url("https://x").conditions(&list).unwrap().build().unwrap();
    assert_eq!(manager.condition_count(), 2);
}

#[test]
fn check_line_raises_and_rate_limits() {
    let mut manager = AlertManager::new("https://discord.com/api/webhooks/1/a")
        .with_condition(AlertCondition::Error)
        .with_condition(AlertCondition::ErrorThreshold { count: 1 })
        .with_program("geth");
    let alerts = manager.check_line_at("ERROR boom", 1, None, None, 0);
    // both conditions are checked against the limiter before either is recorded
    assert_eq!(alerts.len(), 2);
    assert_eq!(alerts[0].condition_type, "error");
    assert_eq!(alerts[1].condition_type, "error_threshold");
    assert_eq!(alerts[0].payload.program, Some("geth".to_string()));
    let body: serde_json::Value = serde_json::from_str(&alerts[0].body).unwrap();
    assert!(body["embeds"][0]["title"].as_str().unwrap().starts_with("[ERR]"));
    assert_eq!(manager.hourly_count(), 2);
    // the error condition fires once; nothing else is allowed inside the cooldown
    let alerts = manager.check_line_at("ERROR again", 1, None, None, 1);
    assert!(alerts.is_empty());
}

#[test]
fn check_line_telegram_body_and_reset() {
    let mut manager = AlertManager::new("https://api.telegram.org/botX/sendMessage")
        .with_chat_id("77")
        .with_condition(AlertCondition::Error);
    assert_eq!(manager.content_type(), "application/json");
    let alerts = manager.check_line_at("fatal thing", 0, None, None, 0);
    assert_eq!(alerts.len(), 1);
    let body: serde_json::Value = serde_json::from_str(&alerts[0].body).unwrap();
    assert_eq!(body["chat_id"], "77");
    manager.reset();
    assert_eq!(manager.hourly_count(), 0);
    assert_eq!(manager.lines_since_slot_change(), 0);
}

#[test]
fn cooldown_blocks_repeat_alerts() {
    let mut manager = AlertManager::new("https://example.com/hook")
        .with_condition(AlertCondition::Pattern { regex: phos::pattern::compile("OOM").unwrap() })
        .with_cooldown(std::time::Duration::from_secs(10));
    assert_eq!(manager.check_line_at("OOM", 0, None, None, 0).len(), 1);
    assert!(manager.check_line_at("OOM", 0, None, None, 9_000_000_000).is_empty());
    assert_eq!(manager.check_line_at("OOM", 0, None, None, 10_000_000_000).len(), 1);
}
