use phos::alert::condition::AlertSeverity;
use phos::alert::formatter::{
    current_timestamp, format_timestamp, is_leap_year, truncate, AlertPayload, FieldMap, WebhookService,
};

#[test]
fn test_webhook_service_detect_discord() {
    let service = WebhookService::detect("https://discord.com/api/webhooks/123456789/abcdefghijklmnop");
    assert_eq!(service, WebhookService::Discord);

    let service = WebhookService::detect("https://discordapp.com/api/webhooks/123456789/abcdefghijklmnop");
    assert_eq!(service, WebhookService::Discord);
}

#[test]
fn test_webhook_service_detect_telegram() {
    let service = WebhookService::detect("https://api.telegram.org/bot123:ABC/sendMessage");
    assert!(matches!(service, WebhookService::Telegram { .. }));
}

#[test]
fn test_webhook_service_detect_generic() {
    let service = WebhookService::detect("https://hooks.example.com/webhook");
    assert_eq!(service, WebhookService::Generic);
}

#[test]
fn test_alert_payload_builder() {
    let payload = AlertPayload::new("Test Alert", "Something happened")
        .with_severity(AlertSeverity::Error)
        .with_program("lodestar")
        .with_field("peers", "42");

    assert_eq!(payload.title, "Test Alert");
    assert_eq!(payload.message, "Something happened");
    assert_eq!(payload.severity, AlertSeverity::Error);
    assert_eq!(payload.program, Some("lodestar".to_string()));
    assert_eq!(payload.fields.get("peers"), Some(&"42".to_string()));
}

#[test]
fn test_truncate() {
    assert_eq!(truncate("hello", 10), "hello");
    assert_eq!(truncate("hello world", 5), "hello");
    assert_eq!(truncate("hello", 5), "hello");
}

#[test]
fn test_current_timestamp_format() {
    let ts = current_timestamp();
    assert!(ts.contains('T'));
    assert!(ts.ends_with('Z'));
    assert_eq!(ts.len(), 20);
}

#[test]
fn truncate_backs_off_to_char_boundary() {
    // 'é' takes two bytes: cutting inside it keeps the whole character out
    assert_eq!(truncate("aé", 2), "a");
    assert_eq!(truncate("aé", 3), "aé");
    assert_eq!(truncate("日本", 1), "");
    assert_eq!(truncate("", 0), "");
    assert_eq!(truncate("abc", 0), "");
}

#[test]
fn with_chat_id_only_for_telegram() {
    let t = WebhookService::detect("https://api.telegram.org/botX/sendMessage").with_chat_id("7");
    assert_eq!(t, WebhookService::Telegram { chat_id: "7".to_string() });
    assert_eq!(WebhookService::Discord.with_chat_id("7"), WebhookService::Discord);
    assert_eq!(WebhookService::Generic.with_chat_id("7"), WebhookService::Generic);
}

#[test]
fn payload_defaults_and_field_replacement() {
    let payload = AlertPayload::new("t", "m").with_field("k", "1").with_field("j", "2").with_field("k", "3");
    assert_eq!(payload.severity, AlertSeverity::Warning);
    assert_eq!(payload.program, None);
    assert_eq!(payload.fields.len(), 2);
    assert_eq!(payload.fields.get("k"), Some(&"3".to_string()));
    assert_eq!(payload.fields.get("missing"), None);
    let empty = FieldMap::new();
    assert!(empty.is_empty());
}

#[test]
fn leap_years() {
    assert!(is_leap_year(2000));
    assert!(is_leap_year(2024));
    assert!(!is_leap_year(1900));
    assert!(!is_leap_year(2023));
}

#[test]
fn calendar_dates() {
    assert_eq!(format_timestamp(0), "1970-01-01T00:00:00Z");
    assert_eq!(format_timestamp(31 * 86400), "1970-02-01T00:00:00Z");
    assert_eq!(format_timestamp(365 * 86400), "1971-01-01T00:00:00Z");
    assert_eq!(format_timestamp(789 * 86400), "1972-02-29T00:00:00Z");
    assert_eq!(format_timestamp(19723 * 86400), "2024-01-01T00:00:00Z");
}

#[test]
fn format_timestamp_values() {
    assert_eq!(format_timestamp(0), "1970-01-01T00:00:00Z");
    assert_eq!(format_timestamp(1704067199), "2023-12-31T23:59:59Z");
    assert_eq!(format_timestamp(951782400), "2000-02-29T00:00:00Z");
}
