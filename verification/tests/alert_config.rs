use phos::alert::condition::AlertCondition;
use phos::alert::config::{
    parse_duration, parse_duration_secs, AlertConfig, ConditionConfig, ConfigError, RateLimitingConfig, WebhookConfig,
};
use phos::alert::formatter::WebhookService;

#[test]
fn test_parse_duration() {
    assert_eq!(parse_duration("30s"), Some(std::time::Duration::from_secs(30)));
    assert_eq!(parse_duration("5m"), Some(std::time::Duration::from_secs(300)));
    assert_eq!(parse_duration("1h"), Some(std::time::Duration::from_secs(3600)));
    assert_eq!(parse_duration("60"), Some(std::time::Duration::from_secs(60)));
    assert_eq!(parse_duration(""), None);
    assert_eq!(parse_duration("abc"), None);
}

#[test]
fn test_webhook_service_detection() {
    let webhook = WebhookConfig {
        name: "discord".to_string(),
        url: "https://discord.com/api/webhooks/123/abc".to_string(),
        webhook_type: None,
        chat_id: None,
    };
    assert_eq!(webhook.service(), WebhookService::Discord);

    let webhook = WebhookConfig {
        name: "telegram".to_string(),
        url: "https://api.telegram.org/bot123:ABC/sendMessage".to_string(),
        webhook_type: None,
        chat_id: Some("-123456".to_string()),
    };
    match webhook.service() {
        WebhookService::Telegram { chat_id } => assert_eq!(chat_id, "-123456"),
        _ => panic!("expected Telegram"),
    }
}

fn condition(kind: &str, count: Option<usize>, threshold: Option<usize>, pattern: Option<&str>) -> ConditionConfig {
    ConditionConfig {
        condition_type: kind.to_string(),
        count,
        threshold,
        pattern: pattern.map(|p| p.to_string()),
        webhooks: vec![],
    }
}

#[test]
fn test_condition_config_parse() {
    let config = condition("error", None, None, None);
    assert!(matches!(config.to_condition().unwrap(), AlertCondition::Error));

    let config = condition("error_threshold", Some(10), None, None);
    match config.to_condition().unwrap() {
        AlertCondition::ErrorThreshold { count } => assert_eq!(count, 10),
        _ => panic!("expected ErrorThreshold"),
    }

    let config = condition("peer_drop", None, Some(5), None);
    match config.to_condition().unwrap() {
        AlertCondition::PeerDrop { threshold } => assert_eq!(threshold, 5),
        _ => panic!("expected PeerDrop"),
    }
}

#[test]
fn test_default_rate_limiting() {
    let config = RateLimitingConfig::default();
    assert_eq!(config.global_cooldown, "30s");
    assert_eq!(config.per_condition, "60s");
    assert_eq!(config.max_per_hour, 50);
}

#[test]
fn condition_config_errors() {
    let e = condition("error_threshold", None, None, None).to_condition().unwrap_err();
    assert_eq!(e.to_string(), "invalid condition: error_threshold requires count");
    let e = condition("peer_drop", None, None, None).to_condition().unwrap_err();
    assert_eq!(e.to_string(), "invalid condition: peer_drop requires threshold");
    let e = condition("pattern", None, None, None).to_condition().unwrap_err();
    assert_eq!(e.to_string(), "invalid condition: pattern requires pattern field");
    let e = condition("pattern", None, None, Some("[bad")).to_condition().unwrap_err();
    assert!(e.to_string().starts_with("invalid condition: invalid regex: "));
    let e = condition("bogus", None, None, None).to_condition().unwrap_err();
    assert_eq!(e.to_string(), "invalid condition: unknown type: bogus");
    assert!(matches!(condition("sync_stall", None, None, None).to_condition(), Ok(AlertCondition::SyncStall)));
    match condition("pattern", None, None, Some("OOM")).to_condition().unwrap() {
        AlertCondition::Pattern { regex } => assert!(regex.is_match("OOM killer")),
        _ => panic!("expected Pattern"),
    }
}

#[test]
fn parse_duration_edges() {
    assert_eq!(parse_duration_secs("  2m  "), Some(120));
    assert_eq!(parse_duration_secs("+5m"), Some(300));
    assert_eq!(parse_duration_secs("s"), None);
    assert_eq!(parse_duration_secs("5 m"), None);
    assert_eq!(parse_duration_secs("-1"), None);
    assert_eq!(parse_duration_secs("18446744073709551615"), Some(u64::MAX));
    assert_eq!(parse_duration_secs("18446744073709551615m"), None);
    assert_eq!(parse_duration_secs("0h"), Some(0));
}

fn webhook(name: &str, kind: Option<&str>, chat: Option<&str>) -> WebhookConfig {
    WebhookConfig {
        name: name.to_string(),
        url: "https://example.com/hook".to_string(),
        webhook_type: kind.map(|k| k.to_string()),
        chat_id: chat.map(|c| c.to_string()),
    }
}

#[test]
fn alert_config_validation() {
    let mut config = AlertConfig::default();
    assert!(config.validate().is_ok());
    config.webhooks.push(webhook("ops", None, None));
    let mut cond = condition("error", None, None, None);
    cond.webhooks = vec!["ops".to_string(), "missing".to_string()];
    config.conditions.push(cond);
    match config.validate() {
        Err(ConfigError::WebhookNotFound(n)) => assert_eq!(n, "missing"),
        _ => panic!("expected WebhookNotFound"),
    }
    config.conditions[0].webhooks.pop();
    assert!(config.validate().is_ok());
    config.webhooks.push(webhook("tg", Some("telegram"), None));
    assert!(matches!(config.validate(), Err(ConfigError::MissingChatId)));
    assert_eq!(ConfigError::MissingChatId.to_string(), "telegram webhook missing chat_id");
    config.webhooks[1].chat_id = Some("1".to_string());
    assert!(config.validate().is_ok());
}

#[test]
fn alert_config_get_webhook() {
    let mut config = AlertConfig::default();
    config.webhooks.push(webhook("a", None, None));
    config.webhooks.push(webhook("b", Some("telegram"), Some("9")));
    assert_eq!(config.get_webhook("b").unwrap().chat_id, Some("9".to_string()));
    assert!(config.get_webhook("c").is_none());
    assert_eq!(config.rate_limiting.max_per_hour, 50);
}

#[test]
fn webhook_type_overrides_url() {
    assert_eq!(webhook("x", Some("discord"), None).service(), WebhookService::Discord);
    assert_eq!(webhook("x", Some("generic"), None).service(), WebhookService::Generic);
    match webhook("x", Some("telegram"), Some("42")).service() {
        WebhookService::Telegram { chat_id } => assert_eq!(chat_id, "42"),
        _ => panic!("expected Telegram"),
    }
}
