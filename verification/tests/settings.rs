use phos::config::GlobalConfig;
use phos::settings::{resolve, CliSettings};

fn cli() -> CliSettings {
    CliSettings {
        theme: "default-dark".to_string(),
        color: false,
        stats: false,
        stats_export: None,
        stats_interval: 0,
        alert: None,
        alert_on: Vec::new(),
        telegram_chat_id: None,
        alert_cooldown: 60,
    }
}

#[test]
fn defaults_without_configuration() {
    let r = resolve(&cli(), &GlobalConfig::default());
    assert_eq!(r.theme, "default-dark");
    assert!(!r.color_forced);
    assert!(!r.stats_enabled);
    assert_eq!(r.alert_url, None);
    assert_eq!(r.alert_cooldown, 0);
    assert!(r.conditions.is_empty());
}

#[test]
fn global_configuration_fills_in() {
    let mut global = GlobalConfig::default();
    global.theme = Some("nord".to_string());
    global.stats_interval = 5;
    global.alerts.url = Some("https://g".to_string());
    global.alerts.cooldown = 30;
    global.alerts.conditions = vec!["error".to_string()];
    let r = resolve(&cli(), &global);
    assert_eq!(r.theme, "nord");
    assert_eq!(r.stats_interval, 5);
    assert!(r.stats_enabled);
    assert_eq!(r.alert_url, Some("https://g".to_string()));
    assert_eq!(r.alert_cooldown, 30);
    assert_eq!(r.conditions, vec!["error".to_string()]);
}

#[test]
fn command_line_wins() {
    let mut global = GlobalConfig::default();
    global.theme = Some("nord".to_string());
    global.alerts.url = Some("https://g".to_string());
    global.alerts.telegram_chat_id = Some("1".to_string());
    global.alerts.conditions = vec!["error".to_string()];
    let mut c = cli();
    c.theme = "dracula".to_string();
    c.alert = Some("https://c".to_string());
    c.alert_cooldown = 10;
    c.telegram_chat_id = Some("2".to_string());
    c.alert_on = vec!["sync-stall".to_string()];
    c.stats_export = Some("json".to_string());
    let r = resolve(&c, &global);
    assert_eq!(r.theme, "dracula");
    assert_eq!(r.alert_url, Some("https://c".to_string()));
    assert_eq!(r.alert_cooldown, 10);
    assert_eq!(r.chat_id, Some("2".to_string()));
    assert_eq!(r.conditions, vec!["sync-stall".to_string()]);
    assert!(r.stats_enabled);
    assert_eq!(r.stats_export, Some("json".to_string()));
}
