use phos::alert::condition::AlertSeverity;
use phos::alert::discord::DiscordFormatter;
use phos::alert::formatter::{AlertPayload, WebhookFormatter, WebhookService};
use phos::alert::telegram::{escape_markdown, TelegramFormatter};
use serde_json::Value;

fn discord(payload: &AlertPayload) -> Value {
    let formatter = DiscordFormatter;
    serde_json::from_str(&formatter.format(payload, &WebhookService::Discord)).unwrap()
}

fn telegram(payload: &AlertPayload, service: &WebhookService) -> Value {
    let formatter = TelegramFormatter;
    serde_json::from_str(&formatter.format(payload, service)).unwrap()
}

#[test]
fn test_discord_format_basic() {
    let payload = AlertPayload::new("Connection Error", "Failed to connect to peer")
        .with_severity(AlertSeverity::Error)
        .with_program("lodestar");

    let json = discord(&payload);

    assert!(json["embeds"].is_array());
    assert_eq!(json["embeds"].as_array().unwrap().len(), 1);

    let embed = &json["embeds"][0];
    assert!(embed["title"].as_str().unwrap().contains("[ERR]"));
    assert!(embed["description"].as_str().unwrap().contains("Failed to connect"));
    assert_eq!(embed["color"], 0xFF5500);
    assert!(embed["footer"]["text"].as_str().unwrap().contains("lodestar"));
}

#[test]
fn test_discord_format_with_fields() {
    let payload = AlertPayload::new("Peer Drop", "Peer count dropped")
        .with_severity(AlertSeverity::Warning)
        .with_field("previous", "50")
        .with_field("current", "3");

    let json = discord(&payload);

    let embed = &json["embeds"][0];
    let fields = embed["fields"].as_array().unwrap();
    assert_eq!(fields.len(), 2);
}

#[test]
fn test_discord_format_severity_colors() {
    let critical = AlertPayload::new("Critical", "msg").with_severity(AlertSeverity::Critical);
    assert_eq!(discord(&critical)["embeds"][0]["color"], 0xFF0000);

    let error = AlertPayload::new("Error", "msg").with_severity(AlertSeverity::Error);
    assert_eq!(discord(&error)["embeds"][0]["color"], 0xFF5500);

    let warning = AlertPayload::new("Warning", "msg").with_severity(AlertSeverity::Warning);
    assert_eq!(discord(&warning)["embeds"][0]["color"], 0xFFAA00);

    let info = AlertPayload::new("Info", "msg").with_severity(AlertSeverity::Info);
    assert_eq!(discord(&info)["embeds"][0]["color"], 0x55AAFF);
}

#[test]
fn test_discord_truncation() {
    let long_message = "x".repeat(5000);
    let payload = AlertPayload::new("Test", &long_message);

    let json = discord(&payload);

    let desc = json["embeds"][0]["description"].as_str().unwrap();
    assert!(desc.len() < 4100);
}

#[test]
fn discord_embed_exact_shape() {
    let payload = AlertPayload::new_at("T \"q\"", "m", "2024-01-02T03:04:05Z".to_string())
        .with_severity(AlertSeverity::Info)
        .with_field("k", "v");
    let json = discord(&payload);
    let embed = &json["embeds"][0];
    assert_eq!(embed["title"], "[INF] T \"q\"");
    assert_eq!(embed["description"], "```\nm\n```");
    assert_eq!(embed["timestamp"], "2024-01-02T03:04:05Z");
    assert_eq!(embed["fields"][0]["name"], "k");
    assert_eq!(embed["fields"][0]["value"], "v");
    assert_eq!(embed["fields"][0]["inline"], true);
    assert!(embed.get("footer").is_none());
}

#[test]
fn test_telegram_format_basic() {
    let payload = AlertPayload::new("Connection Error", "Failed to connect to peer")
        .with_severity(AlertSeverity::Error)
        .with_program("lodestar");

    let service = WebhookService::Telegram { chat_id: "-1001234567890".to_string() };
    let json = telegram(&payload, &service);

    assert_eq!(json["chat_id"], "-1001234567890");
    assert_eq!(json["parse_mode"], "MarkdownV2");

    let text = json["text"].as_str().unwrap();
    assert!(text.contains("[ERR]"));
    assert!(text.contains("Connection Error"));
    assert!(text.contains("lodestar"));
}

#[test]
fn test_telegram_format_with_fields() {
    let payload = AlertPayload::new("Peer Drop", "Peer count dropped")
        .with_field("previous", "50")
        .with_field("current", "3");

    let service = WebhookService::Telegram { chat_id: "123".to_string() };
    let json = telegram(&payload, &service);

    let text = json["text"].as_str().unwrap();
    assert!(text.contains("previous"));
    assert!(text.contains("current"));
}

#[test]
fn test_escape_markdown() {
    assert_eq!(escape_markdown("hello"), "hello");
    assert_eq!(escape_markdown("hello_world"), "hello\\_world");
    assert_eq!(escape_markdown("*bold*"), "\\*bold\\*");
    assert_eq!(escape_markdown("test.com"), "test\\.com");
}

#[test]
fn test_telegram_severity_tags() {
    let service = WebhookService::Telegram { chat_id: "123".to_string() };

    let critical = AlertPayload::new("Test", "msg").with_severity(AlertSeverity::Critical);
    assert!(telegram(&critical, &service)["text"].as_str().unwrap().contains("[!!!]"));

    let error = AlertPayload::new("Test", "msg").with_severity(AlertSeverity::Error);
    assert!(telegram(&error, &service)["text"].as_str().unwrap().contains("[ERR]"));

    let warning = AlertPayload::new("Test", "msg").with_severity(AlertSeverity::Warning);
    assert!(telegram(&warning, &service)["text"].as_str().unwrap().contains("[WRN]"));

    let info = AlertPayload::new("Test", "msg").with_severity(AlertSeverity::Info);
    assert!(telegram(&info, &service)["text"].as_str().unwrap().contains("[INF]"));
}

#[test]
fn telegram_exact_text() {
    let payload = AlertPayload::new("a.b", "m")
        .with_severity(AlertSeverity::Warning)
        .with_field("k-1", "v!")
        .with_program("geth_x");
    let json = telegram(&payload, &WebhookService::Generic);
    assert_eq!(json["chat_id"], "");
    assert_eq!(json["text"], "[WRN] *a\\.b*\n\n```\nm\n```\n\n*k\\-1*: v\\!\n\n_Source: geth\\_x_");
}

#[test]
fn escape_markdown_all_specials() {
    assert_eq!(escape_markdown("_*[]()~`>#+-=|{}.!"), "\\_\\*\\[\\]\\(\\)\\~\\`\\>\\#\\+\\-\\=\\|\\{\\}\\.\\!");
    assert_eq!(escape_markdown(""), "");
}

#[test]
fn content_type_is_json() {
    assert_eq!(DiscordFormatter.content_type(), "application/json");
    assert_eq!(TelegramFormatter.content_type(), "application/json");
}
