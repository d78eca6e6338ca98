use phos::aggregator::discovery::{detect_program, matches_glob, normalize_container_name, ContainerInfo};
use phos::aggregator::html::{ansi_to_html, html_escape, html_from_conversion};
use phos::aggregator::streamer::{chrono_now, AlertConfig, StreamProcessor};
use phos::alert::condition::AlertCondition;
use phos::alert::formatter::format_timestamp_nanos;
use phos::category::Category;
use phos::colorizer::Colorizer;
use phos::program::{ProgramRegistry, SimpleProgram};
use phos::rule::Rule;
use phos::colors::Color;

#[test]
fn test_matches_glob() {
    // Suffix pattern
    assert!(matches_glob("geth.dnp.dappnode.eth", "*.dappnode.eth"));
    assert!(matches_glob("lighthouse-beacon.dnp.dappnode.eth", "*.dappnode.eth"));
    assert!(!matches_glob("my-container", "*.dappnode.eth"));

    // Prefix pattern
    assert!(matches_glob("geth-mainnet", "geth*"));
    assert!(!matches_glob("nethermind", "geth*"));

    // Contains pattern
    assert!(matches_glob("my-geth-container", "geth"));
    assert!(!matches_glob("lighthouse", "geth"));

    // Empty pattern matches everything
    assert!(matches_glob("anything", ""));
}

#[test]
fn test_normalize_container_name() {
    assert_eq!(normalize_container_name("lighthouse-beacon.dnp.dappnode.eth"), "lighthouse");
    assert_eq!(normalize_container_name("prysm-validator.dnp.dappnode.eth"), "prysm");
    assert_eq!(normalize_container_name("geth-bn"), "geth");
    assert_eq!(normalize_container_name("lodestar-vc"), "lodestar");
    assert_eq!(normalize_container_name("DAppNodePackage-geth"), "geth");
    assert_eq!(normalize_container_name("DAppNodeCore-dappmanager"), "dappmanager");
}

#[test]
fn test_matches_glob_via_discovery() {
    assert!(matches_glob("geth.dnp.dappnode.eth", "*.dappnode.eth"));
    assert!(matches_glob("lighthouse-beacon.dnp.dappnode.eth", "*.dappnode.eth"));
    assert!(!matches_glob("my-container", "*.dappnode.eth"));
    assert!(matches_glob("anything", ""));
}

#[test]
fn test_html_escape() {
    assert_eq!(html_escape("<script>"), "&lt;script&gt;");
    assert_eq!(html_escape("a & b"), "a &amp; b");
}

#[test]
fn test_ansi_to_html_plain() {
    let result = ansi_to_html("plain text");
    assert!(result.contains("plain text"));
}

#[test]
fn html_escape_quotes() {
    assert_eq!(html_escape("\"it's\""), "&quot;it&#39;s&quot;");
    assert_eq!(html_escape(""), "");
}

#[test]
fn html_falls_back_to_escaping() {
    assert_eq!(html_from_conversion("<b>", None), "&lt;b&gt;");
    assert_eq!(html_from_conversion("<b>", Some("X".to_string())), "X");
}

#[test]
fn ansi_to_html_converts_colors() {
    let result = ansi_to_html("\u{1b}[31mred\u{1b}[0m");
    assert!(result.contains("red"));
    assert!(!result.contains("\u{1b}"));
}

#[test]
fn glob_star_alone_and_exact() {
    assert!(matches_glob("x", "*"));
    assert!(matches_glob("geth", "geth"));
    assert!(!matches_glob("", "geth"));
}

#[test]
fn normalize_keeps_plain_names() {
    assert_eq!(normalize_container_name("nethermind"), "nethermind");
    assert_eq!(normalize_container_name("teku-beacon-chain"), "teku-beacon-chain");
    assert_eq!(normalize_container_name("geth-bnode"), "geth-bnode");
    assert_eq!(normalize_container_name("x-DAppNodeCore-y"), "x-DAppNodeCore-y");
}

fn registry_with_geth() -> ProgramRegistry {
    let mut registry = ProgramRegistry::new();
    let program = SimpleProgram::new("ethereum.geth", "Geth", "Geth logs", Category::Ethereum, Vec::new())
        .with_detect_patterns(vec!["geth"]);
    registry.register(program);
    registry
}

#[test]
fn detect_program_by_name_image_or_normalized_name() {
    let registry = registry_with_geth();
    assert_eq!(detect_program(&registry, "my-geth", "alpine"), Some("ethereum.geth".to_string()));
    assert_eq!(detect_program(&registry, "node1", "ethereum/geth:latest"), Some("ethereum.geth".to_string()));
    assert_eq!(detect_program(&registry, "node1", "alpine"), None);
}

#[test]
fn container_info_detects_program() {
    let registry = registry_with_geth();
    let info = ContainerInfo::new(&registry, "abc", "geth-1", "img", "running");
    assert_eq!(info.id, "abc");
    assert_eq!(info.name, "geth-1");
    assert_eq!(info.image, "img");
    assert_eq!(info.status, "running");
    assert_eq!(info.program, Some("ethereum.geth".to_string()));
}

#[test]
fn iso_timestamp_with_nanos() {
    assert_eq!(format_timestamp_nanos(1700000000, 5), "2023-11-14T22:13:20.000000005Z");
    assert_eq!(format_timestamp_nanos(0, 123456789), "1970-01-01T00:00:00.123456789Z");
    let now = chrono_now();
    assert_eq!(now.len(), 30);
    assert_eq!(&now[10..11], "T");
}

#[test]
fn stream_processor_trims_colorizes_and_skips_blank_lines() {
    let rule = Rule::new(r"\bERROR\b").unwrap().color(Color::named("red")).build();
    let colorizer = Colorizer::new(vec![rule]);
    let mut processor = StreamProcessor::new("id1", "geth", None, colorizer, None);
    assert!(processor.process("   ").is_none());
    let out = processor.process("  ERROR boom  ").unwrap();
    assert_eq!(out.entry.raw, "ERROR boom");
    assert_eq!(out.entry.program, "unknown");
    assert!(out.entry.colorized.contains("\u{1b}[31mERROR\u{1b}[0m"));
    assert!(out.entry.timestamp.ends_with('Z'));
    assert!(out.alerts.is_empty());
}

#[test]
fn aggregator_config_defaults() {
    let config = phos::aggregator::web::AggregatorConfig::default();
    assert_eq!(config.theme.name, "default-dark");
    assert_eq!(config.max_lines, 10000);
    assert!(config.filter.is_none());
    assert!(config.alert_webhook.is_none());
    assert!(config.alert_conditions.is_empty());
}

#[test]
fn container_and_entry_json() {
    let info = ContainerInfo {
        id: "abc".to_string(),
        name: "geth \"1\"".to_string(),
        image: "img".to_string(),
        status: "running".to_string(),
        program: None,
    };
    assert_eq!(
        info.to_json(),
        "{\"id\":\"abc\",\"image\":\"img\",\"name\":\"geth \\\"1\\\"\",\"program\":null,\"status\":\"running\"}"
    );
    let v: serde_json::Value = serde_json::from_str(&info.to_json()).unwrap();
    assert_eq!(v["name"], "geth \"1\"");
    let entry = phos::aggregator::streamer::ColorizedLogEntry {
        container_id: "c".to_string(),
        container_name: "n".to_string(),
        program: "p".to_string(),
        timestamp: "1.000000000Z".to_string(),
        raw: "r".to_string(),
        colorized: "x".to_string(),
        html: "<b>".to_string(),
    };
    assert_eq!(
        entry.to_json(),
        "{\"container_id\":\"c\",\"container_name\":\"n\",\"html\":\"<b>\",\"program\":\"p\",\"timestamp\":\"1.000000000Z\"}"
    );
}

#[test]
fn stream_processor_raises_alerts_and_keeps_ids() {
    let config = AlertConfig {
        webhook_url: "https://discord.com/api/webhooks/1/abc".to_string(),
        conditions: vec![AlertCondition::Error, AlertCondition::ErrorThreshold { count: 2 }],
    };
    let mut processor = StreamProcessor::new("id7", "geth-node", Some("ethereum.geth"), Colorizer::new(vec![]), Some(config));
    let first = processor.process("ERROR database closed").unwrap();
    assert_eq!(first.entry.container_id, "id7");
    assert_eq!(first.entry.container_name, "geth-node");
    assert_eq!(first.entry.program, "ethereum.geth");
    assert_eq!(first.alerts.len(), 1);
    assert_eq!(first.alerts[0].condition_type, "error");
    let quiet = processor.process("all good").unwrap();
    assert!(quiet.alerts.is_empty());
    let mut plain = StreamProcessor::new("id8", "x", None, Colorizer::new(vec![]), None);
    assert!(plain.process("ERROR again").unwrap().alerts.is_empty());
}
