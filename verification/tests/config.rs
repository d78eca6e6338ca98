use phos::colors::{Color, SemanticColor};
use phos::config::{
    parse_semantic_color, rule_from_config, Config, ConfigError, FileFormat, GlobalConfig, PtyConfig, RuleConfig,
};
use phos::colorizer::Colorizer;

fn rule_config(regex: &str, colors: &[&str]) -> RuleConfig {
    RuleConfig {
        regex: regex.to_string(),
        colors: colors.iter().map(|c| c.to_string()).collect(),
        bold: false,
        skip: false,
        replace: None,
    }
}

#[test]
fn test_semantic_color_parsing() {
    assert_eq!(parse_semantic_color("error"), Some(SemanticColor::Error));
    assert_eq!(parse_semantic_color("WARN"), Some(SemanticColor::Warn));
    assert_eq!(parse_semantic_color("unknown"), None);
}

#[test]
fn test_pty_config_default() {
    let config = PtyConfig::default();
    assert_eq!(config.drain_timeout_ms, 100);
    assert_eq!(config.drain_max_retries, 3);
    assert!(config.interactive_commands.is_empty());
}

#[test]
fn global_config_defaults() {
    let config = GlobalConfig::default();
    assert_eq!(config.theme, None);
    assert!(!config.stats);
    assert!(!config.color);
    assert_eq!(config.pty.drain_timeout_ms, 100);
    assert!(config.alerts.url.is_none());
}

#[test]
fn rule_from_config_colors_and_bold() {
    let rule = rule_from_config(&rule_config(r"\berror\b", &["error", "bold"])).unwrap();
    assert!(rule.bold);
    assert_eq!(rule.colors.len(), 1);
    assert!(matches!(rule.colors[0], Color::Semantic(SemanticColor::Error)));
    let rule = rule_from_config(&rule_config("x", &["red"])).unwrap();
    assert!(!rule.bold);
    assert!(matches!(&rule.colors[0], Color::Named(n) if n == "red"));
}

#[test]
fn rule_from_config_skip_and_replace() {
    let mut c = rule_config("a", &[]);
    c.skip = true;
    c.replace = Some("b".to_string());
    let rule = rule_from_config(&c).unwrap();
    assert!(rule.skip);
    assert_eq!(rule.replace, Some("b".to_string()));
}

#[test]
fn rule_from_config_bad_regex() {
    let err = rule_from_config(&rule_config("(", &["red"])).err().unwrap();
    assert!(matches!(err, ConfigError::RegexError(_)));
    assert!(err.to_string().starts_with("Invalid regex pattern: "));
}

#[test]
fn config_to_rules_colorizes() {
    let config = Config {
        name: "test".to_string(),
        description: "Test config".to_string(),
        rules: vec![rule_config(r"\berror\b", &["red", "bold"]), rule_config(r"\d+", &["blue"])],
    };
    let rules = config.to_rules().unwrap();
    assert_eq!(rules.len(), 2);
    let mut colorizer = Colorizer::new(rules);
    assert_eq!(colorizer.colorize("error 7"), "\u{1b}[1;31merror\u{1b}[0m \u{1b}[34m7\u{1b}[0m");
    let bad = Config { name: String::new(), description: String::new(), rules: vec![rule_config("[", &[])] };
    assert!(bad.to_rules().is_err());
}

#[test]
fn file_formats() {
    assert_eq!(FileFormat::from_path("a/b.yaml"), Some(FileFormat::Yaml));
    assert_eq!(FileFormat::from_path("a/b.YML"), Some(FileFormat::Yaml));
    assert_eq!(FileFormat::from_path("b.json"), Some(FileFormat::Json));
    assert_eq!(FileFormat::from_path("b.toml"), None);
    assert_eq!(FileFormat::from_path("noext"), None);
    assert_eq!(FileFormat::from_extension("Json"), Some(FileFormat::Json));
}

#[test]
fn config_error_messages() {
    assert_eq!(ConfigError::ReadError("gone".to_string()).to_string(), "Failed to read config file: gone");
    assert_eq!(ConfigError::UnknownFormat("x".to_string()).to_string(), "Unknown file format: x");
    let e = ConfigError::YamlError("bad".to_string()).with_path("/p.yaml");
    assert_eq!(e.to_string(), "/p.yaml: Failed to parse YAML: bad");
    assert_eq!(ConfigError::JsonError("j".to_string()).to_string(), "Failed to parse JSON: j");
}
