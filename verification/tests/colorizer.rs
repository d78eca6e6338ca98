use phos::colorizer::Colorizer;
use phos::colors::{Color, SemanticColor};
use phos::rule::Rule;
use phos::theme::Theme;

#[test]
fn test_colorizer_creation() {
    let rules = vec![Rule::new(r"\berror\b").unwrap().semantic(SemanticColor::Error).build()];
    let colorizer = Colorizer::new(rules);
    assert_eq!(colorizer.rule_count(), 1);
}

#[test]
fn test_colorize_line() {
    let rules = vec![Rule::new(r"\berror\b").unwrap().semantic(SemanticColor::Error).build()];
    let mut colorizer = Colorizer::new(rules);
    let result = colorizer.colorize("an error occurred");

    assert!(result.contains("\x1b["));
    assert!(result.contains("error"));
}

#[test]
fn test_empty_line() {
    let mut colorizer = Colorizer::new(vec![]);
    let result = colorizer.colorize("");
    assert_eq!(result, "");
}

#[test]
fn test_no_matches() {
    let rules = vec![Rule::new(r"\berror\b").unwrap().semantic(SemanticColor::Error).build()];
    let mut colorizer = Colorizer::new(rules);
    let result = colorizer.colorize("all good here");

    assert_eq!(result, "all good here");
}

#[test]
fn test_skip_rule() {
    let rules = vec![
        Rule::new(r"DEBUG").unwrap().skip().build(),
        Rule::new(r"error").unwrap().semantic(SemanticColor::Error).build(),
    ];
    let mut colorizer = Colorizer::new(rules);

    assert!(colorizer.colorize_opt("DEBUG: some message").is_none());

    let result = colorizer.colorize_opt("ERROR: something went wrong");
    assert!(result.is_some());
}

#[test]
fn test_replace_rule() {
    let rules = vec![Rule::new(r"(\d{2}):(\d{2}):(\d{2})")
        .unwrap()
        .replace("${1}h${2}m${3}s")
        .semantic(SemanticColor::Timestamp)
        .build()];
    let mut colorizer = Colorizer::new(rules).with_color_enabled(false);

    let result = colorizer.colorize("Time: 12:34:56");
    assert!(result.contains("12h34m56s"));
}

#[test]
fn test_skip_and_replace_together() {
    let rules = vec![
        Rule::new(r"^\[DEBUG\]").unwrap().skip().build(),
        Rule::new(r"(\d{4})-(\d{2})-(\d{2})").unwrap().replace("${2}/${3}/${1}").build(),
    ];
    let mut colorizer = Colorizer::new(rules).with_color_enabled(false);

    assert!(colorizer.colorize_opt("[DEBUG] 2024-01-15 test").is_none());

    let result = colorizer.colorize_opt("[INFO] 2024-01-15 test").unwrap();
    assert!(result.contains("01/15/2024"));
}

#[test]
fn colorize_exact_output() {
    let rules = vec![Rule::new(r"\berror\b").unwrap().color(Color::named("red")).build()];
    let mut colorizer = Colorizer::new(rules);
    assert_eq!(colorizer.colorize("an error here"), "an \u{1b}[31merror\u{1b}[0m here");
    let bold = vec![Rule::new("x").unwrap().color(Color::named("green")).bold().build()];
    let mut colorizer = Colorizer::new(bold);
    assert_eq!(colorizer.colorize("axb"), "a\u{1b}[1;32mx\u{1b}[0mb");
}

#[test]
fn first_rule_wins_on_overlap() {
    let rules = vec![
        Rule::new("abc").unwrap().color(Color::named("red")).build(),
        Rule::new("bcd").unwrap().color(Color::named("blue")).build(),
    ];
    let mut colorizer = Colorizer::new(rules);
    assert_eq!(colorizer.colorize("abcd"), "\u{1b}[31mabc\u{1b}[0md");
}

#[test]
fn color_disabled_gives_plain_text() {
    let rules = vec![Rule::new("err").unwrap().color(Color::named("red")).build()];
    let mut colorizer = Colorizer::new(rules).with_color_enabled(false);
    assert_eq!(colorizer.colorize("an err"), "an err");
    let (text, matched) = colorizer.colorize_with_match_info("an err");
    assert_eq!(text, "an err");
    assert!(matched);
}

#[test]
fn match_info_reports_matches() {
    let rules = vec![Rule::new("err").unwrap().color(Color::named("red")).build()];
    let mut colorizer = Colorizer::new(rules);
    assert!(!colorizer.colorize_with_match_info("fine").1);
    assert!(colorizer.colorize_with_match_info("err").1);
    assert_eq!(colorizer.colorize_opt_with_match_info("fine"), Some(("fine".to_string(), false)));
}

#[test]
fn theme_resolves_semantic_colors() {
    let rules = vec![Rule::new("x").unwrap().semantic(SemanticColor::Error).build()];
    let mut colorizer = Colorizer::new(rules).with_theme(Theme::default_dark());
    assert!(colorizer.colorize("x").contains("\u{1b}["));
    colorizer.reset();
    assert_eq!(colorizer.rule_count(), 1);
}

#[test]
fn long_lines_pass_through() {
    let rules = vec![Rule::new("a").unwrap().color(Color::named("red")).build()];
    let mut colorizer = Colorizer::new(rules);
    let line = "a".repeat(70_000);
    assert_eq!(colorizer.colorize(&line), line);
}

#[test]
fn colorize_returns_skipped_lines_unchanged() {
    let rules = vec![
        Rule::new("DEBUG").unwrap().skip().build(),
        Rule::new("error").unwrap().semantic(SemanticColor::Error).build(),
    ];
    let mut c = Colorizer::new(rules);
    assert_eq!(c.colorize("DEBUG: some message"), "DEBUG: some message");
    assert_eq!(c.colorize_opt("DEBUG: some message"), None);
}
