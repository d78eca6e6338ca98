use phos::category::Category;
use phos::colors::Color;
use phos::preview::{preview_lines, preview_samples, preview_theme_names, quick_sample};
use phos::program::{ProgramRegistry, SimpleProgram};
use phos::rule::Rule;

#[test]
fn theme_names_for_preview() {
    assert_eq!(preview_theme_names(None).unwrap(), vec!["default-dark", "dracula", "nord"]);
    assert_eq!(preview_theme_names(Some("nord")).unwrap(), vec!["nord"]);
    assert_eq!(
        preview_theme_names(Some("solar")).unwrap_err(),
        "Unknown theme: solar. Run 'phos themes' to see available themes."
    );
}

#[test]
fn samples_are_fixed() {
    let samples = preview_samples();
    assert_eq!(samples.len(), 8);
    assert_eq!(samples[0].program_id, "ethereum.lighthouse");
    assert_eq!(samples[7].label, "npm");
    assert!(samples.iter().all(|s| s.lines.len() == 3));
}

#[test]
fn quick_theme_view_without_programs() {
    let registry = ProgramRegistry::new();
    let themes = vec!["nord".to_string()];
    let lines = preview_lines(&registry, &themes, true, false);
    assert_eq!(lines.len(), 3 + 8 + 1);
    assert_eq!(lines[0], "");
    assert_eq!(lines[1], "nord");
    assert_eq!(lines[2], "----");
    assert_eq!(lines[3], format!("  Ethereum (Lighthouse) {}", quick_sample()));
    assert_eq!(lines[5], format!("  Docker       {}", quick_sample()));
    assert_eq!(lines[11], "");
}

#[test]
fn category_view_rows() {
    let mut registry = ProgramRegistry::new();
    let rule = Rule::new("WARN").unwrap().color(Color::named("yellow")).build();
    registry.register(SimpleProgram::new("dev.git", "git", "git", Category::Dev, vec![rule]));
    let themes = vec!["default-dark".to_string(), "nord".to_string()];
    let lines = preview_lines(&registry, &themes, false, true);
    // each sample: heading of 3 lines, then 3 rows per theme; a blank line last
    assert_eq!(lines.len(), 8 * (3 + 2 * 3) + 1);
    assert_eq!(lines[1], "Ethereum (Lighthouse)");
    assert_eq!(lines[2], "---------------------");
    assert_eq!(lines[3], "  default-dark Dec 05 00:12:36.557 INFO Synced slot: 12345, epoch: 385, peers: 47");
    assert_eq!(lines[4], "               Dec 05 00:12:37.123 WARN Attestation delayed validator_index: 42");
    assert_eq!(lines[6], "  nord         Dec 05 00:12:36.557 INFO Synced slot: 12345, epoch: 385, peers: 47");
    let quick = preview_lines(&registry, &themes, true, true);
    let git_row = quick.iter().find(|l| l.starts_with("  nord") && l.contains("\u{1b}[33mWARN")).is_some();
    assert!(git_row);
}
