use phos::category::Category;
use phos::clients::Layer;
use phos::colors::{brands, is_ansi_color, parse_hex_rgb, Color, ColorSpec, SemanticColor};
use phos::commands::{layer_text, listed_categories, program_info_json, program_list, short_name, OutputFormat};
use phos::program::{ProgramRegistry, SimpleProgram};
use phos::rule::Rule;
use phos::style::{AnsiColor, Style};
use phos::theme::Theme;

#[test]
fn test_hex_parsing() {
    let color = Color::hex("#FF5555");
    let style = color.to_style();
    assert_eq!(style.foreground, Some(AnsiColor::Rgb(0xFF, 0x55, 0x55)));
}

#[test]
fn test_brand_colors() {
    assert!(brands::color("geth").is_some());
    assert!(brands::color("unknown").is_none());
}

#[test]
fn brand_colors_ignore_case() {
    assert_eq!(brands::color("Lighthouse"), Some("#9933FF"));
    assert_eq!(brands::color("MEV-Boost"), Some("#FF6699"));
}

#[test]
fn parse_hex_rgb_forms() {
    assert_eq!(parse_hex_rgb("#FF5555"), Some((255, 85, 85)));
    assert_eq!(parse_hex_rgb("00ff7f"), Some((0, 255, 127)));
    assert_eq!(parse_hex_rgb("##0a0B0c"), Some((10, 11, 12)));
    assert_eq!(parse_hex_rgb("#12345678"), Some((0x12, 0x34, 0x56)));
    assert_eq!(parse_hex_rgb("+F0000"), Some((15, 0, 0)));
    assert_eq!(parse_hex_rgb("#12345"), None);
    assert_eq!(parse_hex_rgb("#GG0000"), None);
    assert_eq!(parse_hex_rgb(""), None);
}

#[test]
fn named_colors_to_styles() {
    assert_eq!(Color::named("RED").to_style().foreground, Some(AnsiColor::Red));
    assert_eq!(Color::named("purple").to_style().foreground, Some(AnsiColor::Magenta));
    assert_eq!(Color::named("grey").to_style().foreground, Some(AnsiColor::DarkGray));
    assert_eq!(Color::named("bright_white").to_style().foreground, Some(AnsiColor::LightGray));
    assert_eq!(Color::named("chartreuse").to_style().foreground, Some(AnsiColor::Default));
    assert_eq!(Color::rgb(1, 2, 3).to_style().foreground, Some(AnsiColor::Rgb(1, 2, 3)));
    assert_eq!(Color::hex("zz").to_style(), Style::new());
    assert_eq!(Color::semantic(SemanticColor::Error).to_style(), Style::new());
}

#[test]
fn ansi_color_names() {
    assert!(is_ansi_color("Bright_Blue"));
    assert!(is_ansi_color("grey"));
    assert!(!is_ansi_color("orange"));
}

#[test]
fn color_specs_from_names() {
    assert!(matches!(ColorSpec::from_name("error"), ColorSpec::Semantic(SemanticColor::Error)));
    assert!(matches!(ColorSpec::from_name("#abcdef"), ColorSpec::Hex(h) if h == "#abcdef"));
    assert!(matches!(ColorSpec::from_name("red"), ColorSpec::Named(n) if n == "red"));
    assert!(matches!(ColorSpec::from_name("request_id"), ColorSpec::Domain(d) if d == "request_id"));
}

#[test]
fn semantic_color_names() {
    assert_eq!(SemanticColor::from_name("Warning"), Some(SemanticColor::Warn));
    assert_eq!(SemanticColor::from_name("tag"), Some(SemanticColor::Label));
    assert_eq!(SemanticColor::from_name("slot"), None);
    assert_eq!(SemanticColor::all().len(), 16);
}

#[test]
fn styles_paint_sgr_sequences() {
    assert_eq!(Style::new().paint("x"), "x");
    assert_eq!(Style::new().fg(AnsiColor::Red).paint("x"), "\u{1b}[31mx\u{1b}[0m");
    assert_eq!(Style::new().bold().paint("x"), "\u{1b}[1mx\u{1b}[0m");
    assert_eq!(Style::new().fg(AnsiColor::Rgb(1, 2, 3)).bold().paint("x"), "\u{1b}[1;38;2;1;2;3mx\u{1b}[0m");
    assert!(Style::default().is_plain());
}

#[test]
fn themes() {
    assert_eq!(Theme::list_builtin(), vec!["default-dark", "dracula", "nord"]);
    assert_eq!(Theme::builtin("dracula").unwrap().name, "dracula");
    assert!(Theme::builtin("solarized").is_none());
    let theme = Theme::default();
    assert!(matches!(theme.resolve(SemanticColor::Error), Some(Color::Rgb { .. })));
    assert!(matches!(theme.resolve_color(&Color::named("red")), Color::Named(n) if n == "red"));
    assert!(matches!(theme.resolve_color(&Color::semantic(SemanticColor::Info)), Color::Rgb { .. }));
}

fn registry() -> ProgramRegistry {
    let mut registry = ProgramRegistry::new();
    let rule = Rule::new("x").unwrap().build();
    registry.register(SimpleProgram::new("ethereum.geth", "Geth", "Go Ethereum", Category::Ethereum, vec![rule]));
    registry.register(SimpleProgram::new("dev.cargo", "Cargo", "Rust builds", Category::Dev, Vec::new()));
    registry
}

#[test]
fn commands_list_programs() {
    let registry = registry();
    assert!(listed_categories(&registry, Some("bogus")).is_err());
    assert_eq!(listed_categories(&registry, Some("DEV")).unwrap(), vec![Category::Dev]);
    let cats = listed_categories(&registry, None).unwrap();
    assert_eq!(cats, vec![Category::Dev, Category::Ethereum]);
    let list = program_list(&registry, &cats);
    assert_eq!(list.total, 2);
    assert_eq!(list.programs[0].id, "dev.cargo");
    assert_eq!(list.programs[1].category, "ethereum");
    assert_eq!(list.programs[1].rules, 1);
    assert_eq!(OutputFormat::default(), OutputFormat::Table);
}

#[test]
fn commands_program_info() {
    let registry = registry();
    let geth = registry.get("geth").unwrap();
    let info = program_info_json(geth);
    assert_eq!(info.id, "ethereum.geth");
    assert_eq!(info.rules, 1);
    assert_eq!(info.layer, Some("Execution".to_string()));
    assert_eq!(info.language, Some("Go".to_string()));
    assert_eq!(info.brand_color, Some("#6699FF".to_string()));
    let cargo = program_info_json(registry.get("cargo").unwrap());
    assert_eq!(cargo.layer, None);
    assert_eq!(cargo.brand_color, None);
}

#[test]
fn commands_short_names() {
    assert_eq!(short_name("ethereum.geth"), "geth");
    assert_eq!(short_name("a.b.c"), "c");
    assert_eq!(short_name("plain"), "plain");
    assert_eq!(layer_text(Layer::Consensus), "Consensus");
}

#[test]
fn program_table_lines() {
    let registry = registry();
    let cats = listed_categories(&registry, None).unwrap();
    let lines = phos::commands::program_table(&registry, &cats, false);
    assert_eq!(
        lines,
        vec![
            "Available programs (2 total):",
            "",
            "Development:",
            "  cargo        - Rust builds",
            "",
            "Ethereum:",
            "  geth         - Go Ethereum",
            "",
        ]
    );
    let eth = phos::commands::program_table(&registry, &vec![Category::Ethereum], true);
    assert_eq!(eth.len(), 2 + 3 + 5);
    assert_eq!(eth[5], "Ethereum clients by layer:");
    let empty = phos::commands::program_table(&registry, &vec![Category::Data], false);
    assert_eq!(empty, vec!["Available programs (2 total):", ""]);
}

#[test]
fn info_table_lines() {
    let registry = registry();
    let lines = phos::commands::info_table(registry.get("geth").unwrap());
    assert_eq!(lines[0], "Geth");
    assert_eq!(lines[1], "  ID:          ethereum.geth");
    assert_eq!(lines[3], "  Category:    ethereum");
    assert_eq!(lines[4], "  Rules:       1");
    assert_eq!(lines[5], "  Layer:       Execution");
    assert_eq!(lines[8], "  Brand color: #6699FF");
    assert_eq!(phos::commands::info_table(registry.get("cargo").unwrap()).len(), 5);
}

#[test]
fn brand_color_listing() {
    let lines = phos::commands::brand_color_lines();
    assert_eq!(lines.len(), 2 + 15);
    assert_eq!(lines[0], "Ethereum Client Brand Colors:");
    assert_eq!(lines[2], "  \u{1b}[38;2;153;51;255m##\u{1b}[0m lighthouse   #9933FF");
}
