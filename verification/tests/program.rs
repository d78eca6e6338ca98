use phos::category::Category;
use phos::colors::Color;
use phos::config::RuleConfig;
use phos::program::config::{default_category, ConfigError, ProgramConfig};
use phos::program::loader::{config_dir, config_dir_in, global_config_path, load_program_from_file, programs_dir, themes_dir, validate_program_file, LoadResult};
use phos::program::{Program, ProgramInfo, ProgramRegistry, SimpleProgram};

fn test_program(id: &str, name: &str, category: Category, detect: Vec<&str>) -> SimpleProgram {
    SimpleProgram::new(id, name, "Test program", category, Vec::new()).with_detect_patterns(detect)
}

#[test]
fn test_registry_register_and_get() {
    let mut registry = ProgramRegistry::new();
    registry.register(test_program("dev.program", "TestProgram", Category::Dev, vec!["test"]));

    assert!(registry.get("dev.program").is_some());
    assert!(registry.get("program").is_some());
    assert!(registry.get("testprogram").is_some());
}

#[test]
fn test_registry_detect() {
    let mut registry = ProgramRegistry::new();
    registry.register(test_program("dev.program", "TestProgram", Category::Dev, vec!["test"]));

    assert!(registry.detect("run test command").is_some());
    assert!(registry.detect("other command").is_none());
}

#[test]
fn test_registry_list_by_category() {
    let mut registry = ProgramRegistry::new();
    registry.register(test_program("dev.prog1", "Prog1", Category::Dev, vec!["prog1"]));
    registry.register(test_program("dev.prog2", "Prog2", Category::Dev, vec!["prog2"]));
    registry.register(test_program("system.prog3", "Prog3", Category::System, vec!["prog3"]));

    assert_eq!(registry.list_by_category(Category::Dev).len(), 2);
    assert_eq!(registry.list_by_category(Category::System).len(), 1);
}

#[test]
fn test_config_dir() {
    let dir = config_dir().expect("config_dir should return Some on supported platforms");
    assert!(dir.contains("phos"));
}

#[test]
fn config_paths_sit_under_the_config_dir() {
    let dir = config_dir().unwrap();
    assert_eq!(programs_dir().unwrap(), format!("{dir}/programs"));
    assert_eq!(themes_dir().unwrap(), format!("{dir}/themes"));
    assert_eq!(global_config_path().unwrap(), format!("{dir}/config.yaml"));
}

#[test]
fn test_programs_dir() {
    let dir = programs_dir().expect("programs_dir should return Some on supported platforms");
    assert!(dir.contains("programs"));
}

#[test]
fn config_dir_joins_phos() {
    assert_eq!(config_dir_in("/home/u/.config"), "/home/u/.config/phos");
}

fn program_config(name: &str, category: &str) -> ProgramConfig {
    ProgramConfig {
        name: name.to_string(),
        id: None,
        description: String::new(),
        category: category.to_string(),
        detect: Vec::new(),
        semantic_colors: Vec::new(),
        rules: Vec::new(),
    }
}

#[test]
fn test_program_id_generation() {
    let config = program_config("My App", "custom");
    assert_eq!(config.program_id(), "custom.my_app");
    let mut explicit = program_config("My App", "custom");
    explicit.id = Some("x.y".to_string());
    assert_eq!(explicit.program_id(), "x.y");
    assert_eq!(default_category(), "custom");
}

#[test]
fn to_program_builds_rules_and_detection() {
    let mut config = program_config("myapp", "custom");
    config.detect = vec!["myapp".to_string()];
    config.semantic_colors = vec![("request_id".to_string(), "#88AAFF".to_string())];
    config.rules = vec![RuleConfig {
        regex: "request_id=([a-f0-9-]+)".to_string(),
        colors: vec!["request_id".to_string()],
        bold: true,
        skip: false,
        replace: None,
    }];
    let program = config.to_program().ok().unwrap();
    assert_eq!(program.info().id, "custom.myapp");
    assert_eq!(program.info().category, Category::Custom);
    assert_eq!(program.rules().len(), 1);
    assert!(program.rules()[0].bold);
    assert!(matches!(&program.rules()[0].colors[0], Color::Hex(h) if h == "#88AAFF"));
    assert_eq!(program.detect_patterns(), vec!["myapp".to_string()]);
    let mut registry = ProgramRegistry::new();
    registry.register(program);
    assert_eq!(registry.detect("run myapp now").unwrap().program_info().id, "custom.myapp");
}

#[test]
fn to_program_errors() {
    let e = program_config("a", "nonsense").to_program().err().unwrap();
    assert!(matches!(&e, ConfigError::InvalidCategory(c) if c.0 == "nonsense"));
    assert!(e.to_string().starts_with("Invalid category: "));
    let mut bad = program_config("a", "custom");
    bad.rules = vec![RuleConfig { regex: "(".to_string(), colors: vec![], bold: false, skip: false, replace: None }];
    assert!(matches!(bad.to_program().err().unwrap(), ConfigError::RegexError(_)));
}

#[test]
fn to_program_reports_the_first_invalid_rule() {
    let mut bad = program_config("a", "custom");
    let rule = |re: &str| RuleConfig { regex: re.to_string(), colors: vec![], bold: false, skip: false, replace: None };
    bad.rules = vec![rule("ok"), rule("("), rule("[")];
    let expected = regex::Regex::new("(").unwrap_err();
    match bad.to_program().err().unwrap() {
        ConfigError::RegexError(e) => assert_eq!(e, expected),
        other => panic!("unexpected error: {:?}", other),
    }
}

#[test]
fn validate_program_file_messages() {
    let ok = validate_program_file("/p/a.yaml", Ok(program_config("App", "dev"))).unwrap();
    assert_eq!(ok, "App (dev.app) - 0 rules");
    let err = validate_program_file("/p/b.yaml", Ok(program_config("App", "zzz"))).err().unwrap();
    assert_eq!(err.path, "/p/b.yaml");
    let read = validate_program_file("/p/c.yaml", Err(ConfigError::ReadError("denied".to_string()))).err().unwrap();
    assert_eq!(read.format(), "/p/c.yaml: failed to read file: denied");
    assert!(load_program_from_file(Err(ConfigError::UnknownFormat("txt".to_string()))).is_err());
}

#[test]
fn load_result_formats() {
    let yaml = LoadResult {
        path: "/x.yaml".to_string(),
        error: ConfigError::YamlError { message: "bad".to_string(), line: Some(3) },
    };
    assert_eq!(yaml.format(), "/x.yaml: YAML parse error at line 3: bad");
    let json = LoadResult {
        path: "/x.json".to_string(),
        error: ConfigError::JsonError { message: "eof".to_string(), line: 2, column: 5 },
    };
    assert_eq!(json.format(), "/x.json: JSON parse error at line 2, column 5: eof");
    let fmt = LoadResult { path: "/x.txt".to_string(), error: ConfigError::UnknownFormat("txt".to_string()) };
    assert_eq!(fmt.format(), "/x.txt: unknown file format '.txt'\n  Hint: Use .yaml, .yml, or .json");
}

#[test]
fn config_error_detailed_messages() {
    let e = ConfigError::file_error("f.yaml", "oops").with_line(4).with_suggestion("fix it");
    assert_eq!(e.detailed_message(), "f.yaml:4: oops\n  Hint: fix it");
    assert_eq!(e.to_string(), "f.yaml: oops");
    let y = ConfigError::YamlError { message: "m".to_string(), line: Some(2) };
    assert_eq!(y.detailed_message(), "line 2: YAML parse error: m");
    let j = ConfigError::JsonError { message: "m".to_string(), line: 1, column: 9 };
    assert_eq!(j.detailed_message(), "JSON parse error at line 1, column 9: m");
}

#[test]
fn registry_lookups() {
    let mut registry = ProgramRegistry::new();
    assert!(registry.is_empty());
    registry.register(test_program("dev.cargo", "Cargo", Category::Dev, vec!["cargo"]));
    registry.register(test_program("devops.docker", "Docker", Category::DevOps, vec!["docker"]));
    assert_eq!(registry.len(), 2);
    assert_eq!(registry.categories(), vec![Category::Dev, Category::DevOps]);
    let ids: Vec<String> = registry.list().iter().map(|i: &&ProgramInfo| i.id.clone()).collect();
    assert!(ids.contains(&"dev.cargo".to_string()));
    assert!(registry.get("CARGO").is_some());
    assert!(registry.get("nothing").is_none());
}

#[test]
fn detect_prefers_longest_pattern_and_whole_words() {
    let mut registry = ProgramRegistry::new();
    registry.register(test_program("devops.docker", "Docker", Category::DevOps, vec!["docker"]));
    registry.register(test_program("devops.compose", "Compose", Category::DevOps, vec!["docker-compose"]));
    registry.register(test_program("dev.git", "Git", Category::Dev, vec!["git"]));
    assert_eq!(registry.detect("docker-compose up").unwrap().program_info().id, "devops.compose");
    assert_eq!(registry.detect("docker ps").unwrap().program_info().id, "devops.docker");
    assert_eq!(registry.detect("GIT status").unwrap().program_info().id, "dev.git");
    assert!(registry.detect("digit 5").is_none());
}

#[test]
fn register_replaces_same_id() {
    let mut registry = ProgramRegistry::default();
    registry.register(test_program("dev.a", "A", Category::Dev, vec!["a"]));
    registry.register(SimpleProgram::new("dev.a", "A2", "second", Category::Dev, Vec::new()));
    assert_eq!(registry.len(), 1);
    assert_eq!(registry.get("dev.a").unwrap().program_info().name, "A2");
}

#[test]
fn program_builders() {
    let info = ProgramInfo::new_static("x.y", "Y", "d", Category::Data);
    assert_eq!(info.duplicate().id, "x.y");
    let p = SimpleProgram::new("x.y", "Y", "d", Category::Data, Vec::new())
        .with_domain_colors(vec![("k".to_string(), Color::named("red"))])
        .with_detect_strings(vec!["y".to_string()]);
    assert_eq!(p.domain_color_list().len(), 1);
    assert_eq!(p.detect_list(), &vec!["y".to_string()]);
    assert_eq!(p.domain_colors().len(), 1);
}

#[test]
fn detection_patterns_are_literal_text() {
    let mut registry = ProgramRegistry::new();
    registry.register(test_program("dev.ab", "AB", Category::Dev, vec!["a.b"]));
    assert!(registry.detect("run a.b now").is_some());
    assert!(registry.detect("run axb now").is_none());
}

#[test]
fn detect_scores_each_program_by_its_longest_pattern() {
    let mut reg = ProgramRegistry::new();
    reg.register(test_program("dev.a", "A", Category::Dev, vec!["docker", "docker compose"]));
    reg.register(test_program("dev.b", "B", Category::Dev, vec!["compose up"]));
    assert_eq!(reg.detect("docker compose up").unwrap().program_info().id, "dev.a");
    assert!(reg.detect("other command").is_none());
}

#[test]
fn config_paths_in_a_root() {
    assert_eq!(phos::program::loader::programs_dir_in("/r"), "/r/phos/programs");
    assert_eq!(phos::program::loader::themes_dir_in("/r"), "/r/phos/themes");
    assert_eq!(phos::program::loader::global_config_path_in("/r"), "/r/phos/config.yaml");
}
