//! Configuration files: rule sets, the global settings, and their formats.
use vstd::prelude::*;
use crate::colors::{semantic_from_lower, ColorView, SemanticColor};
use crate::pattern::{error_text, regex_valid};
use crate::rule::{CountMode, Rule, RuleView};
use crate::colorizer::rules_view;
use crate::text::{lowercase, owned, push_str, seq_starts_with, str_eq, to_lowercase};

verus! {

/// Configuration loading errors.
#[derive(Debug)]
pub enum ConfigError {
    /// The file could not be read (the reason, as text).
    ReadError(String),
    /// The YAML is malformed (the reason, as text).
    YamlError(String),
    /// The JSON is malformed (the reason, as text).
    JsonError(String),
    /// A rule's regex does not compile.
    RegexError(regex::Error),
    /// The file's extension names no known format.
    UnknownFormat(String),
    /// An error in a given file.
    PathContext { path: String, source: Box<ConfigError> },
}

/// The message of an error, where it holds no regex error (whose text
/// comes from the `regex` crate).
pub open spec fn config_error_text(e: ConfigError) -> Option<Seq<char>>
    decreases e,
{
    match e {
        ConfigError::ReadError(s) => Some("Failed to read config file: "@ + s@),
        ConfigError::YamlError(s) => Some("Failed to parse YAML: "@ + s@),
        ConfigError::JsonError(s) => Some("Failed to parse JSON: "@ + s@),
        ConfigError::RegexError(_) => None,
        ConfigError::UnknownFormat(s) => Some("Unknown file format: "@ + s@),
        ConfigError::PathContext { path, source } => match config_error_text(*source) {
            Some(t) => Some(path@ + ": "@ + t),
            None => None,
        },
    }
}

impl ConfigError {
    /// Wrap this error with file path context.
    pub fn with_path(self, path: &str) -> (r: ConfigError)
        ensures
            r matches ConfigError::PathContext { path: p, source } && p@ == path@ && *source == self,
    {
        ConfigError::PathContext { path: owned(path), source: Box::new(self) }
    }

    /// The message that `Display` gives for this error.  The text of a regex
    /// error comes from the regex crate and is not stated.
    pub fn to_string(&self) -> (r: String)
        ensures
            config_error_text(*self) matches Some(t) ==> r@ == t,
            self matches ConfigError::RegexError(_) ==> seq_starts_with(r@, "Invalid regex pattern: "@),
        decreases self,
    {
        match self {
            ConfigError::ReadError(s) => {
                let mut r = owned("Failed to read config file: ");
                push_str(&mut r, s.as_str());
                r
            },
            ConfigError::YamlError(s) => {
                let mut r = owned("Failed to parse YAML: ");
                push_str(&mut r, s.as_str());
                r
            },
            ConfigError::JsonError(s) => {
                let mut r = owned("Failed to parse JSON: ");
                push_str(&mut r, s.as_str());
                r
            },
            ConfigError::RegexError(e) => {
                let mut r = owned("Invalid regex pattern: ");
                let ghost head = r@;
                let t = error_text(e);
                push_str(&mut r, t.as_str());
                assert(r@.subrange(0, head.len() as int) =~= head);
                r
            },
            ConfigError::UnknownFormat(s) => {
                let mut r = owned("Unknown file format: ");
                push_str(&mut r, s.as_str());
                r
            },
            ConfigError::PathContext { path, source } => {
                let mut r = owned(path.as_str());
                push_str(&mut r, ": ");
                let inner = source.to_string();
                push_str(&mut r, inner.as_str());
                r
            },
        }
    }
}

/// File format detected from extension.
#[derive(Debug, Clone, Copy, PartialEq, Eq, Structural)]
pub enum FileFormat {
    Yaml,
    Json,
}

/// The format a lower-cased extension names.
pub open spec fn format_from_lower(l: Seq<char>) -> Option<FileFormat> {
    if l == "yaml"@ || l == "yml"@ {
        Some(FileFormat::Yaml)
    } else if l == "json"@ {
        Some(FileFormat::Json)
    } else {
        None
    }
}

/// The extension of a path, as `std::path::Path::extension` finds it (the
/// part of the file name after its last dot, for a name with a dot that does
/// not only start it).
pub uninterp spec fn path_extension(path: Seq<char>) -> Option<Seq<char>>;

/// Calls `Path::extension` and converts it back to a string.  The result is
/// named by `path_extension`, a function of the path alone.
#[verifier::external_body]
fn extension_of(path: &str) -> (r: Option<String>)
    ensures
        match r {
            Some(e) => path_extension(path@) == Some(e@),
            None => path_extension(path@) is None,
        },
{
    std::path::Path::new(path).extension().and_then(|e| e.to_str()).map(|e| e.to_string())
}

impl FileFormat {
    /// Detect format from file path extension; `None` for unknown extensions.
    pub fn from_path(path: &str) -> (r: Option<FileFormat>)
        ensures
            r == match path_extension(path@) {
                Some(e) => format_from_lower(lowercase(e)),
                None => None,
            },
    {
        match extension_of(path) {
            Some(e) => FileFormat::from_extension(e.as_str()),
            None => None,
        }
    }

    /// Detect format from extension string (any case).
    pub fn from_extension(ext: &str) -> (r: Option<FileFormat>)
        ensures
            r == format_from_lower(lowercase(ext@)),
    {
        let l = to_lowercase(ext);
        let l = l.as_str();
        if str_eq(l, "yaml") || str_eq(l, "yml") {
            Some(FileFormat::Yaml)
        } else if str_eq(l, "json") {
            Some(FileFormat::Json)
        } else {
            None
        }
    }
}

/// Rule configuration from file.
#[derive(Debug)]
pub struct RuleConfig {
    /// Regex pattern
    pub regex: String,
    /// Colors to apply
    pub colors: Vec<String>,
    /// Whether to apply bold
    pub bold: bool,
    /// Skip the entire line if this rule matches
    pub skip: bool,
    /// Replacement pattern (uses ${1}, ${2} for backreferences)
    pub replace: Option<String>,
}

/// The color a color name stands for in a rule configuration: a semantic
/// color if it names one, else a named color.
pub open spec fn color_of_name(c: Seq<char>) -> ColorView {
    match semantic_from_lower(lowercase(c)) {
        Some(s) => ColorView::Semantic(s),
        None => ColorView::Named(c),
    }
}

/// The colors of a rule configuration: every name but `bold`, in order.
pub open spec fn config_colors(cs: Seq<String>) -> Seq<ColorView>
    decreases cs.len(),
{
    if cs.len() == 0 {
        Seq::empty()
    } else if cs.last()@ == "bold"@ {
        config_colors(cs.drop_last())
    } else {
        config_colors(cs.drop_last()).push(color_of_name(cs.last()@))
    }
}

/// Whether `bold` is among the color names.
pub open spec fn names_bold(cs: Seq<String>) -> bool {
    exists|i: int| 0 <= i < cs.len() && (#[trigger] cs[i])@ == "bold"@
}

/// The rule a rule configuration describes.
pub open spec fn rule_config_spec(c: RuleConfig) -> RuleView {
    RuleView {
        pattern: c.regex@,
        colors: config_colors(c.colors@),
        bold: c.bold || names_bold(c.colors@),
        skip: c.skip,
        replace: match c.replace {
            Some(r) => Some(r@),
            None => None,
        },
        count_mode: CountMode::Normal,
    }
}

/// Parse a semantic color name.
pub fn parse_semantic_color(name: &str) -> (r: Option<SemanticColor>)
    ensures
        r == semantic_from_lower(lowercase(name@)),
{
    SemanticColor::from_name(name)
}

/// Convert a single rule config to a rule: an error exactly when its regex
/// does not compile.
pub fn rule_from_config(config: &RuleConfig) -> (r: Result<Rule, ConfigError>)
    ensures
        r is Ok <==> regex_valid(config.regex@),
        r matches Ok(rule) ==> rule@ == rule_config_spec(*config),
        r matches Err(e) ==> e is RegexError,
{
    let mut builder = match Rule::new(config.regex.as_str()) {
        Ok(b) => b,
        Err(e) => return Err(ConfigError::RegexError(e)),
    };
    let ghost start = builder@;
    let mut i: usize = 0;
    let mut has_bold = false;
    while i < config.colors.len()
        invariant
            i <= config.colors@.len(),
            builder@ == (RuleView { colors: config_colors(config.colors@.take(i as int)), ..start }),
            start.colors == Seq::<ColorView>::empty(),
            has_bold == exists|j: int| 0 <= j < i && (#[trigger] config.colors@[j])@ == "bold"@,
        decreases config.colors@.len() - i,
    {
        let c = config.colors[i].as_str();
        proof {
            let q = config.colors@.take(i + 1);
            assert(q.drop_last() =~= config.colors@.take(i as int));
            assert(q.last() == config.colors@[i as int]);
        }
        if str_eq(c, "bold") {
            has_bold = true;
        } else {
            builder = match parse_semantic_color(c) {
                Some(s) => builder.semantic(s),
                None => builder.named(c),
            };
        }
        i += 1;
    }
    assert(config.colors@.take(config.colors@.len() as int) =~= config.colors@);
    if config.skip {
        builder = builder.skip();
    }
    if let Some(replacement) = &config.replace {
        builder = builder.replace(replacement.as_str());
    }
    let should_bold = config.bold || has_bold;
    let builder = if should_bold {
        builder.bold()
    } else {
        builder
    };
    Ok(builder.build())
}

/// Configuration file format.
#[derive(Debug)]
pub struct Config {
    /// Configuration name
    pub name: String,
    /// Description
    pub description: String,
    /// Rules to apply
    pub rules: Vec<RuleConfig>,
}

impl Config {
    /// Convert configuration to rules: all of them, or the regex error of the
    /// first rule whose regex does not compile.
    pub fn to_rules(&self) -> (r: Result<Vec<Rule>, ConfigError>)
        ensures
            r is Ok <==> forall|i: int| 0 <= i < self.rules@.len() ==> regex_valid((#[trigger] self.rules@[i]).regex@),
            r matches Ok(v) ==> rules_view(v@) == self.rules@.map_values(|c: RuleConfig| rule_config_spec(c)),
            r matches Err(e) ==> e is RegexError,
    {
        let mut out: Vec<Rule> = Vec::new();
        let mut i: usize = 0;
        while i < self.rules.len()
            invariant
                i <= self.rules@.len(),
                forall|j: int| 0 <= j < i ==> regex_valid((#[trigger] self.rules@[j]).regex@),
                rules_view(out@) == self.rules@.take(i as int).map_values(|c: RuleConfig| rule_config_spec(c)),
            decreases self.rules@.len() - i,
        {
            match rule_from_config(&self.rules[i]) {
                Ok(rule) => {
                    let ghost before = out@;
                    out.push(rule);
                    assert(rules_view(out@) =~= rules_view(before).push(rule@));
                    assert(self.rules@.take(i + 1).map_values(|c: RuleConfig| rule_config_spec(c)) =~= self.rules@.take(
                        i as int,
                    ).map_values(|c: RuleConfig| rule_config_spec(c)).push(rule_config_spec(self.rules@[i as int])));
                },
                Err(e) => {
                    return Err(e);
                },
            }
            i += 1;
        }
        assert(self.rules@.take(self.rules@.len() as int) =~= self.rules@);
        Ok(out)
    }
}

/// PTY (pseudo-terminal) configuration.
#[derive(Debug)]
pub struct PtyConfig {
    /// Drain timeout in milliseconds after child exits.
    pub drain_timeout_ms: i32,
    /// Maximum drain retries before giving up.
    pub drain_max_retries: u32,
    /// Additional commands to treat as interactive (requiring PTY).
    pub interactive_commands: Vec<String>,
}

/// The default drain timeout, in milliseconds.
pub fn default_drain_timeout() -> (r: i32)
    ensures
        r == 100,
{
    100
}

/// The default number of drain retries.
pub fn default_drain_retries() -> (r: u32)
    ensures
        r == 3,
{
    3
}

impl Default for PtyConfig {
    fn default() -> (r: PtyConfig)
        ensures
            r.drain_timeout_ms == 100,
            r.drain_max_retries == 3,
            r.interactive_commands@.len() == 0,
    {
        PtyConfig {
            drain_timeout_ms: default_drain_timeout(),
            drain_max_retries: default_drain_retries(),
            interactive_commands: Vec::new(),
        }
    }
}

/// Alerting configuration section.
#[derive(Debug)]
pub struct AlertsConfig {
    /// Webhook URL
    pub url: Option<String>,
    /// Telegram chat ID
    pub telegram_chat_id: Option<String>,
    /// Cooldown between alerts in seconds
    pub cooldown: u64,
    /// Alert conditions
    pub conditions: Vec<String>,
}

/// The cooldown a configuration file gets when it names none, in seconds.
pub fn default_cooldown() -> (r: u64)
    ensures
        r == 60,
{
    60
}

impl Default for AlertsConfig {
    fn default() -> (r: AlertsConfig)
        ensures
            r.url is None,
            r.telegram_chat_id is None,
            r.cooldown == 0,
            r.conditions@.len() == 0,
    {
        AlertsConfig { url: None, telegram_chat_id: None, cooldown: 0, conditions: Vec::new() }
    }
}

/// Global phos configuration.
///
/// Settings in this file provide defaults that can be overridden by CLI flags.
#[derive(Debug)]
pub struct GlobalConfig {
    /// Default theme name
    pub theme: Option<String>,
    /// Enable stats by default
    pub stats: bool,
    /// Default stats export format (human, json, prometheus)
    pub stats_export: Option<String>,
    /// Stats interval in seconds (0 = end only)
    pub stats_interval: u64,
    /// Force color output
    pub color: bool,
    /// Default alerting configuration
    pub alerts: AlertsConfig,
    /// PTY configuration
    pub pty: PtyConfig,
}

impl Default for GlobalConfig {
    fn default() -> (r: GlobalConfig)
        ensures
            r.theme is None,
            !r.stats,
            r.stats_export is None,
            r.stats_interval == 0,
            !r.color,
            r.alerts.url is None && r.alerts.cooldown == 0 && r.alerts.conditions@.len() == 0,
            r.pty.drain_timeout_ms == 100 && r.pty.drain_max_retries == 3,
    {
        GlobalConfig {
            theme: None,
            stats: false,
            stats_export: None,
            stats_interval: 0,
            color: false,
            alerts: AlertsConfig::default(),
            pty: PtyConfig::default(),
        }
    }
}

} // verus!
