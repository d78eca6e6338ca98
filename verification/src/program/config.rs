//! Configuration of user-defined programs, and the errors of loading it.
use vstd::prelude::*;
use crate::category::{category_from_id, Category, ParseCategoryError};
use crate::colorizer::rules_view;
use crate::colors::{color_spec_from_name, Color, ColorSpec, ColorSpecView, ColorView};
use crate::config::{names_bold, RuleConfig};
use crate::pattern::{error_text, regex_error, regex_valid};
use crate::program::{named_colors_view, strings_view, ProgramInfo, ProgramInfoView, ProgramView, SimpleProgram};
use crate::rule::{CountMode, Rule, RuleView};
use crate::text::{
    lowercase, owned, push_str, replace, replace_all, starts_with, str_eq, to_lowercase, usize_string,
};

verus! {

/// The `:line` part of a file error's message.
pub open spec fn line_part(line: &Option<usize>) -> Seq<char> {
    match line {
        Some(l) => ":"@ + crate::text::decimal(l as nat),
        None => Seq::empty(),
    }
}

/// The hint part of a file error's message.
pub open spec fn hint_part(suggestion: &Option<String>) -> Seq<char> {
    match suggestion {
        Some(s) => "\n  Hint: "@ + s@,
        None => Seq::empty(),
    }
}

/// The `line N: ` part of a YAML error's message.
pub open spec fn yaml_line_part(line: &Option<usize>) -> Seq<char> {
    match line {
        Some(l) => "line "@ + crate::text::decimal(l as nat) + ": "@,
        None => Seq::empty(),
    }
}

/// Configuration loading errors.
#[allow(inconsistent_fields)]
#[derive(Debug)]
pub enum ConfigError {
    /// The file could not be read (the reason, as text).
    ReadError(String),
    /// The YAML is malformed: the message, and the line if known.
    YamlError { message: String, line: Option<usize> },
    /// The JSON is malformed: the message, line and column.
    JsonError { message: String, line: usize, column: usize },
    /// A rule's regex does not compile.
    RegexError(regex::Error),
    /// The file's extension names no known format.
    UnknownFormat(String),
    /// The category is not known.
    InvalidCategory(ParseCategoryError),
    /// An error in a file, with the line and a hint if known.
    FileError { file: String, message: String, line: Option<usize>, suggestion: Option<String> },
}

impl ConfigError {
    /// Create a file error with context.
    pub fn file_error(file: &str, message: &str) -> (r: ConfigError)
        ensures
            r matches ConfigError::FileError { file: f, message: m, line, suggestion } && f@ == file@ && m@
                == message@ && line is None && suggestion is None,
    {
        ConfigError::FileError { file: owned(file), message: owned(message), line: None, suggestion: None }
    }

    /// Add line number to a file error (other errors stay as they are).
    pub fn with_line(self, line: usize) -> (r: ConfigError)
        ensures
            match self {
                ConfigError::FileError { file, message, suggestion, .. } => r == (ConfigError::FileError {
                    file,
                    message,
                    line: Some(line),
                    suggestion,
                }),
                _ => r == self,
            },
    {
        match self {
            ConfigError::FileError { file, message, suggestion, .. } => ConfigError::FileError {
                file,
                message,
                line: Some(line),
                suggestion,
            },
            other => other,
        }
    }

    /// Add suggestion to a file error (other errors stay as they are).
    pub fn with_suggestion(self, suggestion: &str) -> (r: ConfigError)
        ensures
            match self {
                ConfigError::FileError { file, message, line, .. } => r matches ConfigError::FileError {
                    file: f,
                    message: m,
                    line: l,
                    suggestion: Some(s),
                } && f == file && m == message && l == line && s@ == suggestion@,
                _ => r == self,
            },
    {
        match self {
            ConfigError::FileError { file, message, line, .. } => ConfigError::FileError {
                file,
                message,
                line,
                suggestion: Some(owned(suggestion)),
            },
            other => other,
        }
    }

    /// The message that `Display` gives for this error.  The text of a regex
    /// error comes from the regex crate and is not stated.
    pub fn to_string(&self) -> (r: String)
        ensures
            self matches ConfigError::ReadError(s) ==> r@ == "Failed to read config file: "@ + s@,
            self matches ConfigError::YamlError { message, .. } ==> r@ == "Failed to parse YAML: "@ + message@,
            self matches ConfigError::JsonError { message, .. } ==> r@ == "Failed to parse JSON: "@ + message@,
            self matches ConfigError::UnknownFormat(s) ==> r@ == "Unknown file format: "@ + s@,
            self matches ConfigError::InvalidCategory(e) ==> r@ == "Invalid category: "@
                + crate::category::parse_category_error_message(e.0@),
            self matches ConfigError::FileError { file, message, .. } ==> r@ == file@ + ": "@ + message@,
            self matches ConfigError::RegexError(_) ==> crate::text::seq_starts_with(r@, "Invalid regex pattern: "@),
    {
        match self {
            ConfigError::ReadError(s) => {
                let mut r = owned("Failed to read config file: ");
                push_str(&mut r, s.as_str());
                r
            },
            ConfigError::YamlError { message, .. } => {
                let mut r = owned("Failed to parse YAML: ");
                push_str(&mut r, message.as_str());
                r
            },
            ConfigError::JsonError { message, .. } => {
                let mut r = owned("Failed to parse JSON: ");
                push_str(&mut r, message.as_str());
                r
            },
            ConfigError::RegexError(e) => {
                let mut r = owned("Invalid regex pattern: ");
                let ghost head = r@;
                let t = error_text(e);
                push_str(&mut r, t.as_str());
                assert(r@.subrange(0, head.len() as int) =~= head);
                r
            },
            ConfigError::UnknownFormat(s) => {
                let mut r = owned("Unknown file format: ");
                push_str(&mut r, s.as_str());
                r
            },
            ConfigError::InvalidCategory(e) => {
                let mut r = owned("Invalid category: ");
                let t = e.to_string();
                push_str(&mut r, t.as_str());
                r
            },
            ConfigError::FileError { file, message, .. } => {
                let mut r = owned(file.as_str());
                push_str(&mut r, ": ");
                push_str(&mut r, message.as_str());
                r
            },
        }
    }

    /// Format a detailed error message for display.
    pub fn detailed_message(&self) -> (r: String)
        ensures
            self matches ConfigError::FileError { file, message, line, suggestion } ==> r@ == file@ + line_part(line)
                + ": "@ + message@ + hint_part(suggestion),
            self matches ConfigError::YamlError { message, line } ==> r@ == yaml_line_part(line)
                + "YAML parse error: "@ + message@,
            self matches ConfigError::JsonError { message, line, column } ==> r@ == "JSON parse error at line "@
                + crate::text::decimal(line as nat) + ", column "@ + crate::text::decimal(column as nat) + ": "@
                + message@,
            self matches ConfigError::ReadError(s) ==> r@ == "Failed to read config file: "@ + s@,
            self matches ConfigError::UnknownFormat(s) ==> r@ == "Unknown file format: "@ + s@,
            self matches ConfigError::InvalidCategory(e) ==> r@ == "Invalid category: "@
                + crate::category::parse_category_error_message(e.0@),
            self matches ConfigError::RegexError(_) ==> crate::text::seq_starts_with(r@, "Invalid regex pattern: "@)
                && crate::text::seq_ends_with(
                r@,
                "\n  Hint: Check for unescaped special characters like \\, [, ], (, ), etc."@,
            ),
    {
        match self {
            ConfigError::FileError { file, message, line, suggestion } => {
                let mut msg = owned(file.as_str());
                let ghost start = msg@;
                if let Some(l) = line {
                    push_str(&mut msg, ":");
                    let d = usize_string(*l);
                    push_str(&mut msg, d.as_str());
                }
                let ghost with_line = msg@;
                push_str(&mut msg, ": ");
                push_str(&mut msg, message.as_str());
                let ghost with_message = msg@;
                if let Some(s) = suggestion {
                    push_str(&mut msg, "\n  Hint: ");
                    push_str(&mut msg, s.as_str());
                }
                proof {
                    assert(with_line =~= start + line_part(line));
                    assert(msg@ =~= with_message + hint_part(suggestion));
                    assert(msg@ =~= file@ + line_part(line) + ": "@ + message@ + hint_part(suggestion));
                }
                msg
            },
            ConfigError::YamlError { message, line } => {
                let mut msg = String::new();
                if let Some(l) = line {
                    push_str(&mut msg, "line ");
                    let d = usize_string(*l);
                    push_str(&mut msg, d.as_str());
                    push_str(&mut msg, ": ");
                }
                let ghost head = msg@;
                push_str(&mut msg, "YAML parse error: ");
                push_str(&mut msg, message.as_str());
                proof {
                    assert(head =~= yaml_line_part(line));
                    assert(msg@ =~= yaml_line_part(line) + "YAML parse error: "@ + message@);
                }
                msg
            },
            ConfigError::JsonError { message, line, column } => {
                let mut msg = owned("JSON parse error at line ");
                let d = usize_string(*line);
                push_str(&mut msg, d.as_str());
                push_str(&mut msg, ", column ");
                let d = usize_string(*column);
                push_str(&mut msg, d.as_str());
                push_str(&mut msg, ": ");
                push_str(&mut msg, message.as_str());
                msg
            },
            ConfigError::RegexError(e) => {
                let mut msg = owned("Invalid regex pattern: ");
                let ghost head = msg@;
                let t = error_text(e);
                push_str(&mut msg, t.as_str());
                let ghost mid = msg@;
                push_str(
                    &mut msg,
                    "\n  Hint: Check for unescaped special characters like \\, [, ], (, ), etc.",
                );
                assert(msg@.subrange(0, head.len() as int) =~= head);
                assert(msg@.skip(mid.len() as int) =~= "\n  Hint: Check for unescaped special characters like \\, [, ], (, ), etc."@);
                msg
            },
            _ => self.to_string(),
        }
    }
}

/// User-defined program configuration.
#[derive(Debug)]
pub struct ProgramConfig {
    /// Program name (used as ID if id not specified)
    pub name: String,
    /// Optional explicit ID (defaults to name)
    pub id: Option<String>,
    /// Description
    pub description: String,
    /// Category for grouping (defaults to "custom")
    pub category: String,
    /// Patterns for auto-detection
    pub detect: Vec<String>,
    /// Domain-specific semantic colors (name, color)
    pub semantic_colors: Vec<(String, String)>,
    /// Colorization rules
    pub rules: Vec<RuleConfig>,
}

/// The category a configuration gets when it names none.
pub fn default_category() -> (r: String)
    ensures
        r@ == "custom"@,
{
    owned("custom")
}

/// The ID of a program configuration: its explicit ID, or its category, a dot
/// and its lower-cased name with spaces made underscores.
pub open spec fn program_id_spec(c: ProgramConfig) -> Seq<char> {
    match c.id {
        Some(id) => id@,
        None => c.category@ + "."@ + replace_all(lowercase(c.name@), " "@, "_"@),
    }
}

/// The color a domain color value stands for: hex if it starts with `#`,
/// otherwise named.
pub open spec fn domain_color_of(v: Seq<char>) -> ColorView {
    if v.len() > 0 && v[0] == '#' {
        ColorView::Hex(v)
    } else {
        ColorView::Named(v)
    }
}

/// The domain colors of a configuration.
pub open spec fn domain_view(sc: Seq<(String, String)>) -> Seq<(Seq<char>, ColorView)> {
    sc.map_values(|e: (String, String)| (e.0@, domain_color_of(e.1@)))
}

/// The first domain color with a name.
pub open spec fn lookup_domain_from(d: Seq<(Seq<char>, ColorView)>, n: Seq<char>, i: int) -> Option<ColorView>
    decreases d.len() - i,
{
    if i < 0 || i >= d.len() {
        None
    } else if d[i].0 == n {
        Some(d[i].1)
    } else {
        lookup_domain_from(d, n, i + 1)
    }
}

/// The color a color name stands for in a program's rules.
pub open spec fn program_color(cn: Seq<char>, d: Seq<(Seq<char>, ColorView)>) -> ColorView {
    match color_spec_from_name(cn) {
        ColorSpecView::Semantic(s) => ColorView::Semantic(s),
        ColorSpecView::Domain(n) => match lookup_domain_from(d, n, 0) {
            Some(c) => c,
            None => ColorView::Named(n),
        },
        ColorSpecView::Named(n) => ColorView::Named(n),
        ColorSpecView::Hex(h) => ColorView::Hex(h),
    }
}

/// The rule a rule configuration describes in a program.
pub open spec fn program_rule_spec(rc: RuleConfig, d: Seq<(Seq<char>, ColorView)>) -> RuleView {
    RuleView {
        pattern: rc.regex@,
        colors: rc.colors@.map_values(|c: String| program_color(c@, d)),
        bold: rc.bold || names_bold(rc.colors@),
        skip: rc.skip,
        replace: match rc.replace {
            Some(r) => Some(r@),
            None => None,
        },
        count_mode: CountMode::Normal,
    }
}

/// The index of the first rule whose regex does not compile, if any.
pub open spec fn first_invalid_regex(rs: Seq<RuleConfig>) -> Option<int>
    decreases rs.len(),
{
    if rs.len() == 0 {
        None
    } else {
        match first_invalid_regex(rs.drop_last()) {
            Some(i) => Some(i),
            None => if regex_valid(rs.last().regex@) {
                None
            } else {
                Some(rs.len() - 1)
            },
        }
    }
}

/// The first invalid regex of a prefix that has one is the first of the
/// whole sequence.
proof fn lemma_first_invalid_prefix(rs: Seq<RuleConfig>, n: int)
    requires
        0 <= n <= rs.len(),
        first_invalid_regex(rs.take(n)) is Some,
    ensures
        first_invalid_regex(rs) == first_invalid_regex(rs.take(n)),
    decreases rs.len() - n,
{
    if n < rs.len() {
        let t = rs.take(n + 1);
        assert(t.drop_last() =~= rs.take(n));
        lemma_first_invalid_prefix(rs, n + 1);
    } else {
        assert(rs.take(n) =~= rs);
    }
}

/// The program a configuration describes, when its category is known and its
/// regexes compile.
pub open spec fn program_spec(c: ProgramConfig, category: Category) -> ProgramView {
    ProgramView {
        info: ProgramInfoView {
            id: program_id_spec(c),
            name: c.name@,
            description: c.description@,
            category,
        },
        rules: c.rules@.map_values(|rc: RuleConfig| program_rule_spec(rc, domain_view(c.semantic_colors@))),
        detect: strings_view(c.detect@),
        domain_colors: domain_view(c.semantic_colors@),
    }
}

/// Looks a domain color up by name.
fn lookup_domain<'a>(d: &'a Vec<(String, Color)>, n: &str) -> (r: Option<&'a Color>)
    ensures
        match lookup_domain_from(named_colors_view(d@), n@, 0) {
            Some(c) => r matches Some(x) && x@ == c,
            None => r is None,
        },
{
    let ghost dv = named_colors_view(d@);
    let mut i: usize = 0;
    while i < d.len()
        invariant
            i <= d@.len(),
            dv == named_colors_view(d@),
            lookup_domain_from(dv, n@, 0) == lookup_domain_from(dv, n@, i as int),
        decreases d@.len() - i,
    {
        assert(dv[i as int] == (d@[i as int].0@, d@[i as int].1@));
        if str_eq(d[i].0.as_str(), n) {
            return Some(&d[i].1);
        }
        i += 1;
    }
    None
}

impl ProgramConfig {
    /// Get the program ID.
    pub fn program_id(&self) -> (r: String)
        ensures
            r@ == program_id_spec(*self),
    {
        match &self.id {
            Some(id) => owned(id.as_str()),
            None => {
                let mut r = owned(self.category.as_str());
                push_str(&mut r, ".");
                let lower = to_lowercase(self.name.as_str());
                proof {
                    reveal_strlit(" ");
                }
                let replaced = replace(lower.as_str(), " ", "_");
                push_str(&mut r, replaced.as_str());
                r
            },
        }
    }

    /// The domain colors, each read as hex or named.
    fn domain_colors(&self) -> (r: Vec<(String, Color)>)
        ensures
            named_colors_view(r@) == domain_view(self.semantic_colors@),
    {
        let mut r: Vec<(String, Color)> = Vec::new();
        let mut i: usize = 0;
        while i < self.semantic_colors.len()
            invariant
                i <= self.semantic_colors@.len(),
                named_colors_view(r@) == domain_view(self.semantic_colors@).take(i as int),
            decreases self.semantic_colors@.len() - i,
        {
            let (name, value) = (&self.semantic_colors[i].0, &self.semantic_colors[i].1);
            let color = if starts_with(value.as_str(), "#") {
                proof {
                    reveal_strlit("#");
                    assert(value@.take(1)[0] == value@[0]);
                }
                Color::hex(value.as_str())
            } else {
                proof {
                    reveal_strlit("#");
                    if value@.len() > 0 && value@[0] == '#' {
                        assert(value@.take(1) =~= "#"@);
                    }
                }
                Color::named(value.as_str())
            };
            let ghost before = r@;
            r.push((owned(name.as_str()), color));
            assert(named_colors_view(r@) =~= named_colors_view(before).push((name@, domain_color_of(value@))));
            assert(domain_view(self.semantic_colors@).take(i + 1) =~= domain_view(self.semantic_colors@).take(
                i as int,
            ).push((name@, domain_color_of(value@))));
            i += 1;
        }
        assert(domain_view(self.semantic_colors@).take(self.semantic_colors@.len() as int) =~= domain_view(
            self.semantic_colors@,
        ));
        r
    }

    /// The rule of a rule configuration in this program.
    fn program_rule(rc: &RuleConfig, domain: &Vec<(String, Color)>) -> (r: Result<Rule, ConfigError>)
        ensures
            r is Ok <==> regex_valid(rc.regex@),
            r matches Ok(rule) ==> rule@ == program_rule_spec(*rc, named_colors_view(domain@)),
            r matches Err(e) ==> e == ConfigError::RegexError(regex_error(rc.regex@)),
    {
        let mut builder = match Rule::new(rc.regex.as_str()) {
            Ok(b) => b,
            Err(e) => return Err(ConfigError::RegexError(e)),
        };
        let ghost d = named_colors_view(domain@);
        let ghost start = builder@;
        assert(rc.colors@.take(0).map_values(|c: String| program_color(c@, d)) =~= start.colors);
        assert(builder@ == (RuleView { colors: start.colors, ..start }));
        let mut has_bold = false;
        let mut i: usize = 0;
        while i < rc.colors.len()
            invariant
                i <= rc.colors@.len(),
                d == named_colors_view(domain@),
                builder@ == (RuleView {
                    colors: rc.colors@.take(i as int).map_values(|c: String| program_color(c@, d)),
                    ..start
                }),
                has_bold == exists|j: int| 0 <= j < i && (#[trigger] rc.colors@[j])@ == "bold"@,
            decreases rc.colors@.len() - i,
        {
            let cn = rc.colors[i].as_str();
            if str_eq(cn, "bold") {
                has_bold = true;
            }
            builder = match ColorSpec::from_name(cn) {
                ColorSpec::Semantic(s) => builder.semantic(s),
                ColorSpec::Domain(name) => match lookup_domain(domain, name.as_str()) {
                    Some(c) => builder.color(c.duplicate()),
                    None => builder.named(name.as_str()),
                },
                ColorSpec::Named(name) => builder.named(name.as_str()),
                ColorSpec::Hex(hex) => builder.hex(hex.as_str()),
            };
            assert(rc.colors@.take(i + 1).map_values(|c: String| program_color(c@, d)) =~= rc.colors@.take(
                i as int,
            ).map_values(|c: String| program_color(c@, d)).push(program_color(cn@, d)));
            i += 1;
        }
        assert(rc.colors@.take(rc.colors@.len() as int) =~= rc.colors@);
        let builder = if rc.bold || has_bold {
            builder.bold()
        } else {
            builder
        };
        let builder = if rc.skip {
            builder.skip()
        } else {
            builder
        };
        let builder = match &rc.replace {
            Some(rep) => builder.replace(rep.as_str()),
            None => builder,
        };
        Ok(builder.build())
    }

    /// Convert to a program: an invalid category is an error, then the first
    /// rule whose regex does not compile.
    pub fn to_program(self) -> (r: Result<SimpleProgram, ConfigError>)
        ensures
            match category_from_id(lowercase(self.category@)) {
                None => r matches Err(ConfigError::InvalidCategory(e)) && e.0@ == self.category@,
                Some(cat) => match first_invalid_regex(self.rules@) {
                    None => r matches Ok(p) && p@ == program_spec(self, cat),
                    Some(i) => r == Err::<SimpleProgram, ConfigError>(
                        ConfigError::RegexError(regex_error(self.rules@[i].regex@)),
                    ),
                },
            },
    {
        let category = match Category::parse(self.category.as_str()) {
            Ok(c) => c,
            Err(e) => return Err(ConfigError::InvalidCategory(e)),
        };
        let id = self.program_id();
        let info = ProgramInfo::new(id.as_str(), self.name.as_str(), self.description.as_str(), category);
        let domain = self.domain_colors();
        let ghost d = named_colors_view(domain@);
        let mut rules: Vec<Rule> = Vec::new();
        let mut i: usize = 0;
        while i < self.rules.len()
            invariant
                i <= self.rules@.len(),
                d == named_colors_view(domain@),
                d == domain_view(self.semantic_colors@),
                category_from_id(lowercase(self.category@)) == Some(category),
                forall|j: int| 0 <= j < i ==> regex_valid((#[trigger] self.rules@[j]).regex@),
                first_invalid_regex(self.rules@.take(i as int)) is None,
                rules_view(rules@) == self.rules@.take(i as int).map_values(|rc: RuleConfig| program_rule_spec(rc, d)),
            decreases self.rules@.len() - i,
        {
            let ghost t = self.rules@.take(i as int + 1);
            assert(t.drop_last() =~= self.rules@.take(i as int));
            assert(t.last() == self.rules@[i as int]);
            match ProgramConfig::program_rule(&self.rules[i], &domain) {
                Ok(rule) => {
                    let ghost before = rules@;
                    rules.push(rule);
                    assert(rules_view(rules@) =~= rules_view(before).push(rule@));
                    assert(self.rules@.take(i + 1).map_values(|rc: RuleConfig| program_rule_spec(rc, d))
                        =~= self.rules@.take(i as int).map_values(|rc: RuleConfig| program_rule_spec(rc, d)).push(
                        program_rule_spec(self.rules@[i as int], d),
                    ));
                },
                Err(e) => {
                    assert(!regex_valid(self.rules@[i as int].regex@));
                    proof {
                        lemma_first_invalid_prefix(self.rules@, i as int + 1);
                    }
                    return Err(e);
                },
            }
            i += 1;
        }
        assert(self.rules@.take(self.rules@.len() as int) =~= self.rules@);
        assert(first_invalid_regex(self.rules@) is None);
        let ProgramConfig { detect, .. } = self;
        let program = SimpleProgram::new(info.id.as_str(), info.name.as_str(), info.description.as_str(), category, rules)
            .with_detect_strings(detect)
            .with_domain_colors(domain);
        Ok(program)
    }
}

} // verus!
