//! Configuration directories, and the results of loading program files.
use vstd::prelude::*;
use crate::category::category_from_id;
use crate::pattern::regex_error;
use crate::program::config::{first_invalid_regex, program_spec, ConfigError, ProgramConfig};
use crate::program::SimpleProgram;
use crate::text::{decimal, lowercase, owned, plain_name, push_str, seq_ends_with, usize_string};

verus! {

/// The user's configuration directory as `dirs::config_dir` finds it, as
/// text.  It depends on the platform and the environment, so nothing is
/// stated of it.
#[verifier::external_body]
fn user_config_root() -> Option<String> {
    dirs::config_dir().map(|p| p.to_string_lossy().into_owned())
}

/// The path `base` joined with `part`, as `std::path::Path::join` builds it.
pub uninterp spec fn path_joined(base: Seq<char>, part: Seq<char>) -> Seq<char>;

/// Calls `Path::join` and converts the result back to text; the result is
/// named by `path_joined`, a function of the two arguments alone.  A plain
/// name (a relative path of one normal component) is appended, so the result
/// ends with it.
#[verifier::external_body]
fn join_path(base: &str, part: &str) -> (r: String)
    ensures
        r@ == path_joined(base@, part@),
        plain_name(part@) ==> seq_ends_with(r@, part@),
{
    std::path::Path::new(base).join(part).to_string_lossy().into_owned()
}

/// The phos directory inside a configuration root.
pub fn config_dir_in(root: &str) -> (r: String)
    ensures
        r@ == path_joined(root@, "phos"@),
{
    join_path(root, "phos")
}

/// Get the user configuration directory (`phos` in the platform's
/// configuration directory), if the platform has one.
pub fn config_dir() -> (r: Option<String>)
    ensures
        r matches Some(d) ==> exists|root: Seq<char>| d@ == #[trigger] path_joined(root, "phos"@),
{
    match user_config_root() {
        Some(root) => Some(config_dir_in(root.as_str())),
        None => None,
    }
}

/// The programs directory inside a configuration root.
pub fn programs_dir_in(root: &str) -> (r: String)
    ensures
        r@ == path_joined(path_joined(root@, "phos"@), "programs"@),
        seq_ends_with(r@, "programs"@),
{
    proof {
        reveal_strlit("programs");
        assert("programs"@[0] != '.');
    }
    let c = config_dir_in(root);
    join_path(c.as_str(), "programs")
}

/// The themes directory inside a configuration root.
pub fn themes_dir_in(root: &str) -> (r: String)
    ensures
        r@ == path_joined(path_joined(root@, "phos"@), "themes"@),
        seq_ends_with(r@, "themes"@),
{
    proof {
        reveal_strlit("themes");
        assert("themes"@[0] != '.');
    }
    let c = config_dir_in(root);
    join_path(c.as_str(), "themes")
}

/// The global configuration file inside a configuration root.
pub fn global_config_path_in(root: &str) -> (r: String)
    ensures
        r@ == path_joined(path_joined(root@, "phos"@), "config.yaml"@),
        seq_ends_with(r@, "config.yaml"@),
{
    proof {
        reveal_strlit("config.yaml");
        assert("config.yaml"@[0] != '.');
    }
    let c = config_dir_in(root);
    join_path(c.as_str(), "config.yaml")
}

/// Get the programs directory (`phos/programs` in the platform's
/// configuration directory), if the platform has one.
pub fn programs_dir() -> (r: Option<String>)
    ensures
        r matches Some(d) ==> exists|root: Seq<char>| d@ == path_joined(#[trigger] path_joined(root, "phos"@), "programs"@),
        r matches Some(d) ==> seq_ends_with(d@, "programs"@),
{
    match user_config_root() {
        Some(root) => Some(programs_dir_in(root.as_str())),
        None => None,
    }
}

/// Get the themes directory (`phos/themes` in the platform's configuration
/// directory), if the platform has one.
pub fn themes_dir() -> (r: Option<String>)
    ensures
        r matches Some(d) ==> exists|root: Seq<char>| d@ == path_joined(#[trigger] path_joined(root, "phos"@), "themes"@),
        r matches Some(d) ==> seq_ends_with(d@, "themes"@),
{
    match user_config_root() {
        Some(root) => Some(themes_dir_in(root.as_str())),
        None => None,
    }
}

/// Get the global configuration file path (`phos/config.yaml` in the
/// platform's configuration directory), if the platform has one.
pub fn global_config_path() -> (r: Option<String>)
    ensures
        r matches Some(d) ==> exists|root: Seq<char>| d@ == path_joined(#[trigger] path_joined(root, "phos"@), "config.yaml"@),
        r matches Some(d) ==> seq_ends_with(d@, "config.yaml"@),
{
    match user_config_root() {
        Some(root) => Some(global_config_path_in(root.as_str())),
        None => None,
    }
}

/// Result of loading a user program: the file and the error that occurred.
#[derive(Debug)]
pub struct LoadResult {
    /// Path to the config file that failed to load.
    pub path: String,
    /// The error that occurred during loading.
    pub error: ConfigError,
}

impl LoadResult {
    /// Format the error with file context.  The texts of regex and category
    /// errors come from their own formatting and are not stated.
    pub fn format(&self) -> (r: String)
        ensures
            self.error matches ConfigError::YamlError { message, line } ==> r@ == self.path@ + ": YAML parse error"@
                + match line {
                Some(l) => " at line "@ + decimal(l as nat),
                None => Seq::empty(),
            } + ": "@ + message@,
            self.error matches ConfigError::JsonError { message, line, column } ==> r@ == self.path@
                + ": JSON parse error at line "@ + decimal(line as nat) + ", column "@ + decimal(column as nat) + ": "@
                + message@,
            self.error matches ConfigError::ReadError(e) ==> r@ == self.path@ + ": failed to read file: "@ + e@,
            self.error matches ConfigError::UnknownFormat(ext) ==> r@ == self.path@ + ": unknown file format '."@
                + ext@ + "'\n  Hint: Use .yaml, .yml, or .json"@,
            self.error matches ConfigError::FileError { file, message, .. } ==> r@ == self.path@ + ": "@ + file@
                + ": "@ + message@,
    {
        let mut r = owned(self.path.as_str());
        match &self.error {
            ConfigError::YamlError { message, line } => {
                push_str(&mut r, ": YAML parse error");
                let ghost head = r@;
                if let Some(l) = line {
                    push_str(&mut r, " at line ");
                    let d = usize_string(*l);
                    push_str(&mut r, d.as_str());
                }
                let ghost mid = r@;
                push_str(&mut r, ": ");
                push_str(&mut r, message.as_str());
                proof {
                    let lp = match *line {
                        Some(l) => " at line "@ + decimal(l as nat),
                        None => Seq::<char>::empty(),
                    };
                    assert(mid =~= head + lp);
                }
            },
            ConfigError::JsonError { message, line, column } => {
                push_str(&mut r, ": JSON parse error at line ");
                let d = usize_string(*line);
                push_str(&mut r, d.as_str());
                push_str(&mut r, ", column ");
                let d = usize_string(*column);
                push_str(&mut r, d.as_str());
                push_str(&mut r, ": ");
                push_str(&mut r, message.as_str());
            },
            ConfigError::RegexError(_) => {
                push_str(&mut r, ": invalid regex pattern: ");
                let t = self.error.to_string();
                push_str(&mut r, t.as_str());
                push_str(&mut r, "\n  Hint: Check for unescaped special characters like \\, [, ], (, )");
            },
            ConfigError::ReadError(e) => {
                push_str(&mut r, ": failed to read file: ");
                push_str(&mut r, e.as_str());
            },
            ConfigError::UnknownFormat(ext) => {
                push_str(&mut r, ": unknown file format '.");
                push_str(&mut r, ext.as_str());
                push_str(&mut r, "'\n  Hint: Use .yaml, .yml, or .json");
            },
            _ => {
                push_str(&mut r, ": ");
                let t = self.error.to_string();
                push_str(&mut r, t.as_str());
            },
        }
        r
    }
}

/// Load a single program from a loaded configuration file: the
/// configuration's error, or its conversion to a program.
pub fn load_program_from_file(loaded: Result<ProgramConfig, ConfigError>) -> (r: Result<SimpleProgram, ConfigError>)
    ensures
        match loaded {
            Err(e) => r matches Err(e2) && e2 == e,
            Ok(config) => match category_from_id(lowercase(config.category@)) {
                None => r matches Err(ConfigError::InvalidCategory(e)) && e.0@ == config.category@,
                Some(cat) => match first_invalid_regex(config.rules@) {
                    None => r matches Ok(p) && p@ == program_spec(config, cat),
                    Some(i) => r matches Err(e) && e == ConfigError::RegexError(regex_error(config.rules@[i].regex@)),
                },
            },
        },
{
    match loaded {
        Ok(config) => config.to_program(),
        Err(e) => Err(e),
    }
}

/// Validate a loaded program configuration file: a summary of the program
/// (`name (id) - N rules`) if it converts, else the error with the file.
pub fn validate_program_file(path: &str, loaded: Result<ProgramConfig, ConfigError>) -> (r: Result<String, LoadResult>)
    ensures
        match loaded {
            Err(e) => r matches Err(lr) && lr.path@ == path@ && lr.error == e,
            Ok(config) => match category_from_id(lowercase(config.category@)) {
                Some(cat) => match first_invalid_regex(config.rules@) {
                    None => r matches Ok(s) && s@ == program_spec(config, cat).info.name + " ("@
                        + program_spec(config, cat).info.id + ") - "@ + decimal(config.rules@.len()) + " rules"@,
                    Some(i) => r matches Err(lr) && lr.path@ == path@ && lr.error == ConfigError::RegexError(
                        regex_error(config.rules@[i].regex@),
                    ),
                },
                None => r matches Err(lr) && lr.path@ == path@ && lr.error is InvalidCategory,
            },
        },
{
    match loaded {
        Ok(config) => {
            let ghost c = config;
            match config.to_program() {
                Ok(program) => {
                    let info = program.program_info();
                    let mut s = owned(info.name.as_str());
                    push_str(&mut s, " (");
                    push_str(&mut s, info.id.as_str());
                    push_str(&mut s, ") - ");
                    let n = usize_string(program.rule_list().len());
                    push_str(&mut s, n.as_str());
                    push_str(&mut s, " rules");
                    proof {
                        let cat = category_from_id(lowercase(c.category@))->0;
                        assert(program@ == program_spec(c, cat));
                        assert(info@ == program_spec(c, cat).info);
                        assert(program@.rules.len() == c.rules@.len());
                    }
                    Ok(s)
                },
                Err(error) => Err(LoadResult { path: owned(path), error }),
            }
        },
        Err(error) => Err(LoadResult { path: owned(path), error }),
    }
}

} // verus!
