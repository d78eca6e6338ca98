//! Alert condition types and parsing.
use vstd::prelude::*;
use crate::pattern::{compile, error_text, regex_valid, CompiledPattern};
use crate::text::{
    eq_ignore_ascii_case, eq_ignore_ascii_case_spec, lowercase, owned, parse_int_error_text,
    parse_unsigned, parse_usize, push_str, split_once, split_once_spec, str_eq, to_lowercase, trim,
    trim_spec,
};

verus! {

/// Alert condition types that trigger webhook notifications.
#[derive(Debug, Clone)]
pub enum AlertCondition {
    /// Fire on first ERROR/FATAL/PANIC/CRIT detection.
    Error,
    /// Fire when error count reaches a threshold.
    ErrorThreshold { count: usize },
    /// Fire when peer count drops below a threshold.
    PeerDrop { threshold: usize },
    /// Fire when no sync progress is detected (sync stall).
    SyncStall,
    /// Fire on custom pattern match.
    Pattern { regex: CompiledPattern },
}

/// The mathematical form of an alert condition: a pattern is its source.
pub enum ConditionView {
    Error,
    ErrorThreshold { count: usize },
    PeerDrop { threshold: usize },
    SyncStall,
    Pattern { pattern: Seq<char> },
}

impl View for AlertCondition {
    type V = ConditionView;

    open spec fn view(&self) -> ConditionView {
        match self {
            AlertCondition::Error => ConditionView::Error,
            AlertCondition::ErrorThreshold { count } => ConditionView::ErrorThreshold { count: *count },
            AlertCondition::PeerDrop { threshold } => ConditionView::PeerDrop { threshold: *threshold },
            AlertCondition::SyncStall => ConditionView::SyncStall,
            AlertCondition::Pattern { regex } => ConditionView::Pattern { pattern: regex@ },
        }
    }
}

/// The identifier of a condition type.
pub open spec fn condition_type_spec(c: ConditionView) -> Seq<char> {
    match c {
        ConditionView::Error => "error"@,
        ConditionView::ErrorThreshold { .. } => "error_threshold"@,
        ConditionView::PeerDrop { .. } => "peer_drop"@,
        ConditionView::SyncStall => "sync_stall"@,
        ConditionView::Pattern { .. } => "pattern"@,
    }
}

impl AlertCondition {
    /// Returns a string identifier for this condition type.
    pub fn condition_type(&self) -> (r: &'static str)
        ensures
            r@ == condition_type_spec(self@),
    {
        match self {
            AlertCondition::Error => "error",
            AlertCondition::ErrorThreshold { .. } => "error_threshold",
            AlertCondition::PeerDrop { .. } => "peer_drop",
            AlertCondition::SyncStall => "sync_stall",
            AlertCondition::Pattern { .. } => "pattern",
        }
    }
}

/// Error parsing an alert condition from a string.
#[derive(Debug)]
pub enum ParseConditionError {
    /// The condition type is not known.
    UnknownType(String),
    /// A condition lacks its value.
    MissingValue(String),
    /// The value of a numeric condition is not a number.
    InvalidNumber(std::num::ParseIntError),
    /// The pattern of a pattern condition is not a valid regex.
    InvalidRegex(regex::Error),
}

/// The kind of a parse error, with the text of an unknown type.
pub enum ParseErrorKind {
    UnknownType(Seq<char>),
    MissingValue(Seq<char>),
    InvalidNumber,
    InvalidRegex,
}

impl View for ParseConditionError {
    type V = ParseErrorKind;

    open spec fn view(&self) -> ParseErrorKind {
        match self {
            ParseConditionError::UnknownType(s) => ParseErrorKind::UnknownType(s@),
            ParseConditionError::MissingValue(s) => ParseErrorKind::MissingValue(s@),
            ParseConditionError::InvalidNumber(_) => ParseErrorKind::InvalidNumber,
            ParseConditionError::InvalidRegex(_) => ParseErrorKind::InvalidRegex,
        }
    }
}

impl ParseConditionError {
    /// The message that `Display` gives for this error.  The text that
    /// follows the prefix of a number or regex error comes from `std` or
    /// `regex` and is not stated.
    pub fn to_string(&self) -> (r: String)
        ensures
            self@ matches ParseErrorKind::UnknownType(t) ==> r@ == "unknown condition type: "@ + t,
            self@ matches ParseErrorKind::MissingValue(t) ==> r@ == "missing value for condition: "@ + t,
            self@ is InvalidNumber ==> crate::text::seq_starts_with(r@, "invalid number: "@),
            self@ is InvalidRegex ==> crate::text::seq_starts_with(r@, "invalid regex pattern: "@),
    {
        match self {
            ParseConditionError::UnknownType(t) => {
                let mut r = owned("unknown condition type: ");
                push_str(&mut r, t.as_str());
                r
            }
            ParseConditionError::MissingValue(t) => {
                let mut r = owned("missing value for condition: ");
                push_str(&mut r, t.as_str());
                r
            }
            ParseConditionError::InvalidNumber(e) => {
                let mut r = owned("invalid number: ");
                let ghost head = r@;
                let m = parse_int_error_text(e);
                push_str(&mut r, m.as_str());
                assert(r@.subrange(0, head.len() as int) =~= head);
                r
            }
            ParseConditionError::InvalidRegex(e) => {
                let mut r = owned("invalid regex pattern: ");
                let ghost head = r@;
                let m = error_text(e);
                push_str(&mut r, m.as_str());
                assert(r@.subrange(0, head.len() as int) =~= head);
                r
            }
        }
    }
}

/// What parsing a condition from its CLI form gives, once the type name of a
/// `type:value` form has been lower-cased (`lowered` is that lower-cased name,
/// which only the `type:value` form uses).
///
/// - `error`, `sync-stall` (any ASCII case, surrounding white space ignored)
/// - `error-threshold:N`, `peer-drop:N`, `pattern:REGEX`
pub open spec fn parse_condition_spec(s: Seq<char>, lowered: Seq<char>) -> Result<ConditionView, ParseErrorKind> {
    let t = trim_spec(s);
    if eq_ignore_ascii_case_spec(t, "error"@) {
        Ok(ConditionView::Error)
    } else if eq_ignore_ascii_case_spec(t, "sync-stall"@) {
        Ok(ConditionView::SyncStall)
    } else {
        match split_once_spec(t, ':') {
            Some((ty, value)) => {
                let v = trim_spec(value);
                if lowered == "error-threshold"@ {
                    match parse_unsigned(v, usize::MAX as int) {
                        Some(n) => Ok(ConditionView::ErrorThreshold { count: n as usize }),
                        None => Err(ParseErrorKind::InvalidNumber),
                    }
                } else if lowered == "peer-drop"@ {
                    match parse_unsigned(v, usize::MAX as int) {
                        Some(n) => Ok(ConditionView::PeerDrop { threshold: n as usize }),
                        None => Err(ParseErrorKind::InvalidNumber),
                    }
                } else if lowered == "pattern"@ {
                    if regex_valid(v) {
                        Ok(ConditionView::Pattern { pattern: v })
                    } else {
                        Err(ParseErrorKind::InvalidRegex)
                    }
                } else {
                    Err(ParseErrorKind::UnknownType(lowered))
                }
            },
            None => Err(ParseErrorKind::UnknownType(t)),
        }
    }
}

/// The lower-cased type name of a `type:value` condition string.
pub open spec fn condition_type_name(s: Seq<char>) -> Seq<char> {
    match split_once_spec(trim_spec(s), ':') {
        Some((ty, _)) => lowercase(trim_spec(ty)),
        None => Seq::empty(),
    }
}

/// The result of a parse, in view form.
pub open spec fn parse_result_view(r: Result<AlertCondition, ParseConditionError>) -> Result<ConditionView, ParseErrorKind> {
    match r {
        Ok(c) => Ok(c@),
        Err(e) => Err(e@),
    }
}

/// Parses the value of a `type:value` condition, given the lower-cased type.
pub fn parse_typed_condition(lowered: &str, value: &str) -> (r: Result<AlertCondition, ParseConditionError>)
    ensures
        parse_result_view(r) == (if lowered@ == "error-threshold"@ {
            match parse_unsigned(trim_spec(value@), usize::MAX as int) {
                Some(n) => Ok(ConditionView::ErrorThreshold { count: n as usize }),
                None => Err(ParseErrorKind::InvalidNumber),
            }
        } else if lowered@ == "peer-drop"@ {
            match parse_unsigned(trim_spec(value@), usize::MAX as int) {
                Some(n) => Ok(ConditionView::PeerDrop { threshold: n as usize }),
                None => Err(ParseErrorKind::InvalidNumber),
            }
        } else if lowered@ == "pattern"@ {
            if regex_valid(trim_spec(value@)) {
                Ok(ConditionView::Pattern { pattern: trim_spec(value@) })
            } else {
                Err(ParseErrorKind::InvalidRegex)
            }
        } else {
            Err(ParseErrorKind::UnknownType(lowered@))
        }),
{
    let v = trim(value);
    if str_eq(lowered, "error-threshold") {
        match parse_usize(v.as_str()) {
            Ok(count) => Ok(AlertCondition::ErrorThreshold { count }),
            Err(e) => Err(ParseConditionError::InvalidNumber(e)),
        }
    } else if str_eq(lowered, "peer-drop") {
        match parse_usize(v.as_str()) {
            Ok(threshold) => Ok(AlertCondition::PeerDrop { threshold }),
            Err(e) => Err(ParseConditionError::InvalidNumber(e)),
        }
    } else if str_eq(lowered, "pattern") {
        match compile(v.as_str()) {
            Ok(regex) => Ok(AlertCondition::Pattern { regex }),
            Err(e) => Err(ParseConditionError::InvalidRegex(e)),
        }
    } else {
        Err(ParseConditionError::UnknownType(owned(lowered)))
    }
}

/// Parses a condition from its CLI form: `error`, `error-threshold:10`,
/// `peer-drop:5`, `sync-stall` or `pattern:FATAL|OOM`.
pub fn parse_condition(s: &str) -> (r: Result<AlertCondition, ParseConditionError>)
    ensures
        parse_result_view(r) == parse_condition_spec(s@, condition_type_name(s@)),
{
    let t = trim(s);
    if eq_ignore_ascii_case(t.as_str(), "error") {
        return Ok(AlertCondition::Error);
    }
    if eq_ignore_ascii_case(t.as_str(), "sync-stall") {
        return Ok(AlertCondition::SyncStall);
    }
    match split_once(t.as_str(), ':') {
        Some((ty, value)) => {
            let tt = trim(ty.as_str());
            let lowered = to_lowercase(tt.as_str());
            parse_typed_condition(lowered.as_str(), value.as_str())
        },
        None => Err(ParseConditionError::UnknownType(t)),
    }
}

impl std::str::FromStr for AlertCondition {
    type Err = ParseConditionError;

    fn from_str(s: &str) -> (r: Result<Self, Self::Err>)
        ensures
            parse_result_view(r) == parse_condition_spec(s@, condition_type_name(s@)),
    {
        parse_condition(s)
    }
}

/// Alert severity levels.
#[derive(Debug, Clone, Copy, PartialEq, Eq, Structural)]
pub enum AlertSeverity {
    Critical,
    Error,
    Warning,
    Info,
}

impl Default for AlertSeverity {
    fn default() -> (r: AlertSeverity)
        ensures
            r == AlertSeverity::Warning,
    {
        AlertSeverity::Warning
    }
}

/// The Discord embed color of a severity.
pub open spec fn discord_color_spec(s: AlertSeverity) -> u32 {
    match s {
        AlertSeverity::Critical => 0xFF0000,
        AlertSeverity::Error => 0xFF5500,
        AlertSeverity::Warning => 0xFFAA00,
        AlertSeverity::Info => 0x55AAFF,
    }
}

/// The short tag of a severity.
pub open spec fn tag_spec(s: AlertSeverity) -> Seq<char> {
    match s {
        AlertSeverity::Critical => "[!!!]"@,
        AlertSeverity::Error => "[ERR]"@,
        AlertSeverity::Warning => "[WRN]"@,
        AlertSeverity::Info => "[INF]"@,
    }
}

impl AlertSeverity {
    /// Discord embed color (decimal).
    pub fn discord_color(&self) -> (r: u32)
        ensures
            r == discord_color_spec(*self),
    {
        match self {
            AlertSeverity::Critical => 0xFF_0000,
            AlertSeverity::Error => 0xFF_5500,
            AlertSeverity::Warning => 0xFF_AA00,
            AlertSeverity::Info => 0x55_AAFF,
        }
    }

    /// Display string for messages.
    pub fn as_str(&self) -> (r: &'static str)
        ensures
            r@ == match *self {
                AlertSeverity::Critical => "CRITICAL"@,
                AlertSeverity::Error => "ERROR"@,
                AlertSeverity::Warning => "WARNING"@,
                AlertSeverity::Info => "INFO"@,
            },
    {
        match self {
            AlertSeverity::Critical => "CRITICAL",
            AlertSeverity::Error => "ERROR",
            AlertSeverity::Warning => "WARNING",
            AlertSeverity::Info => "INFO",
        }
    }

    /// Short tag for compact display.
    pub fn tag(&self) -> (r: &'static str)
        ensures
            r@ == tag_spec(*self),
    {
        match self {
            AlertSeverity::Critical => "[!!!]",
            AlertSeverity::Error => "[ERR]",
            AlertSeverity::Warning => "[WRN]",
            AlertSeverity::Info => "[INF]",
        }
    }
}

} // verus!
