//! Color types: concrete colors, semantic colors resolved by themes, and
//! color specifications from configuration files.
pub mod brands;

use vstd::prelude::*;
use vstd::string::StringSliceAdditionalSpecFns;
use vstd::utf8::encode_utf8;
use crate::style::{AnsiColor, Style};
use crate::text::{lowercase, owned, starts_with, str_eq, to_lowercase};

verus! {

/// Semantic colors that themes resolve to actual colors.
///
/// The universal ones (log levels, data types, structure, status, generic
/// identifiers) have names that configuration files can use; the others
/// name the kinds of values that Ethereum client logs carry.
#[derive(Debug, Clone, Copy, PartialEq, Eq, Hash, Structural)]
pub enum SemanticColor {
    // Log levels
    Error,
    Warn,
    Info,
    Debug,
    Trace,
    // Data types
    Number,
    String,
    Boolean,
    // Structure
    Timestamp,
    Key,
    Value,
    // Status
    Success,
    Failure,
    // Generic identifiers
    Identifier,
    Label,
    Metric,
    // Ethereum values
    Hash,
    Address,
    Slot,
    Epoch,
    BlockNumber,
    PeerId,
    Syncing,
    Validator,
    Pubkey,
    Duty,
    Committee,
    Finality,
    Root,
    Attestation,
    MevValue,
    Relay,
    Builder,
}

/// The semantic color a lower-cased name stands for.
pub open spec fn semantic_from_lower(l: Seq<char>) -> Option<SemanticColor> {
    if l == "error"@ {
        Some(SemanticColor::Error)
    } else if l == "warn"@ || l == "warning"@ {
        Some(SemanticColor::Warn)
    } else if l == "info"@ {
        Some(SemanticColor::Info)
    } else if l == "debug"@ {
        Some(SemanticColor::Debug)
    } else if l == "trace"@ {
        Some(SemanticColor::Trace)
    } else if l == "number"@ {
        Some(SemanticColor::Number)
    } else if l == "string"@ {
        Some(SemanticColor::String)
    } else if l == "boolean"@ || l == "bool"@ {
        Some(SemanticColor::Boolean)
    } else if l == "timestamp"@ || l == "time"@ {
        Some(SemanticColor::Timestamp)
    } else if l == "key"@ {
        Some(SemanticColor::Key)
    } else if l == "value"@ {
        Some(SemanticColor::Value)
    } else if l == "success"@ {
        Some(SemanticColor::Success)
    } else if l == "failure"@ || l == "fail"@ {
        Some(SemanticColor::Failure)
    } else if l == "identifier"@ || l == "id"@ {
        Some(SemanticColor::Identifier)
    } else if l == "label"@ || l == "tag"@ {
        Some(SemanticColor::Label)
    } else if l == "metric"@ || l == "measure"@ {
        Some(SemanticColor::Metric)
    } else {
        None
    }
}

impl SemanticColor {
    /// The universal semantic colors, those with names.
    pub fn all() -> (r: Vec<SemanticColor>)
        ensures
            r@ == seq![
                SemanticColor::Error, SemanticColor::Warn, SemanticColor::Info, SemanticColor::Debug,
                SemanticColor::Trace, SemanticColor::Number, SemanticColor::String, SemanticColor::Boolean,
                SemanticColor::Timestamp, SemanticColor::Key, SemanticColor::Value, SemanticColor::Success,
                SemanticColor::Failure, SemanticColor::Identifier, SemanticColor::Label, SemanticColor::Metric,
            ],
    {
        let r = vec![
            SemanticColor::Error, SemanticColor::Warn, SemanticColor::Info, SemanticColor::Debug,
            SemanticColor::Trace, SemanticColor::Number, SemanticColor::String, SemanticColor::Boolean,
            SemanticColor::Timestamp, SemanticColor::Key, SemanticColor::Value, SemanticColor::Success,
            SemanticColor::Failure, SemanticColor::Identifier, SemanticColor::Label, SemanticColor::Metric,
        ];
        r
    }

    /// Parse a semantic color from its name (any case).
    pub fn from_name(name: &str) -> (r: Option<SemanticColor>)
        ensures
            r == semantic_from_lower(lowercase(name@)),
    {
        let l = to_lowercase(name);
        let l = l.as_str();
        if str_eq(l, "error") {
            Some(SemanticColor::Error)
        } else if str_eq(l, "warn") || str_eq(l, "warning") {
            Some(SemanticColor::Warn)
        } else if str_eq(l, "info") {
            Some(SemanticColor::Info)
        } else if str_eq(l, "debug") {
            Some(SemanticColor::Debug)
        } else if str_eq(l, "trace") {
            Some(SemanticColor::Trace)
        } else if str_eq(l, "number") {
            Some(SemanticColor::Number)
        } else if str_eq(l, "string") {
            Some(SemanticColor::String)
        } else if str_eq(l, "boolean") || str_eq(l, "bool") {
            Some(SemanticColor::Boolean)
        } else if str_eq(l, "timestamp") || str_eq(l, "time") {
            Some(SemanticColor::Timestamp)
        } else if str_eq(l, "key") {
            Some(SemanticColor::Key)
        } else if str_eq(l, "value") {
            Some(SemanticColor::Value)
        } else if str_eq(l, "success") {
            Some(SemanticColor::Success)
        } else if str_eq(l, "failure") || str_eq(l, "fail") {
            Some(SemanticColor::Failure)
        } else if str_eq(l, "identifier") || str_eq(l, "id") {
            Some(SemanticColor::Identifier)
        } else if str_eq(l, "label") || str_eq(l, "tag") {
            Some(SemanticColor::Label)
        } else if str_eq(l, "metric") || str_eq(l, "measure") {
            Some(SemanticColor::Metric)
        } else {
            None
        }
    }
}

/// The terminal color a lower-cased ANSI color name stands for (`Default`
/// for any other name).
pub open spec fn named_color(l: Seq<char>) -> AnsiColor {
    if l == "black"@ {
        AnsiColor::Black
    } else if l == "red"@ {
        AnsiColor::Red
    } else if l == "green"@ {
        AnsiColor::Green
    } else if l == "yellow"@ {
        AnsiColor::Yellow
    } else if l == "blue"@ {
        AnsiColor::Blue
    } else if l == "magenta"@ || l == "purple"@ {
        AnsiColor::Magenta
    } else if l == "cyan"@ {
        AnsiColor::Cyan
    } else if l == "white"@ {
        AnsiColor::White
    } else if l == "bright_black"@ || l == "gray"@ || l == "grey"@ {
        AnsiColor::DarkGray
    } else if l == "bright_red"@ {
        AnsiColor::LightRed
    } else if l == "bright_green"@ {
        AnsiColor::LightGreen
    } else if l == "bright_yellow"@ {
        AnsiColor::LightYellow
    } else if l == "bright_blue"@ {
        AnsiColor::LightBlue
    } else if l == "bright_magenta"@ {
        AnsiColor::LightMagenta
    } else if l == "bright_cyan"@ {
        AnsiColor::LightCyan
    } else if l == "bright_white"@ {
        AnsiColor::LightGray
    } else {
        AnsiColor::Default
    }
}

/// Whether a lower-cased name is a standard ANSI color name.
pub open spec fn is_ansi_name(l: Seq<char>) -> bool {
    named_color(l) != AnsiColor::Default
}

/// The terminal color of a lower-cased ANSI color name.
fn named_color_exec(l: &str) -> (r: AnsiColor)
    ensures
        r == named_color(l@),
{
    if str_eq(l, "black") {
        AnsiColor::Black
    } else if str_eq(l, "red") {
        AnsiColor::Red
    } else if str_eq(l, "green") {
        AnsiColor::Green
    } else if str_eq(l, "yellow") {
        AnsiColor::Yellow
    } else if str_eq(l, "blue") {
        AnsiColor::Blue
    } else if str_eq(l, "magenta") || str_eq(l, "purple") {
        AnsiColor::Magenta
    } else if str_eq(l, "cyan") {
        AnsiColor::Cyan
    } else if str_eq(l, "white") {
        AnsiColor::White
    } else if str_eq(l, "bright_black") || str_eq(l, "gray") || str_eq(l, "grey") {
        AnsiColor::DarkGray
    } else if str_eq(l, "bright_red") {
        AnsiColor::LightRed
    } else if str_eq(l, "bright_green") {
        AnsiColor::LightGreen
    } else if str_eq(l, "bright_yellow") {
        AnsiColor::LightYellow
    } else if str_eq(l, "bright_blue") {
        AnsiColor::LightBlue
    } else if str_eq(l, "bright_magenta") {
        AnsiColor::LightMagenta
    } else if str_eq(l, "bright_cyan") {
        AnsiColor::LightCyan
    } else if str_eq(l, "bright_white") {
        AnsiColor::LightGray
    } else {
        AnsiColor::Default
    }
}

/// Check if a name is a standard ANSI color (any case).
pub fn is_ansi_color(name: &str) -> (r: bool)
    ensures
        r == is_ansi_name(lowercase(name@)),
{
    let l = to_lowercase(name);
    let c = named_color_exec(l.as_str());
    !matches!(c, AnsiColor::Default)
}

/// Color specification that can reference universal semantics or domain colors.
///
/// A name is read, in this order, as a semantic color, a hex color (it starts
/// with `#`), a named ANSI color, or else a domain-specific color.
#[derive(Debug, Clone, PartialEq)]
pub enum ColorSpec {
    /// Universal semantic color (resolved by theme)
    Semantic(SemanticColor),
    /// Domain-specific color (resolved by program's `domain_colors`)
    Domain(String),
    /// Named ANSI color
    Named(String),
    /// Hex color
    Hex(String),
}

/// The mathematical form of a color specification.
pub enum ColorSpecView {
    Semantic(SemanticColor),
    Domain(Seq<char>),
    Named(Seq<char>),
    Hex(Seq<char>),
}

impl View for ColorSpec {
    type V = ColorSpecView;

    open spec fn view(&self) -> ColorSpecView {
        match self {
            ColorSpec::Semantic(s) => ColorSpecView::Semantic(*s),
            ColorSpec::Domain(s) => ColorSpecView::Domain(s@),
            ColorSpec::Named(s) => ColorSpecView::Named(s@),
            ColorSpec::Hex(s) => ColorSpecView::Hex(s@),
        }
    }
}

/// How a color name is read.
pub open spec fn color_spec_from_name(name: Seq<char>) -> ColorSpecView {
    match semantic_from_lower(lowercase(name)) {
        Some(s) => ColorSpecView::Semantic(s),
        None => if name.len() > 0 && name[0] == '#' {
            ColorSpecView::Hex(name)
        } else if is_ansi_name(lowercase(name)) {
            ColorSpecView::Named(name)
        } else {
            ColorSpecView::Domain(name)
        },
    }
}

impl ColorSpec {
    /// Create from a color name, trying to parse as semantic first.
    pub fn from_name(name: &str) -> (r: ColorSpec)
        ensures
            r@ == color_spec_from_name(name@),
    {
        if let Some(semantic) = SemanticColor::from_name(name) {
            ColorSpec::Semantic(semantic)
        } else if starts_with(name, "#") {
            proof {
                reveal_strlit("#");
                assert(name@.take(1)[0] == name@[0]);
                assert(name@[0] == '#');
            }
            ColorSpec::Hex(owned(name))
        } else if is_ansi_color(name) {
            proof {
                reveal_strlit("#");
                assert(!(name@.len() > 0 && name@[0] == '#')) by {
                    if name@.len() > 0 && name@[0] == '#' {
                        assert(name@.take(1) =~= "#"@);
                    }
                }
            }
            ColorSpec::Named(owned(name))
        } else {
            proof {
                reveal_strlit("#");
                assert(!(name@.len() > 0 && name@[0] == '#')) by {
                    if name@.len() > 0 && name@[0] == '#' {
                        assert(name@.take(1) =~= "#"@);
                    }
                }
            }
            ColorSpec::Domain(owned(name))
        }
    }
}

/// Color representation for styling text: a named ANSI color, a hex color,
/// RGB values, or a semantic color resolved by the current theme.
#[derive(Debug, Clone, PartialEq)]
pub enum Color {
    /// Named color (e.g., "red", "`bright_blue`")
    Named(String),
    /// Hex color (e.g., "#FF5555")
    Hex(String),
    /// RGB color
    Rgb { r: u8, g: u8, b: u8 },
    /// Semantic color resolved by theme
    Semantic(SemanticColor),
}

/// The mathematical form of a color.
pub enum ColorView {
    Named(Seq<char>),
    Hex(Seq<char>),
    Rgb { r: u8, g: u8, b: u8 },
    Semantic(SemanticColor),
}

impl View for Color {
    type V = ColorView;

    open spec fn view(&self) -> ColorView {
        match self {
            Color::Named(s) => ColorView::Named(s@),
            Color::Hex(s) => ColorView::Hex(s@),
            Color::Rgb { r, g, b } => ColorView::Rgb { r: *r, g: *g, b: *b },
            Color::Semantic(s) => ColorView::Semantic(*s),
        }
    }
}

/// The style a color gives on its own: its foreground for named, hex and RGB
/// colors (an unparsable hex color gives the plain style); a semantic color
/// gives the plain style, as themes resolve it.
pub open spec fn color_style(c: ColorView) -> Style {
    match c {
        ColorView::Named(n) => Style { foreground: Some(named_color(lowercase(n))), is_bold: false },
        ColorView::Hex(h) => match parse_hex_rgb_spec(encode_utf8(h)) {
            Some((r, g, b)) => Style { foreground: Some(AnsiColor::Rgb(r, g, b)), is_bold: false },
            None => Style { foreground: None, is_bold: false },
        },
        ColorView::Rgb { r, g, b } => Style { foreground: Some(AnsiColor::Rgb(r, g, b)), is_bold: false },
        ColorView::Semantic(_) => Style { foreground: None, is_bold: false },
    }
}

impl Color {
    /// Create a semantic color.
    pub fn semantic(s: SemanticColor) -> (r: Color)
        ensures
            r@ == ColorView::Semantic(s),
    {
        Color::Semantic(s)
    }

    /// Create a named color.
    pub fn named(name: &str) -> (r: Color)
        ensures
            r@ == ColorView::Named(name@),
    {
        Color::Named(owned(name))
    }

    /// Create a hex color.
    pub fn hex(hex: &str) -> (r: Color)
        ensures
            r@ == ColorView::Hex(hex@),
    {
        Color::Hex(owned(hex))
    }

    /// Create an RGB color.
    pub fn rgb(r: u8, g: u8, b: u8) -> (c: Color)
        ensures
            c@ == (ColorView::Rgb { r, g, b }),
    {
        Color::Rgb { r, g, b }
    }

    /// A copy of this color.
    pub fn duplicate(&self) -> (r: Color)
        ensures
            r@ == self@,
    {
        match self {
            Color::Named(n) => Color::Named(owned(n.as_str())),
            Color::Hex(h) => Color::Hex(owned(h.as_str())),
            Color::Rgb { r, g, b } => Color::Rgb { r: *r, g: *g, b: *b },
            Color::Semantic(s) => Color::Semantic(*s),
        }
    }

    /// The style this color gives on its own.
    pub fn to_style(&self) -> (r: Style)
        ensures
            r == color_style(self@),
    {
        match self {
            Color::Named(name) => {
                let l = to_lowercase(name.as_str());
                Style::new().fg(named_color_exec(l.as_str()))
            },
            Color::Hex(hex) => match parse_hex_rgb(hex.as_str()) {
                Some((r, g, b)) => Style::new().fg(AnsiColor::Rgb(r, g, b)),
                None => Style::new(),
            },
            Color::Rgb { r, g, b } => Style::new().fg(AnsiColor::Rgb(*r, *g, *b)),
            Color::Semantic(_) => Style::new(),
        }
    }
}

/// The bytes after any leading `#` bytes.
pub open spec fn strip_hashes(b: Seq<u8>) -> Seq<u8>
    decreases b.len(),
{
    if b.len() > 0 && b[0] == 0x23 {
        strip_hashes(b.skip(1))
    } else {
        b
    }
}

/// The value of an ASCII hex digit.
pub open spec fn hex_digit_value(c: u8) -> Option<int> {
    if 0x30 <= c <= 0x39 {
        Some(c - 0x30)
    } else if 0x61 <= c <= 0x66 {
        Some(c - 0x61 + 10)
    } else if 0x41 <= c <= 0x46 {
        Some(c - 0x41 + 10)
    } else {
        None
    }
}

/// The value that `u8::from_str_radix(_, 16)` gives for two bytes: two hex
/// digits, or `+` and one hex digit.
pub open spec fn hex_pair(x: u8, y: u8) -> Option<u8> {
    if x == 0x2B {
        match hex_digit_value(y) {
            Some(v) => Some(v as u8),
            None => None,
        }
    } else {
        match (hex_digit_value(x), hex_digit_value(y)) {
            (Some(a), Some(b)) => Some((16 * a + b) as u8),
            _ => None,
        }
    }
}

/// The RGB components of a hex color's UTF-8 bytes: after any leading `#`,
/// three pairs of hex digits (further bytes are ignored).
pub open spec fn parse_hex_rgb_spec(b: Seq<u8>) -> Option<(u8, u8, u8)> {
    let h = strip_hashes(b);
    if h.len() < 6 {
        None
    } else {
        match (hex_pair(h[0], h[1]), hex_pair(h[2], h[3]), hex_pair(h[4], h[5])) {
            (Some(r), Some(g), Some(bl)) => Some((r, g, bl)),
            _ => None,
        }
    }
}

/// The value of one hex digit byte.
fn hex_digit(c: u8) -> (r: Option<u8>)
    ensures
        match hex_digit_value(c) {
            Some(v) => r == Some(v as u8),
            None => r is None,
        },
{
    if 0x30 <= c && c <= 0x39 {
        Some(c - 0x30)
    } else if 0x61 <= c && c <= 0x66 {
        Some(c - 0x61 + 10)
    } else if 0x41 <= c && c <= 0x46 {
        Some(c - 0x41 + 10)
    } else {
        None
    }
}

/// The value of a pair of bytes read as a base-16 number.
fn hex_pair_exec(x: u8, y: u8) -> (r: Option<u8>)
    ensures
        r == hex_pair(x, y),
{
    if x == 0x2B {
        hex_digit(y)
    } else {
        match (hex_digit(x), hex_digit(y)) {
            (Some(a), Some(b)) => Some(16 * a + b),
            _ => None,
        }
    }
}

proof fn lemma_strip_hashes(b: Seq<u8>, k: int)
    requires
        0 <= k <= b.len(),
        forall|j: int| 0 <= j < k ==> b[j] == 0x23,
    ensures
        strip_hashes(b) == strip_hashes(b.skip(k)),
    decreases k,
{
    if k > 0 {
        lemma_strip_hashes(b, k - 1);
        assert(b.skip(k - 1).skip(1) =~= b.skip(k));
        assert(b.skip(k - 1)[0] == b[k - 1]);
    } else {
        assert(b.skip(0) =~= b);
    }
}

/// Parse a hex color string to RGB components.
///
/// Accepts "#RRGGBB" and "RRGGBB" (any number of leading `#`); `None` if the
/// string is invalid.  Where a multi-byte character straddles one of the pairs,
/// the pair is not a number and the result is `None`.
pub fn parse_hex_rgb(hex: &str) -> (r: Option<(u8, u8, u8)>)
    ensures
        r == parse_hex_rgb_spec(hex.spec_bytes()),
{
    let b = hex.as_bytes();
    let mut k: usize = 0;
    while k < b.len() && b[k] == 0x23
        invariant
            k <= b@.len(),
            forall|j: int| 0 <= j < k ==> b@[j] == 0x23,
        decreases b@.len() - k,
    {
        k += 1;
    }
    proof {
        lemma_strip_hashes(b@, k as int);
        assert(strip_hashes(b@.skip(k as int)) == b@.skip(k as int));
    }
    if b.len() - k < 6 {
        return None;
    }
    let r = hex_pair_exec(b[k], b[k + 1]);
    let g = hex_pair_exec(b[k + 2], b[k + 3]);
    let bl = hex_pair_exec(b[k + 4], b[k + 5]);
    match (r, g, bl) {
        (Some(r), Some(g), Some(bl)) => Some((r, g, bl)),
        _ => None,
    }
}

} // verus!
