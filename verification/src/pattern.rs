//! Regular expressions, through the `regex` crate.
//!
//! A `CompiledPattern` pairs a pattern with the `regex::Regex` compiled from
//! it.  Only `regex_new` and `regex_copy` build one, and nothing in this module takes the two
//! fields apart, so the regex of every `CompiledPattern` is the one compiled
//! from its pattern; the contracts below speak of the pattern.
use vstd::prelude::*;
use vstd::utf8::{encode_utf8, is_char_boundary};

verus! {

/// A compiled regular expression of the `regex` crate.
#[verifier::external_type_specification]
#[verifier::external_body]
pub struct ExRegex(regex::Regex);

/// The error `regex::Regex::new` gives for an invalid pattern.
#[verifier::external_type_specification]
#[verifier::external_body]
pub struct ExRegexError(regex::Error);

/// Whether `regex::Regex::new` accepts the pattern.
pub uninterp spec fn regex_valid(pattern: Seq<char>) -> bool;

/// The error that `regex::Regex::new` gives for an invalid pattern (it
/// depends on the pattern alone).
pub uninterp spec fn regex_error(pattern: Seq<char>) -> regex::Error;

/// Whether `Regex::is_match` finds a match of the pattern in the text.
pub uninterp spec fn regex_is_match(pattern: Seq<char>, text: Seq<char>) -> bool;

/// The byte spans `(start, end)` of the matches that `Regex::find_iter`
/// yields for the pattern in the text, in order.
pub uninterp spec fn regex_find_spans(pattern: Seq<char>, text: Seq<char>) -> Seq<(usize, usize)>;

/// The text that `Regex::replace_all` gives for the pattern, the text and the
/// replacement (with `$1`-style group references expanded).
pub uninterp spec fn regex_replace_all(pattern: Seq<char>, text: Seq<char>, replacement: Seq<char>) -> Seq<char>;

/// Whether a character has a meaning in a regex (`regex_syntax::is_meta_character`).
pub open spec fn is_regex_meta(c: char) -> bool {
    c == '\\' || c == '.' || c == '+' || c == '*' || c == '?' || c == '(' || c == ')' || c == '|' || c == '['
        || c == ']' || c == '{' || c == '}' || c == '^' || c == '$' || c == '#' || c == '&' || c == '-' || c == '~'
}

/// The pattern that `regex::escape` gives: the text with a backslash before
/// every regex meta-character.
pub open spec fn regex_escape(text: Seq<char>) -> Seq<char>
    decreases text.len(),
{
    if text.len() == 0 {
        Seq::empty()
    } else {
        regex_escape(text.drop_last()) + if is_regex_meta(text.last()) {
            seq!['\\', text.last()]
        } else {
            seq![text.last()]
        }
    }
}

/// A pattern together with the regex compiled from it.
#[derive(Debug)]
pub struct CompiledPattern {
    source: String,
    regex: regex::Regex,
}

impl View for CompiledPattern {
    type V = Seq<char>;

    /// The pattern the regex was compiled from.
    closed spec fn view(&self) -> Seq<char> {
        self.source@
    }
}

/// The facts that the `regex` documentation gives of `find_iter` on a text:
/// each match lies within the text's UTF-8 bytes and starts and ends on
/// character boundaries, the matches do not overlap and come in order, and
/// there is one exactly when `is_match` holds.
pub open spec fn spans_well_formed(pattern: Seq<char>, text: Seq<char>, spans: Seq<(usize, usize)>) -> bool {
    &&& forall|i: int|
        0 <= i < spans.len() ==> {
            &&& (#[trigger] spans[i]).0 <= spans[i].1
            &&& spans[i].1 <= encode_utf8(text).len()
            &&& is_char_boundary(encode_utf8(text), spans[i].0 as int)
            &&& is_char_boundary(encode_utf8(text), spans[i].1 as int)
        }
    &&& forall|i: int, j: int| 0 <= i < j < spans.len() ==> (#[trigger] spans[i]).1 <= (#[trigger] spans[j]).0
    &&& regex_is_match(pattern, text) == (spans.len() > 0)
}

/// Calls `regex::Regex::new`: it succeeds exactly when the pattern is valid,
/// the compiled pattern keeps the given one, and an error is the one named
/// for the pattern.
#[verifier::external_body]
fn regex_new(pattern: &str) -> (r: Result<CompiledPattern, regex::Error>)
    ensures
        r is Ok <==> regex_valid(pattern@),
        r matches Ok(c) ==> c@ == pattern@,
        r matches Err(e) ==> e == regex_error(pattern@),
{
    match regex::Regex::new(pattern) {
        Ok(regex) => Ok(CompiledPattern { source: pattern.to_string(), regex }),
        Err(e) => Err(e),
    }
}

/// Compiles a pattern.  It succeeds exactly when the pattern is valid, the
/// compiled pattern is the given one, and an error is the regex crate's error
/// for that pattern.
pub fn compile(pattern: &str) -> (r: Result<CompiledPattern, regex::Error>)
    ensures
        r is Ok <==> regex_valid(pattern@),
        r matches Ok(c) ==> c@ == pattern@,
        r matches Err(e) ==> e == regex_error(pattern@),
{
    regex_new(pattern)
}

/// The message of a regex error (its `Display`).  Nothing is stated of it.
#[verifier::external_body]
pub(crate) fn error_text(e: &regex::Error) -> String {
    e.to_string()
}

/// Escapes every regex meta-character of `text` (`regex::escape`).
#[verifier::external_body]
pub(crate) fn escape(text: &str) -> (r: String)
    ensures
        r@ == regex_escape(text@),
{
    regex::escape(text)
}

impl CompiledPattern {
    /// The pattern this regex was compiled from.
    pub fn source(&self) -> (r: &str)
        ensures
            r@ == self@,
    {
        self.source.as_str()
    }

    /// Calls `Regex::is_match`.
    #[verifier::external_body]
    fn regex_matches(&self, text: &str) -> (r: bool)
        ensures
            r == regex_is_match(self@, text@),
    {
        self.regex.is_match(text)
    }

    /// Calls `Regex::find_iter`, each match taken as its start and end.
    #[verifier::external_body]
    fn regex_spans(&self, text: &str) -> (r: Vec<(usize, usize)>)
        ensures
            r@ == regex_find_spans(self@, text@),
            spans_well_formed(self@, text@, r@),
    {
        self.regex.find_iter(text).map(|m| (m.start(), m.end())).collect()
    }

    /// Calls `Regex::replace_all`.
    #[verifier::external_body]
    fn regex_replace(&self, text: &str, replacement: &str) -> (r: String)
        ensures
            r@ == regex_replace_all(self@, text@, replacement@),
    {
        self.regex.replace_all(text, replacement).into_owned()
    }

    /// Calls `Regex::clone`.
    #[verifier::external_body]
    fn regex_copy(&self) -> (r: CompiledPattern)
        ensures
            r@ == self@,
    {
        CompiledPattern { source: self.source.clone(), regex: self.regex.clone() }
    }

    /// Whether the regex matches somewhere in `text`.
    pub fn is_match(&self, text: &str) -> (r: bool)
        ensures
            r == regex_is_match(self@, text@),
    {
        self.regex_matches(text)
    }

    /// The byte spans of the successive non-overlapping matches in `text`.
    pub fn find_spans(&self, text: &str) -> (r: Vec<(usize, usize)>)
        ensures
            r@ == regex_find_spans(self@, text@),
            spans_well_formed(self@, text@, r@),
    {
        self.regex_spans(text)
    }

    /// Every match in `text` replaced by `replacement`, with group references
    /// expanded.
    pub fn replace_all(&self, text: &str, replacement: &str) -> (r: String)
        ensures
            r@ == regex_replace_all(self@, text@, replacement@),
    {
        self.regex_replace(text, replacement)
    }

    /// A copy of this compiled pattern.
    pub fn duplicate(&self) -> (r: CompiledPattern)
        ensures
            r@ == self@,
    {
        self.regex_copy()
    }
}

impl Clone for CompiledPattern {
    fn clone(&self) -> (r: CompiledPattern)
        ensures
            r@ == self@,
    {
        self.duplicate()
    }
}

} // verus!
