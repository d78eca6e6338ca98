//! ANSI to HTML conversion for web display.
use vstd::prelude::*;
use crate::text::{replace, replace_all};

verus! {

/// What `ansi_to_html::convert` gives for a text: the HTML with inline styles
/// for its escape sequences, or `None` where it reports an error.
pub uninterp spec fn ansi_conversion(input: Seq<char>) -> Option<Seq<char>>;

/// Calls `ansi_to_html::convert`.  Its result, and whether it fails, are
/// named by `ansi_conversion`, a function of the input alone.
#[verifier::external_body]
fn convert_ansi(input: &str) -> (r: Option<String>)
    ensures
        match r {
            Some(h) => ansi_conversion(input@) == Some(h@),
            None => ansi_conversion(input@) is None,
        },
{
    ansi_to_html::convert(input).ok()
}

/// A text with the HTML special characters escaped: `&`, `<`, `>`, `"`, `'`.
pub open spec fn html_escape_spec(s: Seq<char>) -> Seq<char> {
    replace_all(
        replace_all(
            replace_all(replace_all(replace_all(s, "&"@, "&amp;"@), "<"@, "&lt;"@), ">"@, "&gt;"@),
            "\""@,
            "&quot;"@,
        ),
        "'"@,
        "&#39;"@,
    )
}

/// Escape HTML special characters.
pub fn html_escape(input: &str) -> (r: String)
    ensures
        r@ == html_escape_spec(input@),
{
    proof {
        reveal_strlit("&");
        reveal_strlit("<");
        reveal_strlit(">");
        reveal_strlit("\"");
        reveal_strlit("'");
    }
    let a = replace(input, "&", "&amp;");
    let b = replace(a.as_str(), "<", "&lt;");
    let c = replace(b.as_str(), ">", "&gt;");
    let d = replace(c.as_str(), "\"", "&quot;");
    replace(d.as_str(), "'", "&#39;")
}

/// The HTML for a text given what the converter gave: its HTML, or the text
/// escaped when it failed.
pub fn html_from_conversion(input: &str, converted: Option<String>) -> (r: String)
    ensures
        r@ == match converted {
            Some(h) => h@,
            None => html_escape_spec(input@),
        },
{
    match converted {
        Some(h) => h,
        None => html_escape(input),
    }
}

/// Convert ANSI escape sequences to HTML spans (inline CSS), falling back to
/// the escaped text where the conversion fails.
pub fn ansi_to_html(input: &str) -> (r: String)
    ensures
        r@ == match ansi_conversion(input@) {
            Some(h) => h,
            None => html_escape_spec(input@),
        },
{
    let converted = convert_ansi(input);
    html_from_conversion(input, converted)
}

} // verus!
