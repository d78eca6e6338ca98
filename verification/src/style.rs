//! Terminal text styles and their ANSI escape sequences.
//!
//! A `Style` is a foreground color and a bold flag.  Painting a text with a
//! style writes the SGR sequence that turns the style on, the text and the
//! reset sequence, as terminals expect; a plain style writes the text alone.
use vstd::prelude::*;
use crate::text::{decimal, decimal_string, push_str};

verus! {

/// A terminal foreground color.
#[derive(Debug, Clone, Copy, PartialEq, Eq, Structural)]
pub enum AnsiColor {
    Black,
    Red,
    Green,
    Yellow,
    Blue,
    Magenta,
    Cyan,
    White,
    DarkGray,
    LightRed,
    LightGreen,
    LightYellow,
    LightBlue,
    LightMagenta,
    LightCyan,
    LightGray,
    Rgb(u8, u8, u8),
    Default,
}

/// The SGR parameters that select a foreground color.
pub open spec fn fg_code(c: AnsiColor) -> Seq<char> {
    match c {
        AnsiColor::Black => "30"@,
        AnsiColor::Red => "31"@,
        AnsiColor::Green => "32"@,
        AnsiColor::Yellow => "33"@,
        AnsiColor::Blue => "34"@,
        AnsiColor::Magenta => "35"@,
        AnsiColor::Cyan => "36"@,
        AnsiColor::White => "37"@,
        AnsiColor::DarkGray => "90"@,
        AnsiColor::LightRed => "91"@,
        AnsiColor::LightGreen => "92"@,
        AnsiColor::LightYellow => "93"@,
        AnsiColor::LightBlue => "94"@,
        AnsiColor::LightMagenta => "95"@,
        AnsiColor::LightCyan => "96"@,
        AnsiColor::LightGray => "97"@,
        AnsiColor::Rgb(r, g, b) => "38;2;"@ + decimal(r as nat) + ";"@ + decimal(g as nat) + ";"@ + decimal(b as nat),
        AnsiColor::Default => "39"@,
    }
}

/// A text style: an optional foreground color, and bold or not.
#[derive(Debug, Clone, Copy, PartialEq, Eq, Structural)]
pub struct Style {
    /// The style's foreground color, if it has one.
    pub foreground: Option<AnsiColor>,
    /// Whether this style is bold.
    pub is_bold: bool,
}

/// Whether a style changes nothing.
pub open spec fn is_plain_spec(s: Style) -> bool {
    s.foreground is None && !s.is_bold
}

/// The escape sequence that turns a style on: `ESC [`, the bold code, the
/// foreground code (separated by `;`), and `m`.
pub open spec fn style_prefix(s: Style) -> Seq<char> {
    "\x1b["@ + (if s.is_bold {
        "1"@
    } else {
        Seq::empty()
    }) + match s.foreground {
        Some(c) => (if s.is_bold {
            ";"@
        } else {
            Seq::empty()
        }) + fg_code(c),
        None => Seq::empty(),
    } + "m"@
}

/// The escape sequence that resets all styles.
pub open spec fn reset_code() -> Seq<char> {
    "\x1b[0m"@
}

/// A text painted with a style: the text alone for a plain style, else the
/// style's prefix, the text and the reset sequence.
pub open spec fn painted(s: Style, text: Seq<char>) -> Seq<char> {
    if is_plain_spec(s) {
        text
    } else {
        style_prefix(s) + text + reset_code()
    }
}

/// Appends the foreground code of a color.
fn push_fg_code(r: &mut String, c: AnsiColor)
    ensures
        final(r)@ == old(r)@ + fg_code(c),
{
    match c {
        AnsiColor::Black => push_str(r, "30"),
        AnsiColor::Red => push_str(r, "31"),
        AnsiColor::Green => push_str(r, "32"),
        AnsiColor::Yellow => push_str(r, "33"),
        AnsiColor::Blue => push_str(r, "34"),
        AnsiColor::Magenta => push_str(r, "35"),
        AnsiColor::Cyan => push_str(r, "36"),
        AnsiColor::White => push_str(r, "37"),
        AnsiColor::DarkGray => push_str(r, "90"),
        AnsiColor::LightRed => push_str(r, "91"),
        AnsiColor::LightGreen => push_str(r, "92"),
        AnsiColor::LightYellow => push_str(r, "93"),
        AnsiColor::LightBlue => push_str(r, "94"),
        AnsiColor::LightMagenta => push_str(r, "95"),
        AnsiColor::LightCyan => push_str(r, "96"),
        AnsiColor::LightGray => push_str(r, "97"),
        AnsiColor::Rgb(red, green, blue) => {
            let ghost start = r@;
            push_str(r, "38;2;");
            let d = decimal_string(red as u64);
            push_str(r, d.as_str());
            push_str(r, ";");
            let d = decimal_string(green as u64);
            push_str(r, d.as_str());
            push_str(r, ";");
            let d = decimal_string(blue as u64);
            push_str(r, d.as_str());
            assert(r@ =~= start + fg_code(c));
        },
        AnsiColor::Default => push_str(r, "39"),
    }
}

impl Style {
    /// A style with no properties set.
    pub fn new() -> (r: Style)
        ensures
            r.foreground is None,
            !r.is_bold,
    {
        Style { foreground: None, is_bold: false }
    }

    /// The style with its foreground color set.
    pub fn fg(self, color: AnsiColor) -> (r: Style)
        ensures
            r == (Style { foreground: Some(color), ..self }),
    {
        Style { foreground: Some(color), ..self }
    }

    /// The style made bold.
    pub fn bold(self) -> (r: Style)
        ensures
            r == (Style { is_bold: true, ..self }),
    {
        Style { is_bold: true, ..self }
    }

    /// Whether the style changes nothing.
    pub fn is_plain(&self) -> (r: bool)
        ensures
            r == is_plain_spec(*self),
    {
        self.foreground.is_none() && !self.is_bold
    }

    /// Appends the text painted with this style.
    pub fn paint_into(&self, out: &mut String, text: &str)
        ensures
            final(out)@ == old(out)@ + painted(*self, text@),
    {
        if self.is_plain() {
            push_str(out, text);
            return;
        }
        let ghost start = out@;
        push_str(out, "\x1b[");
        if self.is_bold {
            push_str(out, "1");
        }
        let ghost mid = out@;
        match self.foreground {
            Some(c) => {
                if self.is_bold {
                    push_str(out, ";");
                }
                push_fg_code(out, c);
            },
            None => {},
        }
        proof {
            let fg = match self.foreground {
                Some(c) => (if self.is_bold {
                    ";"@
                } else {
                    Seq::<char>::empty()
                }) + fg_code(c),
                None => Seq::<char>::empty(),
            };
            assert(out@ =~= mid + fg);
        }
        push_str(out, "m");
        push_str(out, text);
        push_str(out, "\x1b[0m");
        proof {
            reveal_strlit("");
            assert(out@ =~= start + painted(*self, text@));
        }
    }

    /// The text painted with this style.
    pub fn paint(&self, text: &str) -> (r: String)
        ensures
            r@ == painted(*self, text@),
    {
        let mut r = String::new();
        self.paint_into(&mut r, text);
        assert(r@ =~= painted(*self, text@));
        r
    }
}

impl Default for Style {
    fn default() -> (r: Style)
        ensures
            r.foreground is None,
            !r.is_bold,
    {
        Style::new()
    }
}

} // verus!
