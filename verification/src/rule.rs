//! Colorization rules: a regex, the colors of its matches, and how it acts
//! on a line.
use vstd::prelude::*;
use crate::colors::{Color, ColorView, SemanticColor};
use crate::pattern::{compile, regex_error, regex_find_spans, regex_is_match, regex_valid, spans_well_formed, CompiledPattern};
use crate::text::owned;

verus! {

/// How a rule's matches count.
#[derive(Debug, Clone, Copy, PartialEq, Eq, Structural)]
pub enum CountMode {
    /// Color every match.
    Normal,
    /// Color the first match only.
    Once,
    /// A match starts a block: the following text takes the rule's style.
    Block,
    /// A match ends a block.
    Unblock,
}

/// A colorization rule.
#[derive(Debug)]
pub struct Rule {
    /// The compiled regex.
    pub regex: CompiledPattern,
    /// Colors to apply to matches (the last that gives a foreground wins).
    pub colors: Vec<Color>,
    /// Whether matches are bold.
    pub bold: bool,
    /// Whether a line that matches is dropped.
    pub skip: bool,
    /// Replacement for matches, with `${1}`-style group references.
    pub replace: Option<String>,
    /// How matches count.
    pub count_mode: CountMode,
}

/// The mathematical form of a rule.
pub struct RuleView {
    pub pattern: Seq<char>,
    pub colors: Seq<ColorView>,
    pub bold: bool,
    pub skip: bool,
    pub replace: Option<Seq<char>>,
    pub count_mode: CountMode,
}

/// The colors in view form.
pub open spec fn colors_view(cs: Seq<Color>) -> Seq<ColorView> {
    cs.map_values(|c: Color| c@)
}

/// An optional string in view form.
pub open spec fn opt_view(o: Option<String>) -> Option<Seq<char>> {
    match o {
        Some(s) => Some(s@),
        None => None,
    }
}

impl View for Rule {
    type V = RuleView;

    open spec fn view(&self) -> RuleView {
        RuleView {
            pattern: self.regex@,
            colors: colors_view(self.colors@),
            bold: self.bold,
            skip: self.skip,
            replace: opt_view(self.replace),
            count_mode: self.count_mode,
        }
    }
}

/// Builder for a rule.
#[derive(Debug)]
pub struct RuleBuilder {
    regex: CompiledPattern,
    colors: Vec<Color>,
    bold: bool,
    skip: bool,
    replace: Option<String>,
    count_mode: CountMode,
}

impl View for RuleBuilder {
    type V = RuleView;

    closed spec fn view(&self) -> RuleView {
        RuleView {
            pattern: self.regex@,
            colors: colors_view(self.colors@),
            bold: self.bold,
            skip: self.skip,
            replace: opt_view(self.replace),
            count_mode: self.count_mode,
        }
    }
}

impl Rule {
    /// Start a rule for a regex pattern: it fails exactly when the pattern is
    /// not a valid regex, with the regex crate's error for it.  The rule
    /// starts with no colors, not bold, not skipping, without replacement,
    /// counting every match.
    pub fn new(pattern: &str) -> (r: Result<RuleBuilder, regex::Error>)
        ensures
            r is Ok <==> regex_valid(pattern@),
            r matches Err(e) ==> e == regex_error(pattern@),
            r matches Ok(b) ==> b@ == (RuleView {
                pattern: pattern@,
                colors: Seq::empty(),
                bold: false,
                skip: false,
                replace: None,
                count_mode: CountMode::Normal,
            }),
    {
        match compile(pattern) {
            Ok(regex) => {
                let b = RuleBuilder {
                    regex,
                    colors: Vec::new(),
                    bold: false,
                    skip: false,
                    replace: None,
                    count_mode: CountMode::Normal,
                };
                assert(b@.colors =~= Seq::<ColorView>::empty());
                Ok(b)
            },
            Err(e) => Err(e),
        }
    }

    /// A copy of this rule.
    pub fn duplicate(&self) -> (r: Rule)
        ensures
            r@ == self@,
    {
        let mut colors: Vec<Color> = Vec::new();
        let mut i: usize = 0;
        while i < self.colors.len()
            invariant
                i <= self.colors@.len(),
                colors_view(colors@) == colors_view(self.colors@).take(i as int),
            decreases self.colors@.len() - i,
        {
            let c = self.colors[i].duplicate();
            let ghost before = colors@;
            colors.push(c);
            assert(colors@ == before.push(c));
            assert(colors_view(colors@) =~= colors_view(before).push(c@));
            assert(colors_view(self.colors@).take(i + 1) =~= colors_view(self.colors@).take(i as int).push(
                self.colors@[i as int]@,
            ));
            i += 1;
        }
        assert(colors_view(self.colors@).take(self.colors@.len() as int) =~= colors_view(self.colors@));
        let replace = match &self.replace {
            Some(s) => Some(owned(s.as_str())),
            None => None,
        };
        Rule {
            regex: self.regex.duplicate(),
            colors,
            bold: self.bold,
            skip: self.skip,
            replace,
            count_mode: self.count_mode,
        }
    }

    /// Whether the rule's regex matches somewhere in `text`.
    pub fn is_match(&self, text: &str) -> (r: bool)
        ensures
            r == regex_is_match(self@.pattern, text@),
    {
        self.regex.is_match(text)
    }

    /// The byte spans of the rule's matches in `text`.
    pub fn find_spans(&self, text: &str) -> (r: Vec<(usize, usize)>)
        ensures
            r@ == regex_find_spans(self@.pattern, text@),
            spans_well_formed(self@.pattern, text@, r@),
    {
        self.regex.find_spans(text)
    }
}

impl RuleBuilder {
    /// Add a color.
    pub fn color(self, color: Color) -> (r: RuleBuilder)
        ensures
            r@ == (RuleView { colors: self@.colors.push(color@), ..self@ }),
    {
        let mut r = self;
        r.colors.push(color);
        assert(colors_view(r.colors@) =~= colors_view(self.colors@).push(color@));
        r
    }

    /// Add a semantic color.
    pub fn semantic(self, s: SemanticColor) -> (r: RuleBuilder)
        ensures
            r@ == (RuleView { colors: self@.colors.push(ColorView::Semantic(s)), ..self@ }),
    {
        self.color(Color::semantic(s))
    }

    /// Add a named color.
    pub fn named(self, name: &str) -> (r: RuleBuilder)
        ensures
            r@ == (RuleView { colors: self@.colors.push(ColorView::Named(name@)), ..self@ }),
    {
        self.color(Color::named(name))
    }

    /// Add a hex color.
    pub fn hex(self, hex: &str) -> (r: RuleBuilder)
        ensures
            r@ == (RuleView { colors: self@.colors.push(ColorView::Hex(hex@)), ..self@ }),
    {
        self.color(Color::hex(hex))
    }

    /// Add an RGB color.
    pub fn rgb(self, red: u8, green: u8, blue: u8) -> (r: RuleBuilder)
        ensures
            r@ == (RuleView { colors: self@.colors.push(ColorView::Rgb { r: red, g: green, b: blue }), ..self@ }),
    {
        self.color(Color::rgb(red, green, blue))
    }

    /// Make matches bold.
    pub fn bold(self) -> (r: RuleBuilder)
        ensures
            r@ == (RuleView { bold: true, ..self@ }),
    {
        RuleBuilder { bold: true, ..self }
    }

    /// Drop lines that match.
    pub fn skip(self) -> (r: RuleBuilder)
        ensures
            r@ == (RuleView { skip: true, ..self@ }),
    {
        RuleBuilder { skip: true, ..self }
    }

    /// Replace matches (with `${1}`-style group references).
    pub fn replace(self, replacement: &str) -> (r: RuleBuilder)
        ensures
            r@ == (RuleView { replace: Some(replacement@), ..self@ }),
    {
        RuleBuilder { replace: Some(owned(replacement)), ..self }
    }

    /// Set how matches count.
    pub fn count_mode(self, mode: CountMode) -> (r: RuleBuilder)
        ensures
            r@ == (RuleView { count_mode: mode, ..self@ }),
    {
        RuleBuilder { count_mode: mode, ..self }
    }

    /// Color the first match only.
    pub fn once(self) -> (r: RuleBuilder)
        ensures
            r@ == (RuleView { count_mode: CountMode::Once, ..self@ }),
    {
        self.count_mode(CountMode::Once)
    }

    /// Start a block at a match.
    pub fn block(self) -> (r: RuleBuilder)
        ensures
            r@ == (RuleView { count_mode: CountMode::Block, ..self@ }),
    {
        self.count_mode(CountMode::Block)
    }

    /// End a block at a match.
    pub fn unblock(self) -> (r: RuleBuilder)
        ensures
            r@ == (RuleView { count_mode: CountMode::Unblock, ..self@ }),
    {
        self.count_mode(CountMode::Unblock)
    }

    /// The rule.
    pub fn build(self) -> (r: Rule)
        ensures
            r@ == self@,
    {
        Rule {
            regex: self.regex,
            colors: self.colors,
            bold: self.bold,
            skip: self.skip,
            replace: self.replace,
            count_mode: self.count_mode,
        }
    }
}

} // verus!
