//! Color themes: what each semantic color looks like.
use vstd::prelude::*;
use crate::colors::{Color, ColorView, SemanticColor};
use crate::text::{owned, str_eq};

verus! {

/// The built-in themes.
#[derive(Debug, Clone, Copy, PartialEq, Eq, Structural)]
pub enum ThemeKind {
    DefaultDark,
    Dracula,
    Nord,
}

/// A theme: a name and the palette that resolves semantic colors.
#[derive(Debug, Clone)]
pub struct Theme {
    /// The theme's name.
    pub name: String,
    /// Its palette.
    pub kind: ThemeKind,
}

/// The universal semantic color that a domain color is shown as.
pub open spec fn universal_of(s: SemanticColor) -> SemanticColor {
    match s {
        SemanticColor::Hash | SemanticColor::Address | SemanticColor::PeerId | SemanticColor::Pubkey
        | SemanticColor::Root => SemanticColor::Identifier,
        SemanticColor::Slot | SemanticColor::Epoch | SemanticColor::BlockNumber => SemanticColor::Number,
        SemanticColor::Syncing => SemanticColor::Info,
        SemanticColor::Finality => SemanticColor::Success,
        SemanticColor::MevValue => SemanticColor::Metric,
        SemanticColor::Validator | SemanticColor::Duty | SemanticColor::Committee | SemanticColor::Attestation
        | SemanticColor::Relay | SemanticColor::Builder => SemanticColor::Label,
        other => other,
    }
}

/// The position of a universal semantic color in a palette.
pub open spec fn palette_index(s: SemanticColor) -> int {
    match universal_of(s) {
        SemanticColor::Error => 0,
        SemanticColor::Warn => 1,
        SemanticColor::Info => 2,
        SemanticColor::Debug => 3,
        SemanticColor::Trace => 4,
        SemanticColor::Number => 5,
        SemanticColor::String => 6,
        SemanticColor::Boolean => 7,
        SemanticColor::Timestamp => 8,
        SemanticColor::Key => 9,
        SemanticColor::Value => 10,
        SemanticColor::Success => 11,
        SemanticColor::Failure => 12,
        SemanticColor::Identifier => 13,
        SemanticColor::Label => 14,
        _ => 15,
    }
}

/// The RGB colors of a palette, in the order of `palette_index`.
pub open spec fn palette_spec(kind: ThemeKind) -> Seq<(u8, u8, u8)> {
    match kind {
        ThemeKind::DefaultDark => seq![
            (255u8, 85u8, 85u8), (255u8, 184u8, 108u8), (139u8, 233u8, 253u8), (150u8, 150u8, 150u8),
            (110u8, 110u8, 110u8), (189u8, 147u8, 249u8), (241u8, 250u8, 140u8), (255u8, 121u8, 198u8),
            (98u8, 114u8, 164u8), (80u8, 250u8, 123u8), (248u8, 248u8, 242u8), (80u8, 250u8, 123u8),
            (255u8, 85u8, 85u8), (139u8, 233u8, 253u8), (255u8, 184u8, 108u8), (189u8, 147u8, 249u8),
        ],
        ThemeKind::Dracula => seq![
            (255u8, 85u8, 85u8), (255u8, 184u8, 108u8), (80u8, 250u8, 123u8), (98u8, 114u8, 164u8),
            (68u8, 71u8, 90u8), (189u8, 147u8, 249u8), (241u8, 250u8, 140u8), (189u8, 147u8, 249u8),
            (98u8, 114u8, 164u8), (139u8, 233u8, 253u8), (248u8, 248u8, 242u8), (80u8, 250u8, 123u8),
            (255u8, 85u8, 85u8), (255u8, 121u8, 198u8), (139u8, 233u8, 253u8), (241u8, 250u8, 140u8),
        ],
        ThemeKind::Nord => seq![
            (191u8, 97u8, 106u8), (235u8, 203u8, 139u8), (136u8, 192u8, 208u8), (97u8, 110u8, 136u8),
            (76u8, 86u8, 106u8), (180u8, 142u8, 173u8), (163u8, 190u8, 140u8), (129u8, 161u8, 193u8),
            (97u8, 110u8, 136u8), (143u8, 188u8, 187u8), (216u8, 222u8, 233u8), (163u8, 190u8, 140u8),
            (191u8, 97u8, 106u8), (136u8, 192u8, 208u8), (208u8, 135u8, 112u8), (180u8, 142u8, 173u8),
        ],
    }
}

/// The color a theme gives a semantic color.
pub open spec fn theme_rgb(kind: ThemeKind, s: SemanticColor) -> (u8, u8, u8) {
    palette_spec(kind)[palette_index(s)]
}

/// The color a theme shows a color as: semantic colors are resolved, others
/// are themselves.
pub open spec fn resolve_color_spec(kind: ThemeKind, c: ColorView) -> ColorView {
    match c {
        ColorView::Semantic(s) => {
            let (r, g, b) = theme_rgb(kind, s);
            ColorView::Rgb { r, g, b }
        },
        other => other,
    }
}

/// The palette of a theme.
fn palette(kind: ThemeKind) -> (r: Vec<(u8, u8, u8)>)
    ensures
        r@ == palette_spec(kind),
{
    match kind {
        ThemeKind::DefaultDark => vec![
            (255u8, 85u8, 85u8), (255u8, 184u8, 108u8), (139u8, 233u8, 253u8), (150u8, 150u8, 150u8),
            (110u8, 110u8, 110u8), (189u8, 147u8, 249u8), (241u8, 250u8, 140u8), (255u8, 121u8, 198u8),
            (98u8, 114u8, 164u8), (80u8, 250u8, 123u8), (248u8, 248u8, 242u8), (80u8, 250u8, 123u8),
            (255u8, 85u8, 85u8), (139u8, 233u8, 253u8), (255u8, 184u8, 108u8), (189u8, 147u8, 249u8),
        ],
        ThemeKind::Dracula => vec![
            (255u8, 85u8, 85u8), (255u8, 184u8, 108u8), (80u8, 250u8, 123u8), (98u8, 114u8, 164u8),
            (68u8, 71u8, 90u8), (189u8, 147u8, 249u8), (241u8, 250u8, 140u8), (189u8, 147u8, 249u8),
            (98u8, 114u8, 164u8), (139u8, 233u8, 253u8), (248u8, 248u8, 242u8), (80u8, 250u8, 123u8),
            (255u8, 85u8, 85u8), (255u8, 121u8, 198u8), (139u8, 233u8, 253u8), (241u8, 250u8, 140u8),
        ],
        ThemeKind::Nord => vec![
            (191u8, 97u8, 106u8), (235u8, 203u8, 139u8), (136u8, 192u8, 208u8), (97u8, 110u8, 136u8),
            (76u8, 86u8, 106u8), (180u8, 142u8, 173u8), (163u8, 190u8, 140u8), (129u8, 161u8, 193u8),
            (97u8, 110u8, 136u8), (143u8, 188u8, 187u8), (216u8, 222u8, 233u8), (163u8, 190u8, 140u8),
            (191u8, 97u8, 106u8), (136u8, 192u8, 208u8), (208u8, 135u8, 112u8), (180u8, 142u8, 173u8),
        ],
    }
}

/// The palette position of a semantic color.
fn palette_position(s: SemanticColor) -> (r: usize)
    ensures
        r == palette_index(s),
        r < 16,
{
    match s {
        SemanticColor::Error => 0,
        SemanticColor::Warn => 1,
        SemanticColor::Info | SemanticColor::Syncing => 2,
        SemanticColor::Debug => 3,
        SemanticColor::Trace => 4,
        SemanticColor::Number | SemanticColor::Slot | SemanticColor::Epoch | SemanticColor::BlockNumber => 5,
        SemanticColor::String => 6,
        SemanticColor::Boolean => 7,
        SemanticColor::Timestamp => 8,
        SemanticColor::Key => 9,
        SemanticColor::Value => 10,
        SemanticColor::Success | SemanticColor::Finality => 11,
        SemanticColor::Failure => 12,
        SemanticColor::Identifier | SemanticColor::Hash | SemanticColor::Address | SemanticColor::PeerId
        | SemanticColor::Pubkey | SemanticColor::Root => 13,
        SemanticColor::Label | SemanticColor::Validator | SemanticColor::Duty | SemanticColor::Committee
        | SemanticColor::Attestation | SemanticColor::Relay | SemanticColor::Builder => 14,
        SemanticColor::Metric | SemanticColor::MevValue => 15,
    }
}

impl Theme {
    /// The dark theme used by default.
    pub fn default_dark() -> (r: Theme)
        ensures
            r.name@ == "default-dark"@,
            r.kind == ThemeKind::DefaultDark,
    {
        Theme { name: owned("default-dark"), kind: ThemeKind::DefaultDark }
    }

    /// The Dracula theme.
    pub fn dracula() -> (r: Theme)
        ensures
            r.name@ == "dracula"@,
            r.kind == ThemeKind::Dracula,
    {
        Theme { name: owned("dracula"), kind: ThemeKind::Dracula }
    }

    /// The Nord theme.
    pub fn nord() -> (r: Theme)
        ensures
            r.name@ == "nord"@,
            r.kind == ThemeKind::Nord,
    {
        Theme { name: owned("nord"), kind: ThemeKind::Nord }
    }

    /// The names of the built-in themes.
    pub fn list_builtin() -> (r: Vec<&'static str>)
        ensures
            r@.len() == 3,
            r@[0]@ == "default-dark"@,
            r@[1]@ == "dracula"@,
            r@[2]@ == "nord"@,
    {
        vec!["default-dark", "dracula", "nord"]
    }

    /// A built-in theme by name.
    pub fn builtin(name: &str) -> (r: Option<Theme>)
        ensures
            match r {
                Some(t) => t.name@ == name@ && (name@ == "default-dark"@ && t.kind == ThemeKind::DefaultDark
                    || name@ == "dracula"@ && t.kind == ThemeKind::Dracula || name@ == "nord"@ && t.kind
                    == ThemeKind::Nord),
                None => name@ != "default-dark"@ && name@ != "dracula"@ && name@ != "nord"@,
            },
    {
        if str_eq(name, "default-dark") {
            Some(Theme::default_dark())
        } else if str_eq(name, "dracula") {
            Some(Theme::dracula())
        } else if str_eq(name, "nord") {
            Some(Theme::nord())
        } else {
            None
        }
    }

    /// The color this theme gives a semantic color.
    pub fn resolve(&self, s: SemanticColor) -> (r: Option<Color>)
        ensures
            r matches Some(c) && c@ == ({
                let (r, g, b) = theme_rgb(self.kind, s);
                ColorView::Rgb { r, g, b }
            }),
    {
        let p = palette(self.kind);
        let i = palette_position(s);
        let (r, g, b) = p[i];
        Some(Color::Rgb { r, g, b })
    }

    /// The color this theme shows a color as: semantic colors are resolved,
    /// others are themselves.
    pub fn resolve_color(&self, c: &Color) -> (r: Color)
        ensures
            r@ == resolve_color_spec(self.kind, c@),
    {
        match c {
            Color::Semantic(s) => {
                let p = palette(self.kind);
                let i = palette_position(*s);
                let (r, g, b) = p[i];
                Color::Rgb { r, g, b }
            },
            Color::Named(n) => Color::Named(owned(n.as_str())),
            Color::Hex(h) => Color::Hex(owned(h.as_str())),
            Color::Rgb { r, g, b } => Color::Rgb { r: *r, g: *g, b: *b },
        }
    }
}

impl Default for Theme {
    fn default() -> (r: Theme)
        ensures
            r.name@ == "default-dark"@,
            r.kind == ThemeKind::DefaultDark,
    {
        Theme::default_dark()
    }
}

} // verus!
