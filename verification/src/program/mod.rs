//! Programs: named sets of colorization rules, and the registry that finds
//! them by ID, by name or from a command line.
pub mod config;
pub mod loader;
pub mod registry;

use vstd::prelude::*;
use vstd::string::StringSliceAdditionalSpecFns;
use crate::category::Category;
use crate::colors::{Color, ColorView};
use crate::colorizer::rules_view;

use crate::rule::{Rule, RuleView};
use crate::text::owned;

pub use registry::ProgramRegistry;

verus! {

/// Information about a program.
#[derive(Debug, Clone)]
pub struct ProgramInfo {
    /// Unique identifier (e.g., "ethereum.lodestar", "devops.docker")
    pub id: String,
    /// Display name (e.g., "Lodestar", "Docker")
    pub name: String,
    /// Description of what this program colorizes
    pub description: String,
    /// Category for grouping programs
    pub category: Category,
}

/// The mathematical form of program information.
pub struct ProgramInfoView {
    pub id: Seq<char>,
    pub name: Seq<char>,
    pub description: Seq<char>,
    pub category: Category,
}

impl View for ProgramInfo {
    type V = ProgramInfoView;

    open spec fn view(&self) -> ProgramInfoView {
        ProgramInfoView { id: self.id@, name: self.name@, description: self.description@, category: self.category }
    }
}

impl ProgramInfo {
    /// Create program information.
    pub fn new(id: &str, name: &str, description: &str, category: Category) -> (r: ProgramInfo)
        ensures
            r@ == (ProgramInfoView { id: id@, name: name@, description: description@, category }),
    {
        ProgramInfo { id: owned(id), name: owned(name), description: owned(description), category }
    }

    /// Create program information from static strings.
    pub fn new_static(
        id: &'static str,
        name: &'static str,
        description: &'static str,
        category: Category,
    ) -> (r: ProgramInfo)
        ensures
            r@ == (ProgramInfoView { id: id@, name: name@, description: description@, category }),
    {
        ProgramInfo::new(id, name, description, category)
    }

    /// A copy of this information.
    pub fn duplicate(&self) -> (r: ProgramInfo)
        ensures
            r@ == self@,
    {
        ProgramInfo::new(self.id.as_str(), self.name.as_str(), self.description.as_str(), self.category)
    }
}

/// A program that provides colorization rules for a specific log format.
pub trait Program {
    /// Get program information.
    fn info(&self) -> &ProgramInfo;

    /// Get the colorization rules for this program.
    fn rules(&self) -> &Vec<Rule>;

    /// Get domain-specific color definitions.
    fn domain_colors(&self) -> (r: Vec<(String, Color)>)
        default_ensures
            r@.len() == 0,
    {
        Vec::new()
    }

    /// Get patterns for auto-detecting this program from command lines.
    fn detect_patterns(&self) -> (r: Vec<String>)
        default_ensures
            r@.len() == 0,
    {
        Vec::new()
    }
}

/// A simple program implementation that can be constructed from data.
#[derive(Debug)]
pub struct SimpleProgram {
    info: ProgramInfo,
    rules: Vec<Rule>,
    detect_patterns: Vec<String>,
    domain_colors: Vec<(String, Color)>,
}

/// The mathematical form of a program.
pub struct ProgramView {
    pub info: ProgramInfoView,
    pub rules: Seq<RuleView>,
    pub detect: Seq<Seq<char>>,
    pub domain_colors: Seq<(Seq<char>, ColorView)>,
}

/// Strings in view form.
pub open spec fn strings_view(v: Seq<String>) -> Seq<Seq<char>> {
    v.map_values(|s: String| s@)
}

/// String slices in view form.
pub open spec fn strs_view(v: Seq<&str>) -> Seq<Seq<char>> {
    v.map_values(|s: &str| s@)
}

/// Named colors in view form.
pub open spec fn named_colors_view(v: Seq<(String, Color)>) -> Seq<(Seq<char>, ColorView)> {
    v.map_values(|e: (String, Color)| (e.0@, e.1@))
}

impl View for SimpleProgram {
    type V = ProgramView;

    closed spec fn view(&self) -> ProgramView {
        ProgramView {
            info: self.info@,
            rules: rules_view(self.rules@),
            detect: strings_view(self.detect_patterns@),
            domain_colors: named_colors_view(self.domain_colors@),
        }
    }
}

/// Owned copies of string slices.
fn owned_all(v: &Vec<&str>) -> (r: Vec<String>)
    ensures
        strings_view(r@) == strs_view(v@),
{
    let mut r: Vec<String> = Vec::new();
    let mut i: usize = 0;
    while i < v.len()
        invariant
            i <= v@.len(),
            strings_view(r@) == strs_view(v@).take(i as int),
        decreases v@.len() - i,
    {
        let ghost before = r@;
        r.push(owned(v[i]));
        assert(strings_view(r@) =~= strings_view(before).push(v@[i as int]@));
        assert(strs_view(v@).take(i + 1) =~= strs_view(v@).take(i as int).push(v@[i as int]@));
        i += 1;
    }
    assert(strs_view(v@).take(v@.len() as int) =~= strs_view(v@));
    r
}

/// Copies of strings.
fn copy_strings(v: &Vec<String>) -> (r: Vec<String>)
    ensures
        strings_view(r@) == strings_view(v@),
{
    let mut r: Vec<String> = Vec::new();
    let mut i: usize = 0;
    while i < v.len()
        invariant
            i <= v@.len(),
            strings_view(r@) == strings_view(v@).take(i as int),
        decreases v@.len() - i,
    {
        let ghost before = r@;
        r.push(owned(v[i].as_str()));
        assert(strings_view(r@) =~= strings_view(before).push(v@[i as int]@));
        assert(strings_view(v@).take(i + 1) =~= strings_view(v@).take(i as int).push(v@[i as int]@));
        i += 1;
    }
    assert(strings_view(v@).take(v@.len() as int) =~= strings_view(v@));
    r
}

/// Copies of named colors.
fn copy_named_colors(v: &Vec<(String, Color)>) -> (r: Vec<(String, Color)>)
    ensures
        named_colors_view(r@) == named_colors_view(v@),
{
    let mut r: Vec<(String, Color)> = Vec::new();
    let mut i: usize = 0;
    while i < v.len()
        invariant
            i <= v@.len(),
            named_colors_view(r@) == named_colors_view(v@).take(i as int),
        decreases v@.len() - i,
    {
        let ghost before = r@;
        let e = (owned(v[i].0.as_str()), v[i].1.duplicate());
        r.push(e);
        assert(named_colors_view(r@) =~= named_colors_view(before).push((v@[i as int].0@, v@[i as int].1@)));
        assert(named_colors_view(v@).take(i + 1) =~= named_colors_view(v@).take(i as int).push(
            (v@[i as int].0@, v@[i as int].1@),
        ));
        i += 1;
    }
    assert(named_colors_view(v@).take(v@.len() as int) =~= named_colors_view(v@));
    r
}

/// Copies of rules.
pub fn copy_rules(v: &Vec<Rule>) -> (r: Vec<Rule>)
    ensures
        rules_view(r@) == rules_view(v@),
{
    let mut r: Vec<Rule> = Vec::new();
    let mut i: usize = 0;
    while i < v.len()
        invariant
            i <= v@.len(),
            rules_view(r@) == rules_view(v@).take(i as int),
        decreases v@.len() - i,
    {
        let ghost before = r@;
        r.push(v[i].duplicate());
        assert(rules_view(r@) =~= rules_view(before).push(v@[i as int]@));
        assert(rules_view(v@).take(i + 1) =~= rules_view(v@).take(i as int).push(v@[i as int]@));
        i += 1;
    }
    assert(rules_view(v@).take(v@.len() as int) =~= rules_view(v@));
    r
}

impl SimpleProgram {
    /// Create a new program from its information and rules, with no
    /// detection patterns and no domain colors.
    pub fn new(id: &str, name: &str, description: &str, category: Category, rules: Vec<Rule>) -> (r: SimpleProgram)
        ensures
            r@ == (ProgramView {
                info: ProgramInfoView { id: id@, name: name@, description: description@, category },
                rules: rules_view(rules@),
                detect: Seq::empty(),
                domain_colors: Seq::empty(),
            }),
    {
        let r = SimpleProgram {
            info: ProgramInfo::new(id, name, description, category),
            rules,
            detect_patterns: Vec::new(),
            domain_colors: Vec::new(),
        };
        assert(r@.detect =~= Seq::<Seq<char>>::empty());
        assert(r@.domain_colors =~= Seq::<(Seq<char>, ColorView)>::empty());
        r
    }

    /// Builder: set detection patterns for auto-detection from command lines.
    pub fn with_detect_patterns(self, patterns: Vec<&str>) -> (r: SimpleProgram)
        ensures
            r@ == (ProgramView { detect: strs_view(patterns@), ..self@ }),
    {
        let detect_patterns = owned_all(&patterns);
        SimpleProgram { detect_patterns, ..self }
    }

    /// Builder: set owned detection patterns.
    pub fn with_detect_strings(self, patterns: Vec<String>) -> (r: SimpleProgram)
        ensures
            r@ == (ProgramView { detect: strings_view(patterns@), ..self@ }),
    {
        SimpleProgram { detect_patterns: patterns, ..self }
    }

    /// Builder: set domain-specific colors.
    pub fn with_domain_colors(self, colors: Vec<(String, Color)>) -> (r: SimpleProgram)
        ensures
            r@ == (ProgramView { domain_colors: named_colors_view(colors@), ..self@ }),
    {
        SimpleProgram { domain_colors: colors, ..self }
    }

    /// The program's information.
    pub fn program_info(&self) -> (r: &ProgramInfo)
        ensures
            r@ == self@.info,
    {
        &self.info
    }

    /// The program's rules.
    pub fn rule_list(&self) -> (r: &Vec<Rule>)
        ensures
            rules_view(r@) == self@.rules,
    {
        &self.rules
    }

    /// The program's detection patterns.
    pub fn detect_list(&self) -> (r: &Vec<String>)
        ensures
            strings_view(r@) == self@.detect,
    {
        &self.detect_patterns
    }

    /// The program's domain colors.
    pub fn domain_color_list(&self) -> (r: &Vec<(String, Color)>)
        ensures
            named_colors_view(r@) == self@.domain_colors,
    {
        &self.domain_colors
    }
}

impl Program for SimpleProgram {
    fn info(&self) -> (r: &ProgramInfo)
        ensures
            r@ == self@.info,
    {
        &self.info
    }

    fn rules(&self) -> (r: &Vec<Rule>)
        ensures
            rules_view(r@) == self@.rules,
    {
        &self.rules
    }

    fn domain_colors(&self) -> (r: Vec<(String, Color)>)
        ensures
            named_colors_view(r@) == self@.domain_colors,
    {
        copy_named_colors(&self.domain_colors)
    }

    fn detect_patterns(&self) -> (r: Vec<String>)
        ensures
            strings_view(r@) == self@.detect,
    {
        copy_strings(&self.detect_patterns)
    }
}

} // verus!
