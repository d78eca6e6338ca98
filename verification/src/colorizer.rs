//! Core colorization engine.
//!
//! A `Colorizer` applies rules to a line: skip rules drop it, replace rules
//! rewrite it, block rules switch block mode on and off, and the matches of
//! the other rules are colored where they do not overlap an earlier one.
use vstd::prelude::*;
use vstd::string::StringSliceAdditionalSpecFns;
use vstd::utf8::{decode_utf8, encode_utf8, is_char_boundary, valid_utf8};
use crate::colors::{color_style, ColorView};
use crate::pattern::{regex_find_spans, regex_is_match, regex_replace_all, spans_well_formed};
use crate::rule::{CountMode, Rule, RuleView};
use crate::style::{painted, AnsiColor, Style};
use crate::text::{owned, push_str};
use crate::theme::{resolve_color_spec, Theme, ThemeKind};

verus! {

broadcast use vstd::utf8::group_utf8_lib;

/// Lines longer than this many bytes are passed through unchanged.
pub const MAX_LINE_LENGTH: usize = 10_000;

/// Whether a rule can color text: it neither skips lines nor only replaces.
pub open spec fn colorizable(r: RuleView) -> bool {
    !(r.skip || (r.replace is Some && r.colors.len() == 0))
}

/// The positions of the colorizable rules, in order.
pub open spec fn colorizable_indices_spec(rs: Seq<RuleView>) -> Seq<usize>
    decreases rs.len(),
{
    if rs.len() == 0 {
        Seq::empty()
    } else if colorizable(rs.last()) {
        colorizable_indices_spec(rs.drop_last()).push((rs.len() - 1) as usize)
    } else {
        colorizable_indices_spec(rs.drop_last())
    }
}

/// The foreground of the last color that gives one, once the theme has
/// resolved it.
pub open spec fn last_fg(cs: Seq<ColorView>, kind: ThemeKind) -> Option<AnsiColor>
    decreases cs.len(),
{
    if cs.len() == 0 {
        None
    } else {
        match color_style(resolve_color_spec(kind, cs.last())).foreground {
            Some(f) => Some(f),
            None => last_fg(cs.drop_last(), kind),
        }
    }
}

/// The style of a rule under a theme.
pub open spec fn rule_style_spec(r: RuleView, kind: ThemeKind) -> Style {
    Style { foreground: last_fg(r.colors, kind), is_bold: r.bold }
}

/// The styles of the rules under a theme.
pub open spec fn styles_spec(rs: Seq<RuleView>, kind: ThemeKind) -> Seq<Style> {
    rs.map_values(|r: RuleView| rule_style_spec(r, kind))
}

/// The rules in view form.
pub open spec fn rules_view(rs: Seq<Rule>) -> Seq<RuleView> {
    rs.map_values(|r: Rule| r@)
}

/// The colorizer's state in mathematical form.
pub struct ColorizerView {
    pub rules: Seq<RuleView>,
    pub kind: ThemeKind,
    pub in_block: bool,
    pub block_style: Option<Style>,
    pub color_enabled: bool,
}

/// The colorizer applies rules to text and outputs colored results.
#[derive(Debug)]
pub struct Colorizer {
    /// Rules to apply in order.
    rules: Vec<Rule>,
    /// Pre-computed styles for each rule (parallel to rules).
    rule_styles: Vec<Style>,
    /// Pre-computed indices of rules that can produce colored output.
    colorizable_indices: Vec<usize>,
    /// Theme for semantic color resolution.
    theme: Theme,
    /// Whether currently in block coloring mode.
    in_block: bool,
    /// Block coloring style.
    block_style: Option<Style>,
    /// Whether color output is enabled (false = pass-through mode).
    color_enabled: bool,
}

impl View for Colorizer {
    type V = ColorizerView;

    closed spec fn view(&self) -> ColorizerView {
        ColorizerView {
            rules: rules_view(self.rules@),
            kind: self.theme.kind,
            in_block: self.in_block,
            block_style: self.block_style,
            color_enabled: self.color_enabled,
        }
    }
}

/// The foreground a color gives under a theme.
fn color_fg(theme: &Theme, c: &crate::colors::Color) -> (r: Option<AnsiColor>)
    ensures
        r == color_style(resolve_color_spec(theme.kind, c@)).foreground,
{
    theme.resolve_color(c).to_style().foreground
}

/// The style of a rule under a theme.
fn compute_style(rule: &Rule, theme: &Theme) -> (r: Style)
    ensures
        r == rule_style_spec(rule@, theme.kind),
{
    let mut style = Style::new();
    let mut i: usize = 0;
    let ghost cs = rule@.colors;
    while i < rule.colors.len()
        invariant
            i <= rule.colors@.len(),
            cs == rule@.colors,
            cs.len() == rule.colors@.len(),
            style.foreground == last_fg(cs.take(i as int), theme.kind),
            !style.is_bold,
        decreases rule.colors@.len() - i,
    {
        proof {
            assert(cs.take(i + 1).drop_last() =~= cs.take(i as int));
            assert(cs.take(i + 1).last() == rule.colors@[i as int]@);
        }
        match color_fg(theme, &rule.colors[i]) {
            Some(fg) => {
                style = style.fg(fg);
            },
            None => {},
        }
        i += 1;
    }
    assert(cs.take(cs.len() as int) =~= cs);
    if rule.bold {
        style.bold()
    } else {
        style
    }
}

/// The styles of the rules under a theme.
fn compute_styles(rules: &Vec<Rule>, theme: &Theme) -> (r: Vec<Style>)
    ensures
        r@ == styles_spec(rules_view(rules@), theme.kind),
{
    let mut r: Vec<Style> = Vec::new();
    let mut i: usize = 0;
    while i < rules.len()
        invariant
            i <= rules@.len(),
            r@ == styles_spec(rules_view(rules@), theme.kind).take(i as int),
        decreases rules@.len() - i,
    {
        let s = compute_style(&rules[i], theme);
        r.push(s);
        proof {
            assert(styles_spec(rules_view(rules@), theme.kind).take(i + 1) =~= styles_spec(
                rules_view(rules@),
                theme.kind,
            ).take(i as int).push(s));
        }
        i += 1;
    }
    assert(styles_spec(rules_view(rules@), theme.kind).take(rules@.len() as int) =~= styles_spec(
        rules_view(rules@),
        theme.kind,
    ));
    r
}

/// The positions of the colorizable rules.
fn compute_colorizable_indices(rules: &Vec<Rule>) -> (r: Vec<usize>)
    ensures
        r@ == colorizable_indices_spec(rules_view(rules@)),
{
    let mut r: Vec<usize> = Vec::new();
    let mut i: usize = 0;
    while i < rules.len()
        invariant
            i <= rules@.len(),
            r@ == colorizable_indices_spec(rules_view(rules@).take(i as int)),
        decreases rules@.len() - i,
    {
        let rule = &rules[i];
        proof {
            let t = rules_view(rules@).take(i + 1);
            assert(t.drop_last() =~= rules_view(rules@).take(i as int));
            assert(t.last() == rule@);
        }
        let keep = !(rule.skip || (rule.replace.is_some() && rule.colors.len() == 0));
        if keep {
            r.push(i);
        }
        i += 1;
    }
    assert(rules_view(rules@).take(rules@.len() as int) =~= rules_view(rules@));
    r
}

impl Colorizer {
    /// The cached styles and indices agree with the rules and the theme.
    pub closed spec fn wf(&self) -> bool {
        &&& self.rule_styles@ == styles_spec(rules_view(self.rules@), self.theme.kind)
        &&& self.colorizable_indices@ == colorizable_indices_spec(rules_view(self.rules@))
    }

    /// Create a new colorizer with the given rules and the default theme.
    pub fn new(rules: Vec<Rule>) -> (r: Colorizer)
        ensures
            r.wf(),
            r@ == (ColorizerView {
                rules: rules_view(rules@),
                kind: ThemeKind::DefaultDark,
                in_block: false,
                block_style: None,
                color_enabled: true,
            }),
    {
        let theme = Theme::default();
        let rule_styles = compute_styles(&rules, &theme);
        let colorizable_indices = compute_colorizable_indices(&rules);
        Colorizer {
            rules,
            rule_styles,
            colorizable_indices,
            theme,
            in_block: false,
            block_style: None,
            color_enabled: true,
        }
    }

    /// Set the theme (recomputes styles).
    pub fn with_theme(self, theme: Theme) -> (r: Colorizer)
        requires
            self.wf(),
        ensures
            r.wf(),
            r@ == (ColorizerView { kind: theme.kind, ..self@ }),
    {
        let rule_styles = compute_styles(&self.rules, &theme);
        Colorizer { rule_styles, theme, ..self }
    }

    /// Enable or disable color output (disabled: text passes through
    /// without escape codes).
    pub fn with_color_enabled(self, enabled: bool) -> (r: Colorizer)
        requires
            self.wf(),
        ensures
            r.wf(),
            r@ == (ColorizerView { color_enabled: enabled, ..self@ }),
    {
        Colorizer { color_enabled: enabled, ..self }
    }

    /// Reset colorization state between files or streams: block mode ends.
    pub fn reset(&mut self)
        requires
            old(self).wf(),
        ensures
            final(self).wf(),
            final(self)@ == (ColorizerView { in_block: false, block_style: None, ..old(self)@ }),
    {
        self.in_block = false;
        self.block_style = None;
    }

    /// The number of rules.
    pub fn rule_count(&self) -> (r: usize)
        ensures
            r == self@.rules.len(),
    {
        self.rules.len()
    }
}

/// Whether a skip rule matches the line.
pub open spec fn skips(rs: Seq<RuleView>, s: Seq<char>) -> bool {
    exists|i: int| 0 <= i < rs.len() && (#[trigger] rs[i]).skip && regex_is_match(rs[i].pattern, s)
}

/// The line after the replace rules, in order: each rewrites it if it
/// matches.
pub open spec fn replace_fold(rs: Seq<RuleView>, s: Seq<char>) -> Seq<char>
    decreases rs.len(),
{
    if rs.len() == 0 {
        s
    } else {
        let acc = replace_fold(rs.drop_last(), s);
        let r = rs.last();
        match r.replace {
            Some(rep) => if regex_is_match(r.pattern, acc) {
                regex_replace_all(r.pattern, acc, rep)
            } else {
                acc
            },
            None => acc,
        }
    }
}

/// Whether a rule starts or ends blocks.
pub open spec fn is_block_rule(r: RuleView) -> bool {
    r.count_mode == CountMode::Block || r.count_mode == CountMode::Unblock
}

/// The first block or unblock rule from position `i` on that matches.
pub open spec fn first_block_from(rs: Seq<RuleView>, t: Seq<char>, i: int) -> Option<int>
    decreases rs.len() - i,
{
    if i < 0 || i >= rs.len() {
        None
    } else if is_block_rule(rs[i]) && regex_is_match(rs[i].pattern, t) {
        Some(i)
    } else {
        first_block_from(rs, t, i + 1)
    }
}

/// The block state after a line: the first matching block rule starts a
/// block in its style, the first matching unblock rule ends it.
pub open spec fn block_update(v: ColorizerView, t: Seq<char>) -> ColorizerView {
    match first_block_from(v.rules, t, 0) {
        Some(i) => if v.rules[i].count_mode == CountMode::Block {
            ColorizerView { in_block: true, block_style: Some(rule_style_spec(v.rules[i], v.kind)), ..v }
        } else {
            ColorizerView { in_block: false, block_style: None, ..v }
        },
        None => v,
    }
}

/// The number of leading ranges that start before `s`.
pub open spec fn lower_bound(rs: Seq<(usize, usize, usize)>, s: usize) -> int
    decreases rs.len(),
{
    if rs.len() == 0 {
        0
    } else if rs[0].0 < s {
        1 + lower_bound(rs.skip(1), s)
    } else {
        0
    }
}

/// The ranges with a match added where it overlaps neither neighbour.
pub open spec fn insert_span(rs: Seq<(usize, usize, usize)>, sp: (usize, usize), idx: usize) -> Seq<(usize, usize, usize)> {
    let pos = lower_bound(rs, sp.0);
    let overlaps_prev = pos > 0 && rs[pos - 1].1 > sp.0;
    let overlaps_next = pos < rs.len() && rs[pos].0 < sp.1;
    if overlaps_prev || overlaps_next {
        rs
    } else {
        rs.insert(pos, (sp.0, sp.1, idx))
    }
}

/// The matches of a rule that may be colored: the first only for a rule
/// that colors once.
pub open spec fn spans_for(r: RuleView, t: Seq<char>) -> Seq<(usize, usize)> {
    let sp = regex_find_spans(r.pattern, t);
    if r.count_mode == CountMode::Once && sp.len() > 1 {
        sp.take(1)
    } else {
        sp
    }
}

/// The ranges after adding the matches of one rule in order.
pub open spec fn insert_all(rs: Seq<(usize, usize, usize)>, spans: Seq<(usize, usize)>, idx: usize) -> Seq<(usize, usize, usize)>
    decreases spans.len(),
{
    if spans.len() == 0 {
        rs
    } else {
        insert_span(insert_all(rs, spans.drop_last(), idx), spans.last(), idx)
    }
}

/// The colored ranges `(start, end, rule)` of a line: the matches of the
/// colorizable rules, rule by rule, each kept if it overlaps no range kept
/// before.
pub open spec fn collect_ranges(rules: Seq<RuleView>, idxs: Seq<usize>, t: Seq<char>) -> Seq<(usize, usize, usize)>
    decreases idxs.len(),
{
    if idxs.len() == 0 {
        Seq::empty()
    } else {
        insert_all(collect_ranges(rules, idxs.drop_last(), t), spans_for(rules[idxs.last() as int], t), idxs.last())
    }
}

/// Ranges lie on character boundaries of the line's bytes, in order, without
/// overlapping, each naming one of `n` rules.
pub open spec fn ranges_ok(rs: Seq<(usize, usize, usize)>, b: Seq<u8>, n: nat) -> bool {
    &&& forall|i: int|
        0 <= i < rs.len() ==> {
            &&& (#[trigger] rs[i]).0 <= rs[i].1 <= b.len()
            &&& is_char_boundary(b, rs[i].0 as int)
            &&& is_char_boundary(b, rs[i].1 as int)
            &&& rs[i].2 < n
        }
    &&& forall|i: int, j: int| 0 <= i < j < rs.len() ==> (#[trigger] rs[i]).1 <= (#[trigger] rs[j]).0
}

/// The characters of the bytes `b[a..c]`.
pub open spec fn seg(b: Seq<u8>, a: int, c: int) -> Seq<char> {
    decode_utf8(b.subrange(a, c))
}

/// A text outside the colored ranges: painted in the block style while in a
/// block.
pub open spec fn block_seg(in_block: bool, block_style: Option<Style>, text: Seq<char>) -> Seq<char> {
    match block_style {
        Some(st) => if in_block {
            painted(st, text)
        } else {
            text
        },
        None => text,
    }
}

/// The output up to the end of the last range: each gap, then each range
/// painted in its rule's style.
pub open spec fn colored_upto(
    b: Seq<u8>,
    rs: Seq<(usize, usize, usize)>,
    styles: Seq<Style>,
    in_block: bool,
    block_style: Option<Style>,
) -> Seq<char>
    decreases rs.len(),
{
    if rs.len() == 0 {
        Seq::empty()
    } else {
        let prev_end: int = if rs.len() > 1 {
            rs[rs.len() - 2].1 as int
        } else {
            0
        };
        let last = rs.last();
        colored_upto(b, rs.drop_last(), styles, in_block, block_style) + block_seg(
            in_block,
            block_style,
            seg(b, prev_end, last.0 as int),
        ) + painted(styles[last.2 as int], seg(b, last.0 as int, last.1 as int))
    }
}

/// The colored line: the ranges painted in their rules' styles, the text
/// between them as it is (or in the block style).
pub open spec fn colored_output(
    b: Seq<u8>,
    rs: Seq<(usize, usize, usize)>,
    styles: Seq<Style>,
    in_block: bool,
    block_style: Option<Style>,
) -> Seq<char> {
    if rs.len() == 0 {
        block_seg(in_block, block_style, decode_utf8(b))
    } else {
        colored_upto(b, rs, styles, in_block, block_style) + block_seg(
            in_block,
            block_style,
            seg(b, rs.last().1 as int, b.len() as int),
        )
    }
}

/// What colorizing a line does: the new state, and `None` for a skipped line
/// or the output and whether anything matched.
pub open spec fn colorize_spec(v: ColorizerView, s: Seq<char>) -> (ColorizerView, Option<(Seq<char>, bool)>) {
    let b = encode_utf8(s);
    if b.len() == 0 {
        (v, Some((Seq::empty(), false)))
    } else if b.len() > MAX_LINE_LENGTH {
        (v, Some((s, false)))
    } else if skips(v.rules, s) {
        (v, None)
    } else {
        let t = replace_fold(v.rules, s);
        let v2 = block_update(v, t);
        let rs = collect_ranges(v.rules, colorizable_indices_spec(v.rules), t);
        let had = rs.len() > 0;
        if !v.color_enabled {
            (v2, Some((t, had)))
        } else {
            (v2, Some((colored_output(encode_utf8(t), rs, styles_spec(v.rules, v.kind), v2.in_block, v2.block_style), had)))
        }
    }
}

proof fn lemma_boundary_in_suffix(bytes: Seq<u8>, a: int, k: int)
    requires
        valid_utf8(bytes),
        0 <= a,
        0 <= k,
        a + k <= bytes.len(),
        is_char_boundary(bytes, a),
        is_char_boundary(bytes, a + k),
    ensures
        valid_utf8(bytes.subrange(a, bytes.len() as int)),
        is_char_boundary(bytes.subrange(a, bytes.len() as int), k),
{
    let rest = bytes.subrange(a, bytes.len() as int);
    assert(valid_utf8(rest));
    if k == 0 {
        vstd::utf8::is_char_boundary_start_end_of_seq(rest);
    } else if a + k < bytes.len() {
        assert(rest[k] == bytes[a + k]);
        vstd::utf8::is_char_boundary_iff_not_is_continuation_byte(rest, k);
        vstd::utf8::is_char_boundary_iff_not_is_continuation_byte(bytes, a + k);
    } else {
        assert(rest.len() == k);
        vstd::utf8::is_char_boundary_start_end_of_seq(rest);
    }
}

/// The text `s[a..c]` of byte positions on character boundaries.
fn byte_slice(s: &str, a: usize, c: usize) -> (r: &str)
    requires
        a <= c <= s.spec_bytes().len(),
        is_char_boundary(s.spec_bytes(), a as int),
        is_char_boundary(s.spec_bytes(), c as int),
    ensures
        r.spec_bytes() == s.spec_bytes().subrange(a as int, c as int),
        r@ == seg(s.spec_bytes(), a as int, c as int),
{
    let ghost b = s.spec_bytes();
    proof {
        lemma_boundary_in_suffix(b, a as int, (c - a) as int);
    }
    let (_, rest) = s.split_at(a);
    let (mid, _) = rest.split_at(c - a);
    assert(mid.spec_bytes() =~= b.subrange(a as int, c as int));
    mid
}

/// Inserts a match where it overlaps neither neighbour.
fn insert_range(ranges: &mut Vec<(usize, usize, usize)>, start: usize, end: usize, idx: usize)
    ensures
        final(ranges)@ == insert_span(old(ranges)@, (start, end), idx),
{
    let ghost rs = ranges@;
    let mut pos: usize = 0;
    assert(rs.skip(0) =~= rs);
    while pos < ranges.len() && ranges[pos].0 < start
        invariant
            pos <= rs.len(),
            ranges@ == rs,
            lower_bound(rs, start) == pos + lower_bound(rs.skip(pos as int), start),
        decreases rs.len() - pos,
    {
        proof {
            let t = rs.skip(pos as int);
            assert(t[0] == rs[pos as int]);
            assert(t.skip(1) =~= rs.skip(pos + 1));
        }
        pos += 1;
    }
    proof {
        let t = rs.skip(pos as int);
        if pos < rs.len() {
            assert(t[0] == rs[pos as int]);
        }
    }
    let overlaps_prev = pos > 0 && ranges[pos - 1].1 > start;
    let overlaps_next = pos < ranges.len() && ranges[pos].0 < end;
    if !overlaps_prev && !overlaps_next {
        ranges.insert(pos, (start, end, idx));
    }
}

proof fn lemma_lower_bound_le(rs: Seq<(usize, usize, usize)>, s: usize)
    ensures
        0 <= lower_bound(rs, s) <= rs.len(),
    decreases rs.len(),
{
    if rs.len() > 0 && rs[0].0 < s {
        lemma_lower_bound_le(rs.skip(1), s);
    }
}

proof fn lemma_insert_span_ok(rs: Seq<(usize, usize, usize)>, sp: (usize, usize), idx: usize, b: Seq<u8>, n: nat)
    requires
        ranges_ok(rs, b, n),
        sp.0 <= sp.1 <= b.len(),
        is_char_boundary(b, sp.0 as int),
        is_char_boundary(b, sp.1 as int),
        idx < n,
    ensures
        ranges_ok(insert_span(rs, sp, idx), b, n),
{
    lemma_lower_bound_le(rs, sp.0);
    let pos = lower_bound(rs, sp.0);
    let overlaps_prev = pos > 0 && rs[pos - 1].1 > sp.0;
    let overlaps_next = pos < rs.len() && rs[pos].0 < sp.1;
    if !overlaps_prev && !overlaps_next {
        let r = rs.insert(pos, (sp.0, sp.1, idx));
        assert forall|i: int| 0 <= i < r.len() implies {
            &&& (#[trigger] r[i]).0 <= r[i].1 <= b.len()
            &&& is_char_boundary(b, r[i].0 as int)
            &&& is_char_boundary(b, r[i].1 as int)
            &&& r[i].2 < n
        } by {
            if i < pos {
                assert(r[i] == rs[i]);
            } else if i > pos {
                assert(r[i] == rs[i - 1]);
            }
        }
        assert forall|i: int, j: int| 0 <= i < j < r.len() implies (#[trigger] r[i]).1 <= (#[trigger] r[j]).0 by {
            if j < pos {
                assert(r[i] == rs[i] && r[j] == rs[j]);
            } else if j == pos {
                assert(r[i] == rs[i]);
                if i < pos - 1 {
                    assert(rs[i].1 <= rs[pos - 1].0);
                }
            } else if i > pos {
                assert(r[i] == rs[i - 1] && r[j] == rs[j - 1]);
            } else if i == pos {
                assert(r[j] == rs[j - 1]);
                if j - 1 > pos {
                    assert(rs[pos].1 <= rs[j - 1].0);
                }
            } else {
                assert(r[i] == rs[i] && r[j] == rs[j - 1]);
            }
        }
    }
}

proof fn lemma_colorizable_bound(rs: Seq<RuleView>)
    ensures
        forall|i: int| 0 <= i < colorizable_indices_spec(rs).len() ==> (#[trigger] colorizable_indices_spec(rs)[i]) < rs.len(),
    decreases rs.len(),
{
    if rs.len() > 0 {
        lemma_colorizable_bound(rs.drop_last());
        let p = colorizable_indices_spec(rs.drop_last());
        let q = colorizable_indices_spec(rs);
        assert forall|i: int| 0 <= i < q.len() implies (#[trigger] q[i]) < rs.len() by {
            if i < p.len() {
                assert(q[i] == p[i]);
            }
        }
    }
}

proof fn lemma_first_block_range(rs: Seq<RuleView>, t: Seq<char>, i: int)
    ensures
        first_block_from(rs, t, i) matches Some(k) ==> i <= k < rs.len() && is_block_rule(rs[k])
            && regex_is_match(rs[k].pattern, t),
    decreases rs.len() - i,
{
    if 0 <= i < rs.len() && !(is_block_rule(rs[i]) && regex_is_match(rs[i].pattern, t)) {
        lemma_first_block_range(rs, t, i + 1);
    }
}

impl Colorizer {
    /// Whether a skip rule matches the line.
    fn should_skip(&self, line: &str) -> (r: bool)
        ensures
            r == skips(self@.rules, line@),
    {
        let ghost rs = self@.rules;
        let mut i: usize = 0;
        while i < self.rules.len()
            invariant
                i <= self.rules@.len(),
                rs == rules_view(self.rules@),
                forall|j: int| 0 <= j < i ==> !((#[trigger] rs[j]).skip && regex_is_match(rs[j].pattern, line@)),
            decreases self.rules@.len() - i,
        {
            let rule = &self.rules[i];
            if rule.skip && rule.is_match(line) {
                assert(rs[i as int] == rule@);
                return true;
            }
            i += 1;
        }
        false
    }

    /// The line after the replace rules.
    fn apply_replacements(&self, line: &str) -> (r: String)
        ensures
            r@ == replace_fold(self@.rules, line@),
    {
        let ghost rs = self@.rules;
        let mut acc = owned(line);
        let mut i: usize = 0;
        while i < self.rules.len()
            invariant
                i <= self.rules@.len(),
                rs == rules_view(self.rules@),
                acc@ == replace_fold(rs.take(i as int), line@),
            decreases self.rules@.len() - i,
        {
            let rule = &self.rules[i];
            proof {
                let t = rs.take(i + 1);
                assert(t.drop_last() =~= rs.take(i as int));
                assert(t.last() == rule@);
            }
            match &rule.replace {
                Some(rep) => {
                    if rule.is_match(acc.as_str()) {
                        acc = rule.regex.replace_all(acc.as_str(), rep.as_str());
                    }
                },
                None => {},
            }
            i += 1;
        }
        assert(rs.take(rs.len() as int) =~= rs);
        acc
    }

    /// Updates block mode for a line.
    fn update_block_state(&mut self, t: &str)
        requires
            old(self).wf(),
        ensures
            final(self).wf(),
            final(self)@ == block_update(old(self)@, t@),
    {
        let ghost rs = self@.rules;
        let mut i: usize = 0;
        while i < self.rules.len()
            invariant
                i <= self.rules@.len(),
                rs == rules_view(self.rules@),
                first_block_from(rs, t@, 0) == first_block_from(rs, t@, i as int),
                *self == *old(self),
                self.wf(),
            decreases self.rules@.len() - i,
        {
            let rule = &self.rules[i];
            assert(rs[i as int] == rule@);
            assert(self.rule_styles@[i as int] == rule_style_spec(rs[i as int], self.theme.kind));
            let is_block = match rule.count_mode {
                CountMode::Block => true,
                CountMode::Unblock => true,
                _ => false,
            };
            if is_block && rule.is_match(t) {
                match rule.count_mode {
                    CountMode::Block => {
                        self.in_block = true;
                        self.block_style = Some(self.rule_styles[i]);
                    },
                    _ => {
                        self.in_block = false;
                        self.block_style = None;
                    },
                }
                return;
            }
            i += 1;
        }
    }

    /// The colored ranges of a line.
    fn collect_colored_ranges(&self, t: &str) -> (r: Vec<(usize, usize, usize)>)
        requires
            self.wf(),
        ensures
            r@ == collect_ranges(self@.rules, colorizable_indices_spec(self@.rules), t@),
            ranges_ok(r@, t.spec_bytes(), self@.rules.len()),
    {
        let ghost rs = self@.rules;
        let ghost idxs = colorizable_indices_spec(rs);
        let ghost b = t.spec_bytes();
        proof {
            lemma_colorizable_bound(rs);
        }
        let mut ranges: Vec<(usize, usize, usize)> = Vec::new();
        let mut k: usize = 0;
        while k < self.colorizable_indices.len()
            invariant
                k <= idxs.len(),
                self.wf(),
                rs == rules_view(self.rules@),
                idxs == colorizable_indices_spec(rs),
                self.colorizable_indices@ == idxs,
                forall|i: int| 0 <= i < idxs.len() ==> (#[trigger] idxs[i]) < rs.len(),
                b == t.spec_bytes(),
                ranges@ == collect_ranges(rs, idxs.take(k as int), t@),
                ranges_ok(ranges@, b, rs.len()),
            decreases idxs.len() - k,
        {
            let idx = self.colorizable_indices[k];
            let rule = &self.rules[idx];
            assert(rs[idx as int] == rule@);
            let spans = rule.find_spans(t);
            let limit: usize = match rule.count_mode {
                CountMode::Once => 1,
                _ => spans.len(),
            };
            let n = if limit < spans.len() {
                limit
            } else {
                spans.len()
            };
            let ghost prev = ranges@;
            let ghost sp = spans_for(rs[idx as int], t@);
            assert(sp =~= spans@.take(n as int));
            let mut j: usize = 0;
            while j < n
                invariant
                    j <= n <= spans@.len(),
                    sp == spans@.take(n as int),
                    spans_well_formed(rule@.pattern, t@, spans@),
                    b == t.spec_bytes(),
                    idx < rs.len(),
                    ranges@ == insert_all(prev, sp.take(j as int), idx),
                    ranges_ok(ranges@, b, rs.len()),
                decreases n - j,
            {
                let (start, end) = spans[j];
                proof {
                    assert(spans@[j as int] == (start, end));
                    lemma_insert_span_ok(ranges@, (start, end), idx, b, rs.len());
                    let q = sp.take(j + 1);
                    assert(q.drop_last() =~= sp.take(j as int));
                    assert(q.last() == spans@[j as int]);
                }
                insert_range(&mut ranges, start, end, idx);
                j += 1;
            }
            proof {
                assert(sp.take(n as int) =~= sp);
                let q = idxs.take(k + 1);
                assert(q.drop_last() =~= idxs.take(k as int));
                assert(q.last() == idx);
            }
            k += 1;
        }
        assert(idxs.take(idxs.len() as int) =~= idxs);
        ranges
    }

    /// Appends a text outside the colored ranges.
    fn write_segment(&self, buf: &mut String, text: &str)
        ensures
            final(buf)@ == old(buf)@ + block_seg(self.in_block, self.block_style, text@),
    {
        match (&self.block_style, self.in_block) {
            (Some(style), true) => style.paint_into(buf, text),
            _ => push_str(buf, text),
        }
    }

    /// The colored line for the given ranges.
    fn build_colored_output(&self, t: &str, ranges: &Vec<(usize, usize, usize)>) -> (r: String)
        requires
            self.wf(),
            ranges_ok(ranges@, t.spec_bytes(), self@.rules.len()),
        ensures
            r@ == colored_output(
                t.spec_bytes(),
                ranges@,
                styles_spec(self@.rules, self@.kind),
                self.in_block,
                self.block_style,
            ),
    {
        let ghost b = t.spec_bytes();
        let ghost styles = styles_spec(self@.rules, self@.kind);
        let len: usize = t.as_bytes().len();
        let mut out = String::new();
        if ranges.len() == 0 {
            self.write_segment(&mut out, t);
            assert(out@ =~= block_seg(self.in_block, self.block_style, decode_utf8(b)));
            return out;
        }
        let mut last_end: usize = 0;
        let mut k: usize = 0;
        while k < ranges.len()
            invariant
                k <= ranges@.len(),
                ranges_ok(ranges@, b, self@.rules.len()),
                b == t.spec_bytes(),
                len == b.len(),
                self.wf(),
                styles == styles_spec(self@.rules, self@.kind),
                self.rule_styles@ == styles,
                last_end == if k > 0 {
                    ranges@[k - 1].1
                } else {
                    0
                },
                last_end <= len,
                is_char_boundary(b, last_end as int),
                forall|j: int| k <= j < ranges@.len() ==> last_end <= (#[trigger] ranges@[j]).0,
                out@ == colored_upto(b, ranges@.take(k as int), styles, self.in_block, self.block_style),
            decreases ranges@.len() - k,
        {
            let (start, end, si) = ranges[k];
            assert(ranges@[k as int] == (start, end, si));
            let gap = byte_slice(t, last_end, start);
            self.write_segment(&mut out, gap);
            let piece = byte_slice(t, start, end);
            self.rule_styles[si].paint_into(&mut out, piece);
            proof {
                let q = ranges@.take(k + 1);
                assert(q.drop_last() =~= ranges@.take(k as int));
                assert(q.last() == ranges@[k as int]);
                if k > 0 {
                    assert(q[q.len() - 2] == ranges@[k - 1]);
                }
                assert forall|j: int| k + 1 <= j < ranges@.len() implies end <= (#[trigger] ranges@[j]).0 by {
                    assert(ranges@[k as int].1 <= ranges@[j].0);
                }
            }
            last_end = end;
            k += 1;
        }
        assert(ranges@.take(ranges@.len() as int) =~= ranges@);
        let tail = byte_slice(t, last_end, len);
        self.write_segment(&mut out, tail);
        out
    }
}

impl Colorizer {
    /// Colorize a line: `None` if a skip rule matches, otherwise the output
    /// and whether any rule colored a match.  Empty lines, and lines longer
    /// than `MAX_LINE_LENGTH` bytes, pass through unchanged.
    pub fn colorize_opt_with_match_info(&mut self, line: &str) -> (r: Option<(String, bool)>)
        requires
            old(self).wf(),
        ensures
            final(self).wf(),
            final(self)@ == colorize_spec(old(self)@, line@).0,
            match (r, colorize_spec(old(self)@, line@).1) {
                (Some((out, had)), Some((o, h))) => out@ == o && had == h,
                (None, None) => true,
                _ => false,
            },
    {
        let n: usize = line.as_bytes().len();
        if n == 0 {
            return Some((String::new(), false));
        }
        if n > MAX_LINE_LENGTH {
            return Some((owned(line), false));
        }
        if self.should_skip(line) {
            return None;
        }
        let t = self.apply_replacements(line);
        self.update_block_state(t.as_str());
        let ranges = self.collect_colored_ranges(t.as_str());
        let had_matches = ranges.len() > 0;
        if !self.color_enabled {
            return Some((t, had_matches));
        }
        let out = self.build_colored_output(t.as_str(), &ranges);
        Some((out, had_matches))
    }

    /// Colorize a line, `None` if a skip rule matches.
    pub fn colorize_opt(&mut self, line: &str) -> (r: Option<String>)
        requires
            old(self).wf(),
        ensures
            final(self).wf(),
            final(self)@ == colorize_spec(old(self)@, line@).0,
            match (r, colorize_spec(old(self)@, line@).1) {
                (Some(out), Some((o, _))) => out@ == o,
                (None, None) => true,
                _ => false,
            },
    {
        match self.colorize_opt_with_match_info(line) {
            Some((out, _)) => Some(out),
            None => None,
        }
    }

    /// Colorize a line and say whether it had any matches; a skipped line
    /// gives an empty output and counts as matched.
    pub fn colorize_with_match_info(&mut self, line: &str) -> (r: (String, bool))
        requires
            old(self).wf(),
        ensures
            final(self).wf(),
            final(self)@ == colorize_spec(old(self)@, line@).0,
            match colorize_spec(old(self)@, line@).1 {
                Some((o, h)) => r.0@ == o && r.1 == h,
                None => r.0@ == Seq::<char>::empty() && r.1,
            },
    {
        match self.colorize_opt_with_match_info(line) {
            Some((out, had)) => (out, had),
            None => (String::new(), true),
        }
    }

    /// Colorize a single line; a line dropped by a skip rule is returned as
    /// it was.
    pub fn colorize(&mut self, line: &str) -> (r: String)
        requires
            old(self).wf(),
        ensures
            final(self).wf(),
            final(self)@ == colorize_spec(old(self)@, line@).0,
            match colorize_spec(old(self)@, line@).1 {
                Some((o, _)) => r@ == o,
                None => r@ == line@,
            },
    {
        match self.colorize_opt_with_match_info(line) {
            Some((out, _)) => out,
            None => crate::text::owned(line),
        }
    }
}

/// An empty line gives an empty output, with no match, and leaves the state
/// alone.
pub proof fn law_empty_line(v: ColorizerView)
    ensures
        colorize_spec(v, Seq::empty()) == (v, Some((Seq::<char>::empty(), false))),
{
    assert(encode_utf8(Seq::<char>::empty()) =~= Seq::<u8>::empty());
}

/// A line longer than `MAX_LINE_LENGTH` bytes passes through unchanged.
pub proof fn law_long_line_passthrough(v: ColorizerView, s: Seq<char>)
    requires
        encode_utf8(s).len() > MAX_LINE_LENGTH,
    ensures
        colorize_spec(v, s) == (v, Some((s, false))),
{
}

/// A line that a skip rule matches is dropped, and the state stays.
pub proof fn law_skip_drops_line(v: ColorizerView, s: Seq<char>)
    requires
        0 < encode_utf8(s).len() <= MAX_LINE_LENGTH,
        skips(v.rules, s),
    ensures
        colorize_spec(v, s) == (v, None::<(Seq<char>, bool)>),
{
}

/// With color disabled, the output is the line after the replace rules,
/// without any escape sequence.
pub proof fn law_color_disabled_plain(v: ColorizerView, s: Seq<char>)
    requires
        !v.color_enabled,
        0 < encode_utf8(s).len() <= MAX_LINE_LENGTH,
        !skips(v.rules, s),
    ensures
        colorize_spec(v, s).1 matches Some((o, _)) && o == replace_fold(v.rules, s),
{
}

/// A line that no rule colors, outside a block, comes out as the line after
/// the replace rules.
pub proof fn law_no_match_unchanged(v: ColorizerView, s: Seq<char>)
    requires
        0 < encode_utf8(s).len() <= MAX_LINE_LENGTH,
        !skips(v.rules, s),
        collect_ranges(v.rules, colorizable_indices_spec(v.rules), replace_fold(v.rules, s)).len() == 0,
        !block_update(v, replace_fold(v.rules, s)).in_block,
    ensures
        colorize_spec(v, s).1 == Some((replace_fold(v.rules, s), false)),
{
}

proof fn lemma_insert_all_ok(rs: Seq<(usize, usize, usize)>, spans: Seq<(usize, usize)>, idx: usize, b: Seq<u8>, n: nat)
    requires
        ranges_ok(rs, b, n),
        idx < n,
        forall|i: int|
            0 <= i < spans.len() ==> {
                &&& (#[trigger] spans[i]).0 <= spans[i].1 <= b.len()
                &&& is_char_boundary(b, spans[i].0 as int)
                &&& is_char_boundary(b, spans[i].1 as int)
            },
    ensures
        ranges_ok(insert_all(rs, spans, idx), b, n),
    decreases spans.len(),
{
    if spans.len() > 0 {
        lemma_insert_all_ok(rs, spans.drop_last(), idx, b, n);
        assert(spans.last() == spans[spans.len() - 1]);
        lemma_insert_span_ok(insert_all(rs, spans.drop_last(), idx), spans.last(), idx, b, n);
    }
}

/// The colored ranges of a line are in order and never overlap, and each
/// lies on character boundaries and belongs to a rule, provided the regex
/// matches do (as `find_spans` states of them).
pub proof fn law_ranges_disjoint(rules: Seq<RuleView>, t: Seq<char>)
    requires
        forall|i: int| 0 <= i < rules.len() ==> spans_well_formed(#[trigger] rules[i].pattern, t, regex_find_spans(rules[i].pattern, t)),
    ensures
        ranges_ok(collect_ranges(rules, colorizable_indices_spec(rules), t), encode_utf8(t), rules.len()),
{
    lemma_colorizable_bound(rules);
    lemma_collect_ok(rules, colorizable_indices_spec(rules), t);
}

proof fn lemma_collect_ok(rules: Seq<RuleView>, idxs: Seq<usize>, t: Seq<char>)
    requires
        forall|i: int| 0 <= i < rules.len() ==> spans_well_formed(#[trigger] rules[i].pattern, t, regex_find_spans(rules[i].pattern, t)),
        forall|i: int| 0 <= i < idxs.len() ==> (#[trigger] idxs[i]) < rules.len(),
    ensures
        ranges_ok(collect_ranges(rules, idxs, t), encode_utf8(t), rules.len()),
    decreases idxs.len(),
{
    if idxs.len() > 0 {
        let p = idxs.drop_last();
        assert forall|i: int| 0 <= i < p.len() implies (#[trigger] p[i]) < rules.len() by {
            assert(p[i] == idxs[i]);
        }
        lemma_collect_ok(rules, p, t);
        let idx = idxs.last();
        assert(idx == idxs[idxs.len() - 1]);
        let r = rules[idx as int];
        let all = regex_find_spans(r.pattern, t);
        assert(spans_well_formed(r.pattern, t, all));
        let sp = spans_for(r, t);
        assert forall|i: int| 0 <= i < sp.len() implies {
            &&& (#[trigger] sp[i]).0 <= sp[i].1 <= encode_utf8(t).len()
            &&& is_char_boundary(encode_utf8(t), sp[i].0 as int)
            &&& is_char_boundary(encode_utf8(t), sp[i].1 as int)
        } by {
            assert(sp[i] == all[i]);
        }
        lemma_insert_all_ok(collect_ranges(rules, p, t), sp, idx, encode_utf8(t), rules.len());
    }
}

/// The number of colored ranges that belong to rule `k`.
pub open spec fn ranges_of_rule(rs: Seq<(usize, usize, usize)>, k: usize) -> nat
    decreases rs.len(),
{
    if rs.len() == 0 {
        0
    } else {
        ranges_of_rule(rs.drop_last(), k) + if rs.last().2 == k {
            1nat
        } else {
            0nat
        }
    }
}

proof fn lemma_ranges_of_rule_add(a: Seq<(usize, usize, usize)>, b: Seq<(usize, usize, usize)>, k: usize)
    ensures
        ranges_of_rule(a + b, k) == ranges_of_rule(a, k) + ranges_of_rule(b, k),
    decreases b.len(),
{
    if b.len() == 0 {
        assert(a + b =~= a);
    } else {
        lemma_ranges_of_rule_add(a, b.drop_last(), k);
        assert((a + b).drop_last() =~= a + b.drop_last());
        assert((a + b).last() == b.last());
    }
}

proof fn lemma_ranges_of_rule_insert(rs: Seq<(usize, usize, usize)>, pos: int, x: (usize, usize, usize), k: usize)
    requires
        0 <= pos <= rs.len(),
    ensures
        ranges_of_rule(rs.insert(pos, x), k) == ranges_of_rule(rs, k) + if x.2 == k {
            1nat
        } else {
            0nat
        },
{
    let a = rs.take(pos);
    let b = rs.skip(pos);
    assert(rs =~= a + b);
    assert(rs.insert(pos, x) =~= (a + seq![x]) + b);
    lemma_ranges_of_rule_add(a, b, k);
    lemma_ranges_of_rule_add(a + seq![x], b, k);
    lemma_ranges_of_rule_add(a, seq![x], k);
    let one = seq![x];
    assert(one.drop_last() =~= Seq::<(usize, usize, usize)>::empty());
    assert(one.last() == x);
    assert(ranges_of_rule(one.drop_last(), k) == 0);
    assert(ranges_of_rule(one, k) == if x.2 == k {
        1nat
    } else {
        0nat
    });
}

/// Adding one match keeps every range and adds at most that match.
proof fn lemma_insert_span_parts(rs: Seq<(usize, usize, usize)>, sp: (usize, usize), idx: usize, k: usize)
    ensures
        ranges_of_rule(insert_span(rs, sp, idx), k) <= ranges_of_rule(rs, k) + if idx == k {
            1nat
        } else {
            0nat
        },
        forall|i: int|
            0 <= i < insert_span(rs, sp, idx).len() ==> rs.contains(#[trigger] insert_span(rs, sp, idx)[i])
                || insert_span(rs, sp, idx)[i] == (sp.0, sp.1, idx),
{
    lemma_lower_bound_le(rs, sp.0);
    let pos = lower_bound(rs, sp.0);
    let r = insert_span(rs, sp, idx);
    if r != rs {
        lemma_ranges_of_rule_insert(rs, pos, (sp.0, sp.1, idx), k);
        assert forall|i: int| 0 <= i < r.len() implies rs.contains(#[trigger] r[i]) || r[i] == (sp.0, sp.1, idx) by {
            if i < pos {
                assert(r[i] == rs[i]);
            } else if i > pos {
                assert(r[i] == rs[i - 1]);
            }
        }
    } else {
        assert forall|i: int| 0 <= i < r.len() implies rs.contains(#[trigger] r[i]) || r[i] == (sp.0, sp.1, idx) by {
            assert(r[i] == rs[i]);
        }
    }
}

/// Adding a rule's matches keeps every range and adds at most one range per
/// match, each one of the matches.
proof fn lemma_insert_all_parts(rs: Seq<(usize, usize, usize)>, spans: Seq<(usize, usize)>, idx: usize, k: usize)
    ensures
        ranges_of_rule(insert_all(rs, spans, idx), k) <= ranges_of_rule(rs, k) + if idx == k {
            spans.len()
        } else {
            0nat
        },
        forall|i: int|
            0 <= i < insert_all(rs, spans, idx).len() ==> rs.contains(#[trigger] insert_all(rs, spans, idx)[i]) || ({
                let x = insert_all(rs, spans, idx)[i];
                x.2 == idx && spans.contains((x.0, x.1))
            }),
    decreases spans.len(),
{
    if spans.len() > 0 {
        let p = spans.drop_last();
        lemma_insert_all_parts(rs, p, idx, k);
        let mid = insert_all(rs, p, idx);
        lemma_insert_span_parts(mid, spans.last(), idx, k);
        let r = insert_all(rs, spans, idx);
        assert forall|i: int| 0 <= i < r.len() implies rs.contains(#[trigger] r[i]) || ({
            let x = r[i];
            x.2 == idx && spans.contains((x.0, x.1))
        }) by {
            let x = r[i];
            if mid.contains(x) {
                let j = choose|j: int| 0 <= j < mid.len() && mid[j] == x;
                if !rs.contains(x) {
                    assert(x.2 == idx && p.contains((x.0, x.1)));
                    let m = choose|m: int| 0 <= m < p.len() && p[m] == (x.0, x.1);
                    assert(spans[m] == p[m]);
                }
            } else {
                assert(x == (spans.last().0, spans.last().1, idx));
                assert(spans[spans.len() - 1] == spans.last());
            }
        }
    }
}

/// The colorizable rules are listed in increasing order.
proof fn lemma_colorizable_increasing(rs: Seq<RuleView>)
    requires
        rs.len() <= usize::MAX,
    ensures
        forall|i: int, j: int|
            0 <= i < j < colorizable_indices_spec(rs).len() ==> (#[trigger] colorizable_indices_spec(rs)[i])
                < (#[trigger] colorizable_indices_spec(rs)[j]),
    decreases rs.len(),
{
    if rs.len() > 0 {
        lemma_colorizable_increasing(rs.drop_last());
        lemma_colorizable_bound(rs.drop_last());
        let p = colorizable_indices_spec(rs.drop_last());
        let q = colorizable_indices_spec(rs);
        if colorizable(rs.last()) {
            assert(q == p.push((rs.len() - 1) as usize));
            assert forall|i: int, j: int| 0 <= i < j < q.len() implies (#[trigger] q[i]) < (#[trigger] q[j]) by {
                assert(q[i] == p[i]);
                assert(p[i] < rs.drop_last().len());
                if j < p.len() {
                    assert(q[j] == p[j]);
                } else {
                    assert(q[j] == (rs.len() - 1) as usize);
                }
            }
        } else {
            assert(q == p);
        }
    }
}

/// What the ranges of a sequence of rules are made of.
proof fn lemma_collect_parts(rules: Seq<RuleView>, idxs: Seq<usize>, t: Seq<char>, k: usize)
    requires
        forall|i: int, j: int| 0 <= i < j < idxs.len() ==> (#[trigger] idxs[i]) < (#[trigger] idxs[j]),
    ensures
        ranges_of_rule(collect_ranges(rules, idxs, t), k) <= if idxs.contains(k) {
            spans_for(rules[k as int], t).len()
        } else {
            0nat
        },
        forall|i: int|
            0 <= i < collect_ranges(rules, idxs, t).len() ==> ({
                let x = #[trigger] collect_ranges(rules, idxs, t)[i];
                idxs.contains(x.2) && spans_for(rules[x.2 as int], t).contains((x.0, x.1))
            }),
    decreases idxs.len(),
{
    if idxs.len() > 0 {
        let p = idxs.drop_last();
        let idx = idxs.last();
        assert forall|i: int, j: int| 0 <= i < j < p.len() implies (#[trigger] p[i]) < (#[trigger] p[j]) by {
            assert(p[i] == idxs[i] && p[j] == idxs[j]);
        }
        lemma_collect_parts(rules, p, t, k);
        let mid = collect_ranges(rules, p, t);
        let sp = spans_for(rules[idx as int], t);
        lemma_insert_all_parts(mid, sp, idx, k);
        assert(idxs[idxs.len() - 1] == idx);
        if idx == k {
            assert forall|m: int| 0 <= m < p.len() implies p[m] != k by {
                assert(p[m] == idxs[m]);
            }
            assert(!p.contains(k));
        }
        if p.contains(k) {
            let m = choose|m: int| 0 <= m < p.len() && p[m] == k;
            assert(idxs[m] == k);
        }
        let r = collect_ranges(rules, idxs, t);
        assert forall|i: int| 0 <= i < r.len() implies ({
            let x = #[trigger] r[i];
            idxs.contains(x.2) && spans_for(rules[x.2 as int], t).contains((x.0, x.1))
        }) by {
            let x = r[i];
            if mid.contains(x) {
                let j = choose|j: int| 0 <= j < mid.len() && mid[j] == x;
                let m = choose|m: int| 0 <= m < p.len() && p[m] == x.2;
                assert(idxs[m] == x.2);
            }
        }
    }
}

/// Every colored range is a match of its own rule, and a rule that colors
/// once gives at most one range, its first match.
pub proof fn law_ranges_are_matches(rules: Seq<RuleView>, t: Seq<char>, k: usize)
    requires
        k < rules.len() <= usize::MAX,
    ensures
        forall|i: int|
            0 <= i < collect_ranges(rules, colorizable_indices_spec(rules), t).len() ==> ({
                let x = #[trigger] collect_ranges(rules, colorizable_indices_spec(rules), t)[i];
                regex_find_spans(rules[x.2 as int].pattern, t).contains((x.0, x.1))
            }),
        rules[k as int].count_mode == CountMode::Once ==> ranges_of_rule(
            collect_ranges(rules, colorizable_indices_spec(rules), t),
            k,
        ) <= 1,
        rules[k as int].count_mode == CountMode::Once ==> forall|i: int|
            0 <= i < collect_ranges(rules, colorizable_indices_spec(rules), t).len()
                && (#[trigger] collect_ranges(rules, colorizable_indices_spec(rules), t)[i]).2 == k ==> ({
                let x = collect_ranges(rules, colorizable_indices_spec(rules), t)[i];
                (x.0, x.1) == regex_find_spans(rules[k as int].pattern, t)[0]
            }),
{
    let idxs = colorizable_indices_spec(rules);
    lemma_colorizable_increasing(rules);
    lemma_collect_parts(rules, idxs, t, k);
    let r = collect_ranges(rules, idxs, t);
    assert forall|i: int| 0 <= i < r.len() implies ({
        let x = #[trigger] r[i];
        regex_find_spans(rules[x.2 as int].pattern, t).contains((x.0, x.1))
    }) by {
        let x = r[i];
        let all = regex_find_spans(rules[x.2 as int].pattern, t);
        let sp = spans_for(rules[x.2 as int], t);
        let m = choose|m: int| 0 <= m < sp.len() && sp[m] == (x.0, x.1);
        assert(all[m] == sp[m]);
    }
    if rules[k as int].count_mode == CountMode::Once {
        let all = regex_find_spans(rules[k as int].pattern, t);
        let sp = spans_for(rules[k as int], t);
        assert(sp.len() <= 1);
        assert forall|i: int| 0 <= i < r.len() && (#[trigger] r[i]).2 == k implies (r[i].0, r[i].1) == all[0] by {
            let x = r[i];
            let m = choose|m: int| 0 <= m < sp.len() && sp[m] == (x.0, x.1);
            assert(m == 0);
            assert(sp[0] == all[0]);
        }
    }
}

/// A kept range stands in a match's way: it starts before the match ends
/// and does not lie wholly before the match.
pub open spec fn in_the_way(x: (usize, usize, usize), sp: (usize, usize)) -> bool {
    x.0 < sp.1 && !(x.1 <= sp.0 && x.0 < sp.0)
}

proof fn lemma_insert_span_keeps(rs: Seq<(usize, usize, usize)>, sp: (usize, usize), idx: usize)
    requires
        sp.0 <= sp.1,
    ensures
        forall|x: (usize, usize, usize)| rs.contains(x) ==> insert_span(rs, sp, idx).contains(x),
        insert_span(rs, sp, idx).contains((sp.0, sp.1, idx)) || exists|i: int|
            0 <= i < rs.len() && in_the_way(#[trigger] rs[i], sp),
{
    lemma_lower_bound_le(rs, sp.0);
    let pos = lower_bound(rs, sp.0);
    let r = insert_span(rs, sp, idx);
    lemma_lower_bound_prefix(rs, sp.0);
    if pos > 0 && rs[pos - 1].1 > sp.0 {
        assert(in_the_way(rs[pos - 1], sp));
    } else if pos < rs.len() && rs[pos].0 < sp.1 {
        assert(in_the_way(rs[pos], sp));
    } else {
        assert(r[pos] == (sp.0, sp.1, idx));
        assert forall|x: (usize, usize, usize)| rs.contains(x) implies r.contains(x) by {
            let i = choose|i: int| 0 <= i < rs.len() && rs[i] == x;
            if i < pos {
                assert(r[i] == rs[i]);
            } else {
                assert(r[i + 1] == rs[i]);
            }
        }
    }
}

/// The ranges before `lower_bound` start before `s`, the one at it does not.
proof fn lemma_lower_bound_prefix(rs: Seq<(usize, usize, usize)>, s: usize)
    ensures
        forall|i: int| 0 <= i < lower_bound(rs, s) ==> (#[trigger] rs[i]).0 < s,
        lower_bound(rs, s) < rs.len() ==> rs[lower_bound(rs, s)].0 >= s,
    decreases rs.len(),
{
    lemma_lower_bound_le(rs, s);
    if rs.len() > 0 && rs[0].0 < s {
        let tail = rs.skip(1);
        lemma_lower_bound_prefix(tail, s);
        lemma_lower_bound_le(tail, s);
        let l2 = lower_bound(tail, s);
        assert(lower_bound(rs, s) == 1 + l2);
        assert forall|i: int| 0 <= i < lower_bound(rs, s) implies (#[trigger] rs[i]).0 < s by {
            if i > 0 {
                assert(rs[i] == tail[i - 1]);
            }
        }
        if lower_bound(rs, s) < rs.len() {
            assert(rs[1 + l2] == tail[l2]);
        }
    }
}

proof fn lemma_insert_all_keeps(rs: Seq<(usize, usize, usize)>, spans: Seq<(usize, usize)>, idx: usize)
    requires
        forall|m: int| 0 <= m < spans.len() ==> (#[trigger] spans[m]).0 <= spans[m].1,
    ensures
        forall|x: (usize, usize, usize)| rs.contains(x) ==> insert_all(rs, spans, idx).contains(x),
        forall|m: int|
            0 <= m < spans.len() ==> insert_all(rs, spans, idx).contains((#[trigger] spans[m].0, spans[m].1, idx))
                || exists|i: int|
                0 <= i < insert_all(rs, spans, idx).len() && in_the_way(insert_all(rs, spans, idx)[i], spans[m]),
    decreases spans.len(),
{
    if spans.len() > 0 {
        let p = spans.drop_last();
        assert forall|m: int| 0 <= m < p.len() implies (#[trigger] p[m]).0 <= p[m].1 by {
            assert(p[m] == spans[m]);
        }
        lemma_insert_all_keeps(rs, p, idx);
        let mid = insert_all(rs, p, idx);
        assert(spans[spans.len() - 1] == spans.last());
        lemma_insert_span_keeps(mid, spans.last(), idx);
        let r = insert_all(rs, spans, idx);
        assert forall|m: int| 0 <= m < spans.len() implies r.contains((#[trigger] spans[m].0, spans[m].1, idx))
            || exists|i: int| 0 <= i < r.len() && in_the_way(r[i], spans[m]) by {
            if m < p.len() {
                assert(p[m] == spans[m]);
                if mid.contains((p[m].0, p[m].1, idx)) {
                } else {
                    let i = choose|i: int| 0 <= i < mid.len() && in_the_way(mid[i], p[m]);
                    assert(mid.contains(mid[i]));
                    let j = choose|j: int| 0 <= j < r.len() && r[j] == mid[i];
                    assert(in_the_way(r[j], spans[m]));
                }
            } else {
                if !r.contains((spans[m].0, spans[m].1, idx)) {
                    let i = choose|i: int| 0 <= i < mid.len() && in_the_way(#[trigger] mid[i], spans.last());
                    assert(mid.contains(mid[i]));
                    let j = choose|j: int| 0 <= j < r.len() && r[j] == mid[i];
                    assert(in_the_way(r[j], spans[m]));
                }
            }
        }
    }
}

/// Collecting more rules keeps every range.
proof fn lemma_collect_keeps(rules: Seq<RuleView>, idxs: Seq<usize>, t: Seq<char>, n: int)
    requires
        0 <= n <= idxs.len(),
        forall|i: int|
            0 <= i < rules.len() ==> spans_well_formed(#[trigger] rules[i].pattern, t, regex_find_spans(rules[i].pattern, t)),
        forall|i: int| 0 <= i < idxs.len() ==> (#[trigger] idxs[i]) < rules.len(),
    ensures
        forall|x: (usize, usize, usize)|
            collect_ranges(rules, idxs.take(n), t).contains(x) ==> collect_ranges(rules, idxs, t).contains(x),
    decreases idxs.len() - n,
{
    if n < idxs.len() {
        let q = idxs.drop_last();
        assert(idxs.take(n) =~= q.take(n));
        assert forall|i: int| 0 <= i < q.len() implies (#[trigger] q[i]) < rules.len() by {
            assert(q[i] == idxs[i]);
        }
        lemma_collect_keeps(rules, q, t, n);
        let idx = idxs.last();
        assert(idxs[idxs.len() - 1] == idx);
        let all = regex_find_spans(rules[idx as int].pattern, t);
        assert(spans_well_formed(rules[idx as int].pattern, t, all));
        let sp = spans_for(rules[idx as int], t);
        assert forall|m: int| 0 <= m < sp.len() implies (#[trigger] sp[m]).0 <= sp[m].1 by {
            assert(sp[m] == all[m]);
        }
        lemma_insert_all_keeps(collect_ranges(rules, q, t), sp, idx);
        assert(collect_ranges(rules, idxs, t) == insert_all(collect_ranges(rules, q, t), sp, idx));
        assert forall|x: (usize, usize, usize)|
            collect_ranges(rules, idxs.take(n), t).contains(x) implies collect_ranges(rules, idxs, t).contains(x) by {
            assert(collect_ranges(rules, idxs.take(n), t) == collect_ranges(rules, q.take(n), t));
            assert(collect_ranges(rules, q, t).contains(x));
        }
    } else {
        assert(idxs.take(n) =~= idxs);
    }
}

proof fn lemma_colorizable_listed(rs: Seq<RuleView>, k: int)
    requires
        0 <= k < rs.len() <= usize::MAX,
        colorizable(rs[k]),
    ensures
        exists|j: int| 0 <= j < colorizable_indices_spec(rs).len() && colorizable_indices_spec(rs)[j] == k,
    decreases rs.len(),
{
    let p = colorizable_indices_spec(rs.drop_last());
    if k == rs.len() - 1 {
        assert(colorizable(rs.last()));
        assert(colorizable_indices_spec(rs)[p.len() as int] == k);
    } else {
        assert(rs.drop_last()[k] == rs[k]);
        lemma_colorizable_listed(rs.drop_last(), k);
        let j = choose|j: int| 0 <= j < p.len() && p[j] == k;
        assert(colorizable_indices_spec(rs)[j] == p[j]);
    }
}

/// Every match of a colorizable rule that colors all its matches is colored,
/// unless a range kept before it stands in its way, given matches that are
/// well formed (as `find_spans` states of them).
pub proof fn law_matches_colored(rules: Seq<RuleView>, t: Seq<char>, k: int, m: int)
    requires
        0 <= k < rules.len() <= usize::MAX,
        forall|i: int|
            0 <= i < rules.len() ==> spans_well_formed(#[trigger] rules[i].pattern, t, regex_find_spans(rules[i].pattern, t)),
        colorizable(rules[k]),
        rules[k].count_mode != CountMode::Once,
        0 <= m < regex_find_spans(rules[k].pattern, t).len(),
    ensures
        ({
            let rs = collect_ranges(rules, colorizable_indices_spec(rules), t);
            let sp = regex_find_spans(rules[k].pattern, t)[m];
            rs.contains((sp.0, sp.1, k as usize)) || exists|i: int| 0 <= i < rs.len() && in_the_way(#[trigger] rs[i], sp)
        }),
{
    let idxs = colorizable_indices_spec(rules);
    lemma_colorizable_bound(rules);
    lemma_colorizable_listed(rules, k);
    let j = choose|j: int| 0 <= j < idxs.len() && idxs[j] == k;
    let pre = idxs.take(j);
    let upto = idxs.take(j + 1);
    assert(upto.drop_last() =~= pre);
    assert(upto.last() == k);
    let all = regex_find_spans(rules[k].pattern, t);
    assert(spans_well_formed(rules[k].pattern, t, all));
    let sp = spans_for(rules[k], t);
    assert(sp == all);
    assert forall|n: int| 0 <= n < sp.len() implies (#[trigger] sp[n]).0 <= sp[n].1 by {}
    lemma_insert_all_keeps(collect_ranges(rules, pre, t), sp, k as usize);
    let mid = collect_ranges(rules, upto, t);
    lemma_collect_keeps(rules, idxs, t, j + 1);
    let rs = collect_ranges(rules, idxs, t);
    if !rs.contains((all[m].0, all[m].1, k as usize)) {
        assert(!mid.contains((all[m].0, all[m].1, k as usize)));
        let i = choose|i: int| 0 <= i < mid.len() && in_the_way(mid[i], sp[m]);
        let x = mid[i];
        assert(mid.contains(x));
        assert(rs.contains(x));
        let i2 = choose|i2: int| 0 <= i2 < rs.len() && rs[i2] == x;
        assert(in_the_way(rs[i2], all[m]));
    }
}

} // verus!
