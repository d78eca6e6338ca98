//! Rule tables: rows of (pattern, color, bold) and the rules built from them.
use vstd::prelude::*;
use crate::colorizer::rules_view;
use crate::colors::{Color, ColorView, SemanticColor};
use crate::pattern::regex_valid;
use crate::rule::{CountMode, Rule, RuleView};

verus! {

/// The rule a row describes: its pattern, its one color, bold or not.
pub open spec fn row_rule(row: (Seq<char>, ColorView, bool)) -> RuleView {
    RuleView {
        pattern: row.0,
        colors: seq![row.1],
        bold: row.2,
        skip: false,
        replace: None,
        count_mode: CountMode::Normal,
    }
}

/// The rules of the rows whose pattern compiles, in order.
pub open spec fn keep_valid(rows: Seq<(Seq<char>, ColorView, bool)>) -> Seq<RuleView>
    decreases rows.len(),
{
    if rows.len() == 0 {
        Seq::empty()
    } else {
        keep_valid(rows.drop_last()) + if regex_valid(rows.last().0) {
            seq![row_rule(rows.last())]
        } else {
            Seq::empty()
        }
    }
}

/// Rows of semantic colors in view form.
pub open spec fn semantic_rows(v: Seq<(&str, SemanticColor, bool)>) -> Seq<(Seq<char>, ColorView, bool)> {
    v.map_values(|t: (&str, SemanticColor, bool)| (t.0@, ColorView::Semantic(t.1), t.2))
}

/// The rules of two tables one after the other are those of the joined table.
pub proof fn lemma_keep_valid_concat(a: Seq<(Seq<char>, ColorView, bool)>, b: Seq<(Seq<char>, ColorView, bool)>)
    ensures
        keep_valid(a + b) == keep_valid(a) + keep_valid(b),
    decreases b.len(),
{
    if b.len() == 0 {
        assert(a + b =~= a);
        assert(keep_valid(a) + keep_valid(b) =~= keep_valid(a));
    } else {
        lemma_keep_valid_concat(a, b.drop_last());
        assert((a + b).drop_last() =~= a + b.drop_last());
        assert((a + b).last() == b.last());
        let tail = if regex_valid(b.last().0) {
            seq![row_rule(b.last())]
        } else {
            Seq::<RuleView>::empty()
        };
        assert(keep_valid(a) + keep_valid(b.drop_last()) + tail =~= keep_valid(a) + (keep_valid(
            b.drop_last(),
        ) + tail));
    }
}

/// The rule of a row, if its pattern compiles.
pub fn color_rule(pattern: &str, color: Color, bold: bool) -> (r: Option<Rule>)
    ensures
        r is Some <==> regex_valid(pattern@),
        r matches Some(x) ==> x@ == row_rule((pattern@, color@, bold)),
{
    match Rule::new(pattern) {
        Ok(b) => {
            let b = b.color(color);
            let b = if bold {
                b.bold()
            } else {
                b
            };
            let r = b.build();
            assert(r@.colors =~= seq![color@]);
            Some(r)
        },
        Err(_) => None,
    }
}

/// The rule of a row with a semantic color, if its pattern compiles.
pub fn semantic_rule(pattern: &str, color: SemanticColor, bold: bool) -> (r: Option<Rule>)
    ensures
        r is Some <==> regex_valid(pattern@),
        r matches Some(x) ==> x@ == row_rule((pattern@, ColorView::Semantic(color), bold)),
{
    color_rule(pattern, Color::semantic(color), bold)
}

/// Appends a rule, if there is one.
pub fn push_rule(v: &mut Vec<Rule>, r: Option<Rule>)
    ensures
        rules_view(final(v)@) == rules_view(old(v)@) + match r {
            Some(x) => seq![x@],
            None => Seq::<RuleView>::empty(),
        },
{
    let ghost before = rules_view(v@);
    match r {
        Some(x) => {
            v.push(x);
            assert(rules_view(v@) =~= before + seq![x@]);
        },
        None => {
            assert(rules_view(v@) =~= before + Seq::<RuleView>::empty());
        },
    }
}

/// Appends rules.
pub fn append_rules(v: &mut Vec<Rule>, more: Vec<Rule>)
    ensures
        rules_view(final(v)@) == rules_view(old(v)@) + rules_view(more@),
{
    let ghost before = rules_view(v@);
    let ghost added = rules_view(more@);
    let mut more = more;
    v.append(&mut more);
    assert(rules_view(v@) =~= before + added);
}

/// The rules of a table of semantic rows.
pub fn build_rules(rows: &Vec<(&'static str, SemanticColor, bool)>) -> (r: Vec<Rule>)
    ensures
        rules_view(r@) == keep_valid(semantic_rows(rows@)),
{
    let ghost table = semantic_rows(rows@);
    let mut r: Vec<Rule> = Vec::new();
    let mut i: usize = 0;
    while i < rows.len()
        invariant
            i <= rows@.len(),
            table == semantic_rows(rows@),
            rules_view(r@) == keep_valid(table.take(i as int)),
        decreases rows@.len() - i,
    {
        let (p, c, b) = rows[i];
        let rule = semantic_rule(p, c, b);
        push_rule(&mut r, rule);
        proof {
            let q = table.take(i + 1);
            assert(q.drop_last() =~= table.take(i as int));
            assert(q.last() == table[i as int]);
            assert(table[i as int] == (p@, ColorView::Semantic(c), b));
        }
        i += 1;
    }
    assert(table.take(rows@.len() as int) =~= table);
    r
}

} // verus!
