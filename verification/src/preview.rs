//! Theme previews: sample log lines of several programs, colorized under
//! the built-in themes.
use vstd::prelude::*;
use crate::aggregator::streamer::colorized_text;
use crate::colorizer::{colorize_spec, Colorizer, ColorizerView};
use crate::program::registry::lookup_index;
use crate::program::{copy_rules, strings_view, strs_view, ProgramRegistry, ProgramView};
use crate::rule::RuleView;
use crate::text::{owned, padded, push_padded, push_repeated, push_str, repeat_char};
use crate::theme::{Theme, ThemeKind};

verus! {

/// Sample log lines of a program.
#[derive(Debug)]
pub struct PreviewSample {
    /// The ID of the program whose rules color the lines.
    pub program_id: &'static str,
    /// The heading of the sample.
    pub label: &'static str,
    /// The log lines.
    pub lines: Vec<&'static str>,
}

/// The mathematical form of a sample.
pub struct SampleView {
    pub program_id: Seq<char>,
    pub label: Seq<char>,
    pub lines: Seq<Seq<char>>,
}

impl View for PreviewSample {
    type V = SampleView;

    open spec fn view(&self) -> SampleView {
        SampleView { program_id: self.program_id@, label: self.label@, lines: strs_view(self.lines@) }
    }
}

/// Samples in view form.
pub open spec fn samples_view(v: Seq<PreviewSample>) -> Seq<SampleView> {
    v.map_values(|s: PreviewSample| s@)
}

/// The samples that a preview shows, in order.
pub open spec fn sample_table() -> Seq<SampleView> {
    seq![
        SampleView {
            program_id: "ethereum.lighthouse"@,
            label: "Ethereum (Lighthouse)"@,
            lines: seq![
                "Dec 05 00:12:36.557 INFO Synced slot: 12345, epoch: 385, peers: 47"@,
                "Dec 05 00:12:37.123 WARN Attestation delayed validator_index: 42"@,
                "Dec 05 00:12:38.456 ERRO Failed to connect to peer: 0x4f6a8b2c1d3e5f7a"@,
            ],
        },
        SampleView {
            program_id: "ethereum.geth"@,
            label: "Ethereum (Geth)"@,
            lines: seq![
                "INFO [12-05|10:30:45.123] Imported new chain segment number=19630289 hash=0x4f6a8b2c"@,
                "WARN [12-05|10:30:46.456] Peer connection dropped id=abc123 err=\"timeout\""@,
                "ERROR[12-05|10:30:47.789] Transaction pool full txs=5000 limit=5000"@,
            ],
        },
        SampleView {
            program_id: "devops.docker"@,
            label: "Docker"@,
            lines: seq![
                "2024-01-15T10:30:45.123Z INFO Container started id=abc123def456"@,
                "2024-01-15T10:30:46.456Z WARN Memory usage high: 85%"@,
                "2024-01-15T10:30:47.789Z ERROR Container exited code=1"@,
            ],
        },
        SampleView {
            program_id: "dev.cargo"@,
            label: "Cargo"@,
            lines: seq![
                "   Compiling phos v0.1.0 (/home/user/phos)"@,
                "warning: unused variable: `foo`"@,
                "error[E0382]: borrow of moved value: `x`"@,
            ],
        },
        SampleView {
            program_id: "system.systemd"@,
            label: "systemd"@,
            lines: seq![
                "Dec 15 10:30:45 hostname systemd[1]: Started My Service."@,
                "Dec 15 10:30:46 hostname myapp[1234]: INFO Connected to database"@,
                "Dec 15 10:30:47 hostname myapp[1234]: ERROR Failed to bind port 8080"@,
            ],
        },
        SampleView {
            program_id: "network.ping"@,
            label: "ping"@,
            lines: seq![
                "PING 8.8.8.8 (8.8.8.8): 56 data bytes"@,
                "64 bytes from 8.8.8.8: icmp_seq=1 ttl=117 time=14.2 ms"@,
                "64 bytes from 8.8.8.8: icmp_seq=2 ttl=117 time=13.8 ms"@,
            ],
        },
        SampleView {
            program_id: "dev.git"@,
            label: "git"@,
            lines: seq!["On branch main"@, "Changes not staged for commit:"@, "  modified:   src/main.rs"@],
        },
        SampleView {
            program_id: "dev.npm"@,
            label: "npm"@,
            lines: seq![
                "npm WARN deprecated package@1.0.0: This package is deprecated"@,
                "npm ERR! 404 Not Found - GET https://registry.npmjs.org/nonexistent"@,
                "added 150 packages in 5.2s"@,
            ],
        },
    ]
}

/// Each sample has three lines.
proof fn lemma_three_lines()
    ensures
        forall|i: int| 0 <= i < sample_table().len() ==> (#[trigger] sample_table()[i]).lines.len() == 3,
{
    let t = sample_table();
    assert(t.len() == 8);
}

/// A sample of three lines.
fn sample(
    program_id: &'static str,
    label: &'static str,
    first: &'static str,
    second: &'static str,
    third: &'static str,
) -> (r: PreviewSample)
    ensures
        r@ == (SampleView { program_id: program_id@, label: label@, lines: seq![first@, second@, third@] }),
{
    let r = PreviewSample { program_id, label, lines: vec![first, second, third] };
    assert(strs_view(r.lines@) =~= seq![first@, second@, third@]);
    r
}

/// The samples that a preview shows.
pub fn preview_samples() -> (r: Vec<PreviewSample>)
    ensures
        samples_view(r@) == sample_table(),
{
    let r = vec![
        sample(
            "ethereum.lighthouse",
            "Ethereum (Lighthouse)",
            "Dec 05 00:12:36.557 INFO Synced slot: 12345, epoch: 385, peers: 47",
            "Dec 05 00:12:37.123 WARN Attestation delayed validator_index: 42",
            "Dec 05 00:12:38.456 ERRO Failed to connect to peer: 0x4f6a8b2c1d3e5f7a",
        ),
        sample(
            "ethereum.geth",
            "Ethereum (Geth)",
            "INFO [12-05|10:30:45.123] Imported new chain segment number=19630289 hash=0x4f6a8b2c",
            "WARN [12-05|10:30:46.456] Peer connection dropped id=abc123 err=\"timeout\"",
            "ERROR[12-05|10:30:47.789] Transaction pool full txs=5000 limit=5000",
        ),
        sample(
            "devops.docker",
            "Docker",
            "2024-01-15T10:30:45.123Z INFO Container started id=abc123def456",
            "2024-01-15T10:30:46.456Z WARN Memory usage high: 85%",
            "2024-01-15T10:30:47.789Z ERROR Container exited code=1",
        ),
        sample(
            "dev.cargo",
            "Cargo",
            "   Compiling phos v0.1.0 (/home/user/phos)",
            "warning: unused variable: `foo`",
            "error[E0382]: borrow of moved value: `x`",
        ),
        sample(
            "system.systemd",
            "systemd",
            "Dec 15 10:30:45 hostname systemd[1]: Started My Service.",
            "Dec 15 10:30:46 hostname myapp[1234]: INFO Connected to database",
            "Dec 15 10:30:47 hostname myapp[1234]: ERROR Failed to bind port 8080",
        ),
        sample(
            "network.ping",
            "ping",
            "PING 8.8.8.8 (8.8.8.8): 56 data bytes",
            "64 bytes from 8.8.8.8: icmp_seq=1 ttl=117 time=14.2 ms",
            "64 bytes from 8.8.8.8: icmp_seq=2 ttl=117 time=13.8 ms",
        ),
        sample("dev.git", "git", "On branch main", "Changes not staged for commit:", "  modified:   src/main.rs"),
        sample(
            "dev.npm",
            "npm",
            "npm WARN deprecated package@1.0.0: This package is deprecated",
            "npm ERR! 404 Not Found - GET https://registry.npmjs.org/nonexistent",
            "added 150 packages in 5.2s",
        ),
    ];
    assert(samples_view(r@) =~= sample_table());
    r
}

/// The one-line sample of a quick preview.
pub open spec fn quick_sample_text() -> Seq<char> {
    "INFO slot=12345 Synced | WARN timeout | ERROR 0x4f6a8b2c1d"@
}

/// The one-line sample of a quick preview.
pub fn quick_sample() -> (r: &'static str)
    ensures
        r@ == quick_sample_text(),
{
    "INFO slot=12345 Synced | WARN timeout | ERROR 0x4f6a8b2c1d"
}

/// Whether a name is that of a built-in theme.
pub open spec fn is_builtin_theme(name: Seq<char>) -> bool {
    name == "default-dark"@ || name == "dracula"@ || name == "nord"@
}

/// The themes a preview shows: the one asked for, which must be built in,
/// or all built-in themes.
pub open spec fn preview_theme_names_spec(filter: Option<Seq<char>>) -> Result<Seq<Seq<char>>, Seq<char>> {
    match filter {
        Some(name) => if is_builtin_theme(name) {
            Ok(seq![name])
        } else {
            Err("Unknown theme: "@ + name + ". Run 'phos themes' to see available themes."@)
        },
        None => Ok(seq!["default-dark"@, "dracula"@, "nord"@]),
    }
}

/// The themes a preview shows, or the message for an unknown theme.
pub fn preview_theme_names(filter: Option<&str>) -> (r: Result<Vec<String>, String>)
    ensures
        match preview_theme_names_spec(opt_str_view(filter)) {
            Ok(names) => r matches Ok(v) && strings_view(v@) == names,
            Err(msg) => r matches Err(m) && m@ == msg,
        },
{
    match filter {
        Some(name) => match Theme::builtin(name) {
            Some(_) => {
                let v = vec![owned(name)];
                assert(strings_view(v@) =~= seq![name@]);
                Ok(v)
            },
            None => {
                let mut m = owned("Unknown theme: ");
                push_str(&mut m, name);
                push_str(&mut m, ". Run 'phos themes' to see available themes.");
                Err(m)
            },
        },
        None => {
            let names = Theme::list_builtin();
            let v = vec![owned(names[0]), owned(names[1]), owned(names[2])];
            assert(strings_view(v@) =~= seq!["default-dark"@, "dracula"@, "nord"@]);
            Ok(v)
        },
    }
}

/// An optional string slice in view form.
pub open spec fn opt_str_view(o: Option<&str>) -> Option<Seq<char>> {
    match o {
        Some(s) => Some(s@),
        None => None,
    }
}

/// The theme a preview uses for a name: the built-in theme of that name, or
/// the default one.
pub open spec fn theme_kind_named(name: Seq<char>) -> ThemeKind {
    if name == "dracula"@ {
        ThemeKind::Dracula
    } else if name == "nord"@ {
        ThemeKind::Nord
    } else {
        ThemeKind::DefaultDark
    }
}

/// The built-in theme of a name, or the default one.
fn theme_named(name: &str) -> (t: Theme)
    ensures
        t.kind == theme_kind_named(name@),
{
    proof {
        reveal_strlit("dracula");
        reveal_strlit("nord");
        reveal_strlit("default-dark");
        assert("default-dark"@.len() == 12);
        assert("dracula"@.len() == 7);
        assert("nord"@.len() == 4);
    }
    match Theme::builtin(name) {
        Some(t) => t,
        None => Theme::default_dark(),
    }
}

/// The rules of the program that the registry gives for an ID (none where
/// it gives none).
pub open spec fn program_rules(ps: Seq<ProgramView>, id: Seq<char>) -> Seq<RuleView> {
    match lookup_index(ps, id) {
        Some(i) => ps[i].rules,
        None => Seq::empty(),
    }
}

/// A fresh colorizer state for rules under a theme, with colors on.
pub open spec fn fresh_state(rules: Seq<RuleView>, kind: ThemeKind) -> ColorizerView {
    ColorizerView { rules, kind, in_block: false, block_style: None, color_enabled: true }
}

/// The outputs of colorizing lines one after the other, from a state.
pub open spec fn colorized_from(v: ColorizerView, lines: Seq<Seq<char>>) -> Seq<Seq<char>>
    decreases lines.len(),
{
    if lines.len() == 0 {
        Seq::empty()
    } else {
        seq![colorized_text(v, lines[0])] + colorized_from(colorize_spec(v, lines[0]).0, lines.skip(1))
    }
}

/// A row of a preview: two spaces, the name padded to twelve characters, a
/// space and the text.
pub open spec fn row(name: Seq<char>, text: Seq<char>) -> Seq<char> {
    "  "@ + padded(name, 12) + " "@ + text
}

/// The rows of several outputs under one name: the first shows the name, the
/// others are indented as far.
pub open spec fn named_rows(name: Seq<char>, outs: Seq<Seq<char>>) -> Seq<Seq<char>> {
    Seq::new(outs.len(), |k: int| if k == 0 { row(name, outs[0]) } else { row(Seq::empty(), outs[k]) })
}

/// A heading: an empty line, the title, and a dash under each of its
/// characters.
pub open spec fn heading(title: Seq<char>) -> Seq<Seq<char>> {
    seq![Seq::empty(), title, repeat_char('-', title.len() as int)]
}

/// The rows of one sample under one theme.
pub open spec fn sample_theme_rows(ps: Seq<ProgramView>, s: SampleView, theme: Seq<char>, quick: bool) -> Seq<Seq<char>> {
    let v = fresh_state(program_rules(ps, s.program_id), theme_kind_named(theme));
    if quick {
        seq![row(theme, colorized_text(v, quick_sample_text()))]
    } else {
        named_rows(theme, colorized_from(v, s.lines))
    }
}

/// The rows of one sample under each theme.
pub open spec fn rows_over_themes(ps: Seq<ProgramView>, s: SampleView, themes: Seq<Seq<char>>, quick: bool) -> Seq<Seq<char>>
    decreases themes.len(),
{
    if themes.len() == 0 {
        Seq::empty()
    } else {
        rows_over_themes(ps, s, themes.drop_last(), quick) + sample_theme_rows(ps, s, themes.last(), quick)
    }
}

/// The category-centric view: each sample under its heading, under each theme.
pub open spec fn category_view(ps: Seq<ProgramView>, samples: Seq<SampleView>, themes: Seq<Seq<char>>, quick: bool) -> Seq<Seq<char>>
    decreases samples.len(),
{
    if samples.len() == 0 {
        Seq::empty()
    } else {
        category_view(ps, samples.drop_last(), themes, quick) + heading(samples.last().label) + rows_over_themes(
            ps,
            samples.last(),
            themes,
            quick,
        )
    }
}

/// The row of one sample in the theme-centric view: its label, and its first
/// line (or the quick sample) colorized under the theme.
pub open spec fn sample_row(ps: Seq<ProgramView>, s: SampleView, theme: Seq<char>, quick: bool) -> Seq<char> {
    let v = fresh_state(program_rules(ps, s.program_id), theme_kind_named(theme));
    row(s.label, colorized_text(v, if quick { quick_sample_text() } else { s.lines[0] }))
}

/// The rows of the samples under one theme.
pub open spec fn sample_rows(ps: Seq<ProgramView>, samples: Seq<SampleView>, theme: Seq<char>, quick: bool) -> Seq<Seq<char>>
    decreases samples.len(),
{
    if samples.len() == 0 {
        Seq::empty()
    } else {
        sample_rows(ps, samples.drop_last(), theme, quick).push(sample_row(ps, samples.last(), theme, quick))
    }
}

/// The theme-centric view: each theme under its heading, with a row per sample.
pub open spec fn theme_view(ps: Seq<ProgramView>, themes: Seq<Seq<char>>, samples: Seq<SampleView>, quick: bool) -> Seq<Seq<char>>
    decreases themes.len(),
{
    if themes.len() == 0 {
        Seq::empty()
    } else {
        theme_view(ps, themes.drop_last(), samples, quick) + heading(themes.last()) + sample_rows(ps, samples, themes.last(), quick)
    }
}

/// The lines of a preview, a blank line last.
pub open spec fn preview_lines_spec(ps: Seq<ProgramView>, themes: Seq<Seq<char>>, quick: bool, categories: bool) -> Seq<Seq<char>> {
    if categories {
        category_view(ps, sample_table(), themes, quick).push(Seq::empty())
    } else {
        theme_view(ps, themes, sample_table(), quick).push(Seq::empty())
    }
}

/// A colorizer with the rules of a program, a theme, and colors on.
fn sample_colorizer(registry: &ProgramRegistry, program_id: &str, theme: Theme) -> (c: Colorizer)
    ensures
        c.wf(),
        c@ == fresh_state(program_rules(registry@, program_id@), theme.kind),
{
    let rules = match registry.get(program_id) {
        Some(p) => copy_rules(p.rule_list()),
        None => Vec::new(),
    };
    proof {
        if lookup_index(registry@, program_id@) is None {
            assert(crate::colorizer::rules_view(rules@) =~= Seq::<RuleView>::empty());
        }
    }
    Colorizer::new(rules).with_theme(theme).with_color_enabled(true)
}

/// A row of a preview.
fn make_row(name: &str, text: &str) -> (r: String)
    ensures
        r@ == row(name@, text@),
{
    let mut r = owned("  ");
    push_padded(&mut r, name, 12);
    push_str(&mut r, " ");
    push_str(&mut r, text);
    r
}

/// Appends a heading.
fn push_heading(out: &mut Vec<String>, title: &str)
    ensures
        strings_view(final(out)@) == strings_view(old(out)@) + heading(title@),
{
    let ghost before = out@;
    out.push(String::new());
    out.push(owned(title));
    let mut dashes = String::new();
    push_repeated(&mut dashes, '-', title.unicode_len());
    out.push(dashes);
    proof {
        reveal_strlit("");
        assert(strings_view(out@) =~= strings_view(before) + heading(title@));
    }
}

/// Appends the rows of one sample under one theme.
fn push_sample_theme_rows(out: &mut Vec<String>, registry: &ProgramRegistry, s: &PreviewSample, theme: &str, quick: bool)
    ensures
        strings_view(final(out)@) == strings_view(old(out)@) + sample_theme_rows(registry@, s@, theme@, quick),
{
    let mut colorizer = sample_colorizer(registry, s.program_id, theme_named(theme));
    let ghost v0 = colorizer@;
    if quick {
        let text = colorizer.colorize(quick_sample());
        let ghost before = out@;
        out.push(make_row(theme, text.as_str()));
        assert(strings_view(out@) =~= strings_view(before) + sample_theme_rows(registry@, s@, theme@, quick));
        return;
    }
    let ghost base = strings_view(out@);
    let ghost lines = s@.lines;
    let ghost mut done: Seq<Seq<char>> = Seq::empty();
    let mut k: usize = 0;
    assert(lines.skip(0) =~= lines);
    assert(named_rows(theme@, done) =~= Seq::<Seq<char>>::empty());
    while k < s.lines.len()
        invariant
            k <= s.lines@.len(),
            lines == strs_view(s.lines@),
            colorizer.wf(),
            done.len() == k,
            colorized_from(v0, lines) == done + colorized_from(colorizer@, lines.skip(k as int)),
            strings_view(out@) == base + named_rows(theme@, done),
        decreases s.lines@.len() - k,
    {
        let line = s.lines[k];
        let ghost vk = colorizer@;
        let text = colorizer.colorize(line);
        proof {
            let rest = lines.skip(k as int);
            assert(rest[0] == line@);
            assert(rest.skip(1) =~= lines.skip(k + 1));
            assert(colorized_from(vk, rest) == seq![text@] + colorized_from(colorizer@, lines.skip(k + 1)));
            assert(done + (seq![text@] + colorized_from(colorizer@, lines.skip(k + 1))) =~= done.push(text@)
                + colorized_from(colorizer@, lines.skip(k + 1)));
        }
        let ghost before = out@;
        if k == 0 {
            out.push(make_row(theme, text.as_str()));
        } else {
            out.push(make_row("", text.as_str()));
        }
        proof {
            reveal_strlit("");
            assert(named_rows(theme@, done.push(text@)) =~= named_rows(theme@, done).push(
                if k == 0 { row(theme@, text@) } else { row(Seq::empty(), text@) },
            ));
            assert(strings_view(out@) =~= strings_view(before).push(out@[k as int + base.len()]@));
            done = done.push(text@);
        }
        k += 1;
    }
    proof {
        assert(lines.skip(k as int) =~= Seq::<Seq<char>>::empty());
        assert(done + Seq::<Seq<char>>::empty() =~= done);
    }
}

/// The lines of a preview of the given themes: each sample under each theme
/// (category-centric), or each theme with a row per sample; a blank line
/// last.  The caller picks the themes with `preview_theme_names`.
pub fn preview_lines(registry: &ProgramRegistry, themes: &Vec<String>, quick: bool, categories: bool) -> (r: Vec<String>)
    ensures
        strings_view(r@) == preview_lines_spec(registry@, strings_view(themes@), quick, categories),
{
    let samples = preview_samples();
    let ghost table = samples_view(samples@);
    let ghost tv = strings_view(themes@);
    let mut out: Vec<String> = Vec::new();
    if categories {
        let mut i: usize = 0;
        assert(strings_view(out@) =~= category_view(registry@, table.take(0), tv, quick));
        while i < samples.len()
            invariant
                i <= samples@.len(),
                table == samples_view(samples@),
                tv == strings_view(themes@),
                strings_view(out@) == category_view(registry@, table.take(i as int), tv, quick),
            decreases samples@.len() - i,
        {
            let s = &samples[i];
            let ghost before = strings_view(out@);
            push_heading(&mut out, s.label);
            let mut j: usize = 0;
            assert(tv.take(0) =~= Seq::<Seq<char>>::empty());
            assert(strings_view(out@) =~= before + heading(s@.label) + rows_over_themes(registry@, s@, tv.take(0), quick));
            while j < themes.len()
                invariant
                    j <= themes@.len(),
                    tv == strings_view(themes@),
                    strings_view(out@) == before + heading(s@.label) + rows_over_themes(registry@, s@, tv.take(j as int), quick),
                decreases themes@.len() - j,
            {
                push_sample_theme_rows(&mut out, registry, s, themes[j].as_str(), quick);
                proof {
                    let t = tv.take(j + 1);
                    assert(t.drop_last() =~= tv.take(j as int));
                    assert(t.last() == themes@[j as int]@);
                }
                j += 1;
            }
            proof {
                assert(tv.take(j as int) =~= tv);
                let q = table.take(i + 1);
                assert(q.drop_last() =~= table.take(i as int));
                assert(q.last() == s@);
            }
            i += 1;
        }
        assert(table.take(i as int) =~= table);
    } else {
        let mut j: usize = 0;
        assert(strings_view(out@) =~= theme_view(registry@, tv.take(0), table, quick));
        while j < themes.len()
            invariant
                j <= themes@.len(),
                table == samples_view(samples@),
                table == sample_table(),
                tv == strings_view(themes@),
                strings_view(out@) == theme_view(registry@, tv.take(j as int), table, quick),
            decreases themes@.len() - j,
        {
            let name = themes[j].as_str();
            let ghost before = strings_view(out@);
            push_heading(&mut out, name);
            let mut i: usize = 0;
            proof {
                lemma_three_lines();
            }
            assert(table.take(0) =~= Seq::<SampleView>::empty());
            assert(strings_view(out@) =~= before + heading(name@) + sample_rows(registry@, table.take(0), name@, quick));
            while i < samples.len()
                invariant
                    i <= samples@.len(),
                    table == samples_view(samples@),
                    table == sample_table(),
                    forall|k: int| 0 <= k < sample_table().len() ==> (#[trigger] sample_table()[k]).lines.len() == 3,
                    strings_view(out@) == before + heading(name@) + sample_rows(registry@, table.take(i as int), name@, quick),
                decreases samples@.len() - i,
            {
                let s = &samples[i];
                assert(s@ == table[i as int]);
                assert(s@.lines.len() == 3);
                let mut colorizer = sample_colorizer(registry, s.program_id, theme_named(name));
                let line = if quick { quick_sample() } else { s.lines[0] };
                let text = colorizer.colorize(line);
                let ghost prev = out@;
                out.push(make_row(s.label, text.as_str()));
                proof {
                    let q = table.take(i + 1);
                    assert(q.drop_last() =~= table.take(i as int));
                    assert(q.last() == s@);
                    assert(strings_view(out@) =~= strings_view(prev).push(sample_row(registry@, s@, name@, quick)));
                }
                i += 1;
            }
            proof {
                assert(table.take(i as int) =~= table);
                let t = tv.take(j + 1);
                assert(t.drop_last() =~= tv.take(j as int));
                assert(t.last() == name@);
            }
            j += 1;
        }
        assert(tv.take(j as int) =~= tv);
    }
    let ghost body = strings_view(out@);
    out.push(String::new());
    proof {
        reveal_strlit("");
        assert(strings_view(out@) =~= body.push(Seq::empty()));
    }
    out
}

} // verus!
