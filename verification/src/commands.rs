//! What the command-line commands show: program listings and program
//! details, as plain data for the caller to print.
use vstd::prelude::*;
use crate::category::{category_from_id, category_id, display_name_spec, Category, ParseCategoryError};
use crate::clients::{all_clients, client_from_lower, client_info_spec, Client, Layer};
use crate::colors::brands::{brand_color, color as brand_color_of};
use crate::program::registry::{infos_in_category, lookup_index, present_categories, categories_by_name, ProgramRegistry};
use crate::program::{ProgramInfo, ProgramInfoView, ProgramView, SimpleProgram};
use crate::program::strings_view;
use crate::text::{decimal, lowercase, owned, padded, push_padded, push_str, usize_string};

verus! {

/// Output format for commands.
#[derive(Debug, Clone, Copy, PartialEq, Eq, Structural)]
pub enum OutputFormat {
    /// Human-readable table format
    Table,
    /// JSON format for scripting
    Json,
}

impl Default for OutputFormat {
    fn default() -> (r: OutputFormat)
        ensures
            r == OutputFormat::Table,
    {
        OutputFormat::Table
    }
}

/// Configuration subcommand actions.
#[derive(Debug)]
pub enum ConfigAction {
    /// Show configuration directory paths
    Path,
    /// Validate user program configurations (one file, or all)
    Validate { file: Option<String> },
    /// Initialize config directory with example files
    Init,
}

/// Program info for JSON listings.
#[derive(Debug)]
pub struct ProgramJson {
    pub id: String,
    pub name: String,
    pub description: String,
    pub category: String,
    pub rules: usize,
}

/// A JSON program listing.
#[derive(Debug)]
pub struct ProgramListJson {
    pub total: usize,
    pub programs: Vec<ProgramJson>,
}

/// Extended program info for JSON output (with Ethereum client metadata when
/// applicable).
#[derive(Debug)]
pub struct ProgramInfoJson {
    pub id: String,
    pub name: String,
    pub description: String,
    pub category: String,
    pub rules: usize,
    pub layer: Option<String>,
    pub language: Option<String>,
    pub website: Option<String>,
    pub brand_color: Option<String>,
}

/// The number of rules of the program a lookup by ID finds (0 if none).
pub open spec fn rules_of(ps: Seq<ProgramView>, id: Seq<char>) -> nat {
    match lookup_index(ps, id) {
        Some(i) => ps[i].rules.len(),
        None => 0,
    }
}

/// The programs listed for some categories: those of each category in turn.
pub open spec fn listed_infos(ps: Seq<ProgramView>, cats: Seq<Category>) -> Seq<ProgramInfoView>
    decreases cats.len(),
{
    if cats.len() == 0 {
        Seq::empty()
    } else {
        listed_infos(ps, cats.drop_last()) + infos_in_category(ps, cats.last())
    }
}

/// Whether a JSON entry describes a program.
pub open spec fn json_describes(j: ProgramJson, ps: Seq<ProgramView>, info: ProgramInfoView) -> bool {
    &&& j.id@ == info.id
    &&& j.name@ == info.name
    &&& j.description@ == info.description
    &&& j.category@ == category_id(info.category)
    &&& j.rules == rules_of(ps, info.id)
}

/// The JSON entry of a program.
pub fn program_json(registry: &ProgramRegistry, info: &ProgramInfo) -> (r: ProgramJson)
    ensures
        json_describes(r, registry@, info@),
{
    let rules = match registry.get(info.id.as_str()) {
        Some(p) => p.rule_list().len(),
        None => 0,
    };
    ProgramJson {
        id: owned(info.id.as_str()),
        name: owned(info.name.as_str()),
        description: owned(info.description.as_str()),
        category: info.category.to_string(),
        rules,
    }
}

/// The categories to list: the one named (an error if it is unknown), or
/// every category that has programs.
pub fn listed_categories(registry: &ProgramRegistry, category: Option<&str>) -> (r: Result<Vec<Category>, ParseCategoryError>)
    ensures
        match category {
            None => r matches Ok(v) && v@ == present_categories(categories_by_name(), registry@),
            Some(c) => match category_from_id(lowercase(c@)) {
                Some(cat) => r matches Ok(v) && v@ == seq![cat],
                None => r matches Err(e) && e.0@ == c@,
            },
        },
{
    match category {
        None => Ok(registry.categories()),
        Some(c) => match Category::parse(c) {
            Ok(cat) => {
                let v = vec![cat];
                assert(v@ =~= seq![cat]);
                Ok(v)
            },
            Err(e) => Err(e),
        },
    }
}

/// The JSON listing of the programs of some categories.
pub fn program_list(registry: &ProgramRegistry, categories: &Vec<Category>) -> (r: ProgramListJson)
    ensures
        r.total == r.programs@.len(),
        r.programs@.len() == listed_infos(registry@, categories@).len(),
        forall|i: int|
            0 <= i < r.programs@.len() ==> json_describes(
                #[trigger] r.programs@[i],
                registry@,
                listed_infos(registry@, categories@)[i],
            ),
{
    let ghost ps = registry@;
    let mut programs: Vec<ProgramJson> = Vec::new();
    let mut k: usize = 0;
    while k < categories.len()
        invariant
            k <= categories@.len(),
            ps == registry@,
            programs@.len() == listed_infos(ps, categories@.take(k as int)).len(),
            forall|i: int|
                0 <= i < programs@.len() ==> json_describes(
                    #[trigger] programs@[i],
                    ps,
                    listed_infos(ps, categories@.take(k as int))[i],
                ),
        decreases categories@.len() - k,
    {
        let infos = registry.list_by_category(categories[k]);
        let ghost before = listed_infos(ps, categories@.take(k as int));
        let ghost added = infos_in_category(ps, categories@[k as int]);
        proof {
            let q = categories@.take(k + 1);
            assert(q.drop_last() =~= categories@.take(k as int));
            assert(q.last() == categories@[k as int]);
            assert(listed_infos(ps, q) == before + added);
            assert(infos@.len() == added.len());
        }
        let mut j: usize = 0;
        while j < infos.len()
            invariant
                j <= infos@.len(),
                ps == registry@,
                infos@.map_values(|p: &ProgramInfo| p@) == added,
                programs@.len() == before.len() + j,
                forall|i: int|
                    0 <= i < programs@.len() ==> json_describes(#[trigger] programs@[i], ps, (before + added)[i]),
            decreases infos@.len() - j,
        {
            let pj = program_json(registry, infos[j]);
            proof {
                assert(infos@[j as int]@ == added[j as int]);
                assert((before + added)[before.len() + j] == added[j as int]);
            }
            programs.push(pj);
            j += 1;
        }
        k += 1;
    }
    assert(categories@.take(categories@.len() as int) =~= categories@);
    let total = programs.len();
    ProgramListJson { total, programs }
}

/// The part of an ID after its last dot (all of it without one).
pub open spec fn after_last_dot(s: Seq<char>) -> Seq<char>
    decreases s.len(),
{
    if s.len() == 0 {
        s
    } else if s.last() == '.' {
        Seq::empty()
    } else {
        after_last_dot(s.drop_last()).push(s.last())
    }
}

/// The short name of a program: the part of its ID after the last dot.
pub fn short_name(id: &str) -> (r: String)
    ensures
        r@ == after_last_dot(id@),
{
    let cs = crate::text::chars_of(id);
    let mut start: usize = cs.len();
    proof {
        assert(cs@.take(cs@.len() as int) =~= cs@);
        assert(cs@.skip(cs@.len() as int) =~= Seq::<char>::empty());
        assert(after_last_dot(id@) + Seq::<char>::empty() =~= after_last_dot(id@));
    }
    while start > 0 && cs[start - 1] != '.'
        invariant
            start <= cs@.len(),
            cs@ == id@,
            after_last_dot(id@) == after_last_dot(cs@.take(start as int)) + cs@.skip(start as int),
        decreases start,
    {
        proof {
            let q = cs@.take(start as int);
            assert(q.drop_last() =~= cs@.take(start - 1));
            assert(q.last() == cs@[start - 1]);
            assert(cs@.skip(start - 1) =~= seq![cs@[start - 1]] + cs@.skip(start as int));
        }
        start -= 1;
    }
    proof {
        if start > 0 {
            let q = cs@.take(start as int);
            assert(q.last() == cs@[start - 1]);
        }
    }
    crate::text::string_of(crate::text::slice_range(cs.as_slice(), start, cs.len()))
}

/// The name of a client layer, as `Debug` writes it.
pub open spec fn layer_name(l: Layer) -> Seq<char> {
    match l {
        Layer::Consensus => "Consensus"@,
        Layer::Execution => "Execution"@,
        Layer::Full => "Full"@,
        Layer::Middleware => "Middleware"@,
    }
}

/// The name of a client layer.
pub fn layer_text(l: Layer) -> (r: &'static str)
    ensures
        r@ == layer_name(l),
{
    match l {
        Layer::Consensus => "Consensus",
        Layer::Execution => "Execution",
        Layer::Full => "Full",
        Layer::Middleware => "Middleware",
    }
}

/// The Ethereum client a program is, if it is one: an Ethereum program whose
/// name names a client.
pub open spec fn client_of(info: ProgramInfoView) -> Option<Client> {
    if info.category == Category::Ethereum {
        client_from_lower(lowercase(info.name))
    } else {
        None
    }
}

/// Whether an optional text is present and reads `text`.
pub open spec fn holds_text(o: Option<String>, text: Seq<char>) -> bool {
    match o {
        Some(x) => x@ == text,
        None => false,
    }
}

/// The details of a program for JSON output.
pub fn program_info_json(program: &SimpleProgram) -> (r: ProgramInfoJson)
    ensures
        r.id@ == program@.info.id,
        r.name@ == program@.info.name,
        r.description@ == program@.info.description,
        r.category@ == category_id(program@.info.category),
        r.rules == program@.rules.len(),
        match client_of(program@.info) {
            Some(c) => {
                &&& holds_text(r.layer, layer_name(client_info_spec(c).2))
                &&& holds_text(r.language, client_info_spec(c).3)
                &&& holds_text(r.website, client_info_spec(c).4)
                &&& match brand_color(lowercase(program@.info.name)) {
                    Some(b) => holds_text(r.brand_color, b),
                    None => r.brand_color is None,
                }
            },
            None => r.layer is None && r.language is None && r.website is None && r.brand_color is None,
        },
{
    let info = program.program_info();
    let client = if info.category == Category::Ethereum {
        Client::parse(info.name.as_str())
    } else {
        None
    };
    let (layer, language, website, brand) = match client {
        Some(c) => {
            let ci = c.info();
            let brand = match brand_color_of(info.name.as_str()) {
                Some(b) => Some(owned(b)),
                None => None,
            };
            (Some(owned(layer_text(ci.layer))), Some(owned(ci.language)), Some(owned(ci.website)), brand)
        },
        None => (None, None, None, None),
    };
    ProgramInfoJson {
        id: owned(info.id.as_str()),
        name: owned(info.name.as_str()),
        description: owned(info.description.as_str()),
        category: info.category.to_string(),
        rules: program.rule_list().len(),
        layer,
        language,
        website,
        brand_color: brand,
    }
}

/// A row of the program table: the short name padded to twelve characters,
/// a dash and the description.
pub open spec fn table_row(info: ProgramInfoView) -> Seq<char> {
    "  "@ + padded(after_last_dot(info.id), 12) + " - "@ + info.description
}

/// The table rows of programs.
pub open spec fn table_rows(infos: Seq<ProgramInfoView>) -> Seq<Seq<char>> {
    infos.map_values(|i: ProgramInfoView| table_row(i))
}

/// The sections of the program table: each category that has programs,
/// under its display name, followed by a blank line.
pub open spec fn table_sections(ps: Seq<ProgramView>, cats: Seq<Category>) -> Seq<Seq<char>>
    decreases cats.len(),
{
    if cats.len() == 0 {
        Seq::empty()
    } else {
        let infos = infos_in_category(ps, cats.last());
        if infos.len() == 0 {
            table_sections(ps, cats.drop_last())
        } else {
            table_sections(ps, cats.drop_last()) + seq![display_name_spec(cats.last()) + ":"@] + table_rows(infos)
                + seq![Seq::empty()]
        }
    }
}

/// The lines that list the Ethereum clients by layer.
pub open spec fn ethereum_layer_lines() -> Seq<Seq<char>> {
    seq![
        "Ethereum clients by layer:"@,
        "  Consensus:  Lighthouse, Prysm, Teku, Nimbus, Lodestar, Grandine, Lambda"@,
        "  Execution:  Geth, Nethermind, Besu, Erigon, Reth"@,
        "  Full Node:  Mana"@,
        "  Middleware: Charon, MEV-Boost"@,
    ]
}

/// The program table: a count of all programs, the sections of the given
/// categories, and the Ethereum layers when asked for.
pub open spec fn program_table_spec(ps: Seq<ProgramView>, cats: Seq<Category>, ethereum: bool) -> Seq<Seq<char>> {
    let head = seq!["Available programs ("@ + decimal(ps.len()) + " total):"@, Seq::empty()];
    let body = head + table_sections(ps, cats);
    if ethereum {
        body + ethereum_layer_lines()
    } else {
        body
    }
}

/// The lines of the program table of the given categories; `ethereum` adds
/// the Ethereum clients by layer (the listing of the Ethereum category does).
pub fn program_table(registry: &ProgramRegistry, categories: &Vec<Category>, ethereum: bool) -> (r: Vec<String>)
    ensures
        strings_view(r@) == program_table_spec(registry@, categories@, ethereum),
{
    let ghost ps = registry@;
    let mut out: Vec<String> = Vec::new();
    let mut head = owned("Available programs (");
    let n = usize_string(registry.len());
    push_str(&mut head, n.as_str());
    push_str(&mut head, " total):");
    out.push(head);
    out.push(String::new());
    proof {
        reveal_strlit("");
        assert(strings_view(out@) =~= seq!["Available programs ("@ + decimal(ps.len()) + " total):"@, Seq::empty()]
            + table_sections(ps, categories@.take(0)));
    }
    let ghost head_view = seq!["Available programs ("@ + decimal(ps.len()) + " total):"@, Seq::<char>::empty()];
    let mut k: usize = 0;
    while k < categories.len()
        invariant
            k <= categories@.len(),
            ps == registry@,
            strings_view(out@) == head_view + table_sections(ps, categories@.take(k as int)),
        decreases categories@.len() - k,
    {
        let c = categories[k];
        let infos = registry.list_by_category(c);
        let ghost before = strings_view(out@);
        proof {
            let q = categories@.take(k + 1);
            assert(q.drop_last() =~= categories@.take(k as int));
            assert(q.last() == c);
        }
        if infos.len() > 0 {
            let mut title = owned(c.display_name());
            push_str(&mut title, ":");
            out.push(title);
            let mut j: usize = 0;
            let ghost added = infos_in_category(ps, c);
            while j < infos.len()
                invariant
                    j <= infos@.len(),
                    infos@.map_values(|p: &ProgramInfo| p@) == added,
                    strings_view(out@) == before + seq![display_name_spec(c) + ":"@] + table_rows(added.take(j as int)),
                decreases infos@.len() - j,
            {
                let info = infos[j];
                let mut line = owned("  ");
                let short = short_name(info.id.as_str());
                push_padded(&mut line, short.as_str(), 12);
                push_str(&mut line, " - ");
                push_str(&mut line, info.description.as_str());
                let ghost prev = strings_view(out@);
                out.push(line);
                proof {
                    assert(infos@[j as int]@ == added[j as int]);
                    assert(table_rows(added.take(j + 1)) =~= table_rows(added.take(j as int)).push(table_row(added[j as int])));
                    assert(strings_view(out@) =~= prev.push(table_row(added[j as int])));
                }
                j += 1;
            }
            out.push(String::new());
            proof {
                reveal_strlit("");
                assert(added.take(j as int) =~= added);
                assert(strings_view(out@) =~= before + seq![display_name_spec(c) + ":"@] + table_rows(added) + seq![Seq::<char>::empty()]);
            }
        }
        k += 1;
    }
    assert(categories@.take(k as int) =~= categories@);
    if ethereum {
        let ghost body = strings_view(out@);
        out.push(owned("Ethereum clients by layer:"));
        out.push(owned("  Consensus:  Lighthouse, Prysm, Teku, Nimbus, Lodestar, Grandine, Lambda"));
        out.push(owned("  Execution:  Geth, Nethermind, Besu, Erigon, Reth"));
        out.push(owned("  Full Node:  Mana"));
        out.push(owned("  Middleware: Charon, MEV-Boost"));
        assert(strings_view(out@) =~= body + ethereum_layer_lines());
    }
    out
}

/// The client lines of a program's details: layer, language, website and
/// brand color of the Ethereum client it is, if it is one.
pub open spec fn client_lines(info: ProgramInfoView) -> Seq<Seq<char>> {
    match client_of(info) {
        Some(c) => {
            let base = seq![
                "  Layer:       "@ + layer_name(client_info_spec(c).2),
                "  Language:    "@ + client_info_spec(c).3,
                "  Website:     "@ + client_info_spec(c).4,
            ];
            match brand_color(lowercase(info.name)) {
                Some(b) => base.push("  Brand color: "@ + b),
                None => base,
            }
        },
        None => Seq::empty(),
    }
}

/// The lines of a program's details.
pub open spec fn info_table_spec(p: ProgramView) -> Seq<Seq<char>> {
    seq![
        p.info.name,
        "  ID:          "@ + p.info.id,
        "  Description: "@ + p.info.description,
        "  Category:    "@ + category_id(p.info.category),
        "  Rules:       "@ + decimal(p.rules.len()),
    ] + client_lines(p.info)
}

/// A label followed by a text.
fn labelled(label: &str, text: &str) -> (r: String)
    ensures
        r@ == label@ + text@,
{
    let mut r = owned(label);
    push_str(&mut r, text);
    r
}

/// The lines of a program's details.
pub fn info_table(program: &SimpleProgram) -> (r: Vec<String>)
    ensures
        strings_view(r@) == info_table_spec(program@),
{
    let info = program.program_info();
    let mut out: Vec<String> = Vec::new();
    out.push(owned(info.name.as_str()));
    out.push(labelled("  ID:          ", info.id.as_str()));
    out.push(labelled("  Description: ", info.description.as_str()));
    out.push(labelled("  Category:    ", info.category.as_str()));
    let n = usize_string(program.rule_list().len());
    out.push(labelled("  Rules:       ", n.as_str()));
    let ghost head = strings_view(out@);
    assert(head =~= info_table_spec(program@).take(5));
    let client = if info.category == Category::Ethereum {
        Client::parse(info.name.as_str())
    } else {
        None
    };
    if let Some(c) = client {
        let ci = c.info();
        out.push(labelled("  Layer:       ", layer_text(ci.layer)));
        out.push(labelled("  Language:    ", ci.language));
        out.push(labelled("  Website:     ", ci.website));
        if let Some(b) = brand_color_of(info.name.as_str()) {
            out.push(labelled("  Brand color: ", b));
        }
    }
    assert(strings_view(out@) =~= info_table_spec(program@));
    out
}

/// The line of one client in the brand color listing: a swatch in the
/// color, the lower-cased name padded to twelve characters, and the hex
/// color (gray where a name has none).
pub open spec fn brand_line(name: Seq<char>) -> Seq<char> {
    let lower = lowercase(name);
    let hex = match brand_color(lower) {
        Some(h) => h,
        None => "#888888"@,
    };
    let (r, g, b) = match crate::colors::parse_hex_rgb_spec(vstd::utf8::encode_utf8(hex)) {
        Some(c) => c,
        None => (128u8, 128u8, 128u8),
    };
    "  \x1b[38;2;"@ + decimal(r as nat) + ";"@ + decimal(g as nat) + ";"@ + decimal(b as nat) + "m##\x1b[0m "@
        + padded(lower, 12) + " "@ + hex
}

/// The names of the clients, in order.
pub open spec fn client_names(cs: Seq<Client>) -> Seq<Seq<char>> {
    cs.map_values(|c: Client| client_info_spec(c).0)
}

/// The brand color listing: a title, a blank line, and a line per client.
pub open spec fn brand_lines_spec(cs: Seq<Client>) -> Seq<Seq<char>> {
    seq!["Ethereum Client Brand Colors:"@, Seq::empty()] + client_names(cs).map_values(|n: Seq<char>| brand_line(n))
}

/// The brand color listing of all clients.
pub fn brand_color_lines() -> (r: Vec<String>)
    ensures
        strings_view(r@) == brand_lines_spec(all_clients()),
{
    let clients = Client::all();
    let mut out: Vec<String> = Vec::new();
    out.push(owned("Ethereum Client Brand Colors:"));
    out.push(String::new());
    let ghost cs = clients@;
    let ghost head = seq!["Ethereum Client Brand Colors:"@, Seq::<char>::empty()];
    proof {
        reveal_strlit("");
        assert(strings_view(out@) =~= head + client_names(cs.take(0)).map_values(|n: Seq<char>| brand_line(n)));
    }
    let mut i: usize = 0;
    while i < clients.len()
        invariant
            i <= cs.len(),
            cs == clients@,
            strings_view(out@) == head + client_names(cs.take(i as int)).map_values(|n: Seq<char>| brand_line(n)),
        decreases cs.len() - i,
    {
        let name = clients[i].info().name;
        let lower = crate::text::to_lowercase(name);
        let hex: &str = match brand_color_of(name) {
            Some(h) => h,
            None => "#888888",
        };
        let (r, g, b) = match crate::colors::parse_hex_rgb(hex) {
            Some(c) => c,
            None => (128u8, 128u8, 128u8),
        };
        let mut line = owned("  \x1b[38;2;");
        push_str(&mut line, crate::text::decimal_string(r as u64).as_str());
        push_str(&mut line, ";");
        push_str(&mut line, crate::text::decimal_string(g as u64).as_str());
        push_str(&mut line, ";");
        push_str(&mut line, crate::text::decimal_string(b as u64).as_str());
        push_str(&mut line, "m##\x1b[0m ");
        push_padded(&mut line, lower.as_str(), 12);
        push_str(&mut line, " ");
        push_str(&mut line, hex);
        let ghost prev = strings_view(out@);
        out.push(line);
        proof {
            assert(client_names(cs.take(i + 1)).map_values(|n: Seq<char>| brand_line(n)) =~= client_names(
                cs.take(i as int),
            ).map_values(|n: Seq<char>| brand_line(n)).push(brand_line(client_info_spec(cs[i as int]).0)));
            assert(strings_view(out@) =~= prev.push(brand_line(client_info_spec(cs[i as int]).0)));
        }
        i += 1;
    }
    assert(cs.take(i as int) =~= cs);
    out
}

} // verus!
