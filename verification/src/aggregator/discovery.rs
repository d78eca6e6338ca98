//! Container discovery utilities shared by the providers.
use vstd::prelude::*;
use crate::program::registry::{best_match, ProgramRegistry};
use crate::program::{Program, ProgramView};
use crate::alert::formatter::{json_quoted, json_string};
use crate::text::{
    contains, push_str, strip_prefix, strip_prefix_spec, strip_suffix, strip_suffix_spec, ends_with, first_index_of, lowercase, owned, replace, replace_all, seq_contains, seq_ends_with,
    occurs_at, seq_starts_with, split_once, starts_with,
};
use vstd::string::StrSliceExecFns;

verus! {

broadcast use vstd::string::group_string_axioms;

/// Information about a discovered container.
#[derive(Debug, Clone)]
pub struct ContainerInfo {
    /// Container ID (short form).
    pub id: String,
    /// Container name (without leading slash).
    pub name: String,
    /// Container image.
    pub image: String,
    /// Container status.
    pub status: String,
    /// Detected phos program ID (if any).
    pub program: Option<String>,
}

/// Whether a name matches a glob-like pattern: `*suffix` matches names
/// ending with the suffix, `prefix*` names starting with the prefix, any
/// other pattern names containing it; the empty pattern matches everything.
pub open spec fn matches_glob_spec(name: Seq<char>, pattern: Seq<char>) -> bool {
    if pattern.len() == 0 {
        true
    } else if pattern[0] == '*' {
        seq_ends_with(name, pattern.skip(1))
    } else if pattern.last() == '*' {
        seq_starts_with(name, pattern.drop_last())
    } else {
        seq_contains(name, pattern)
    }
}

/// Check if a container name matches a glob-like pattern.
pub fn matches_glob(name: &str, pattern: &str) -> (r: bool)
    ensures
        r == matches_glob_spec(name@, pattern@),
{
    let n = pattern.unicode_len();
    if n == 0 {
        return true;
    }
    if pattern.get_char(0) == '*' {
        let rest = pattern.substring_char(1, n);
        assert(rest@ =~= pattern@.skip(1));
        return ends_with(name, rest);
    }
    if pattern.get_char(n - 1) == '*' {
        let rest = pattern.substring_char(0, n - 1);
        assert(rest@ =~= pattern@.drop_last());
        return starts_with(name, rest);
    }
    contains(name, pattern)
}

/// What a glob pattern selects: the empty pattern every name; `*` and a
/// suffix the names that end with it; a non-empty prefix and `*` the names
/// that start with it; any other pattern the names that contain it.
pub proof fn law_glob(name: Seq<char>, p: Seq<char>)
    ensures
        matches_glob_spec(name, Seq::empty()),
        matches_glob_spec(name, seq!['*'] + p) == (p.len() <= name.len() && name.subrange(
            name.len() - p.len(),
            name.len() as int,
        ) == p),
        p.len() > 0 && p[0] != '*' ==> matches_glob_spec(name, p.push('*')) == (p.len() <= name.len()
            && name.subrange(0, p.len() as int) == p),
        p.len() > 0 && p[0] != '*' && p.last() != '*' ==> matches_glob_spec(name, p) == exists|i: int|
            0 <= i && i + p.len() <= name.len() && #[trigger] name.subrange(i, i + p.len()) == p,
{
    let a = seq!['*'] + p;
    assert(a[0] == '*');
    assert(a.skip(1) =~= p);
    if p.len() <= name.len() {
        assert(name.skip(name.len() - p.len()) =~= name.subrange(name.len() - p.len(), name.len() as int));
    }
    if p.len() > 0 && p[0] != '*' {
        let b = p.push('*');
        assert(b[0] == p[0]);
        assert(b.last() == '*');
        assert(b.drop_last() =~= p);
        if p.last() != '*' {
            if seq_contains(name, p) {
                let i = choose|i: int| occurs_at(name, p, i);
                assert(name.subrange(i, i + p.len()) == p);
            }
            if exists|i: int| 0 <= i && i + p.len() <= name.len() && #[trigger] name.subrange(i, i + p.len()) == p {
                let i = choose|i: int| 0 <= i && i + p.len() <= name.len() && #[trigger] name.subrange(i, i + p.len()) == p;
                assert(occurs_at(name, p, i));
            }
        }
    }
}

/// The part of a name before its first dot (all of it without one).
pub open spec fn before_first_dot(s: Seq<char>) -> Seq<char> {
    match first_index_of(s, '.') {
        Some(i) => s.take(i),
        None => s,
    }
}

/// A container name without its domain, then without the DAppNode suffixes
/// `-beacon`, `-validator`, `-bn`, `-vc` at its end and the prefixes
/// `DAppNodePackage-`, `DAppNodeCore-` at its start, each in that order.
pub open spec fn normalize_spec(name: Seq<char>) -> Seq<char> {
    let s = before_first_dot(name);
    let t = strip_suffix_spec(
        strip_suffix_spec(strip_suffix_spec(strip_suffix_spec(s, "-beacon"@), "-validator"@), "-bn"@),
        "-vc"@,
    );
    strip_prefix_spec(strip_prefix_spec(t, "DAppNodePackage-"@), "DAppNodeCore-"@)
}

/// Normalize a container name by removing common suffixes (and the DAppNode
/// package prefixes).
pub fn normalize_container_name(name: &str) -> (r: String)
    ensures
        r@ == normalize_spec(name@),
{
    let first = match split_once(name, '.') {
        Some((a, _)) => a,
        None => owned(name),
    };
    let a = strip_suffix(first.as_str(), "-beacon");
    let b = strip_suffix(a.as_str(), "-validator");
    let c = strip_suffix(b.as_str(), "-bn");
    let d = strip_suffix(c.as_str(), "-vc");
    let e = strip_prefix(d.as_str(), "DAppNodePackage-");
    strip_prefix(e.as_str(), "DAppNodeCore-")
}

/// The program that a container's name, else its image, else its normalized
/// name shows.
pub open spec fn detect_program_spec(ps: Seq<ProgramView>, name: Seq<char>, image: Seq<char>) -> Option<Seq<char>> {
    match best_match(ps, lowercase(name)) {
        Some((i, _)) => Some(ps[i].info.id),
        None => match best_match(ps, lowercase(image)) {
            Some((i, _)) => Some(ps[i].info.id),
            None => match best_match(ps, lowercase(normalize_spec(name))) {
                Some((i, _)) => Some(ps[i].info.id),
                None => None,
            },
        },
    }
}

/// Detect the phos program of a container from its name, then its image,
/// then its normalized name.
pub fn detect_program(registry: &ProgramRegistry, name: &str, image: &str) -> (r: Option<String>)
    requires
        registry.wf(),
    ensures
        match detect_program_spec(registry@, name@, image@) {
            Some(id) => r matches Some(s) && s@ == id,
            None => r is None,
        },
{
    if let Some(p) = registry.detect(name) {
        return Some(owned(p.program_info().id.as_str()));
    }
    if let Some(p) = registry.detect(image) {
        return Some(owned(p.program_info().id.as_str()));
    }
    let normalized = normalize_container_name(name);
    match registry.detect(normalized.as_str()) {
        Some(p) => Some(owned(p.program_info().id.as_str())),
        None => None,
    }
}

/// A JSON value for an optional string: the string, or `null`.
pub open spec fn json_opt(o: Option<String>) -> Seq<char> {
    match o {
        Some(s) => json_quoted(s@),
        None => "null"@,
    }
}

/// Appends a JSON value for an optional string.
pub(crate) fn push_json_opt(out: &mut String, o: &Option<String>)
    ensures
        final(out)@ == old(out)@ + json_opt(*o),
{
    match o {
        Some(s) => {
            let q = json_string(s.as_str());
            push_str(out, q.as_str());
        },
        None => push_str(out, "null"),
    }
}

/// The JSON object of a container, keys in order.
pub open spec fn container_json(c: ContainerInfo) -> Seq<char> {
    "{\"id\":"@ + json_quoted(c.id@) + ",\"image\":"@ + json_quoted(c.image@) + ",\"name\":"@ + json_quoted(c.name@)
        + ",\"program\":"@ + json_opt(c.program) + ",\"status\":"@ + json_quoted(c.status@) + "}"@
}

impl ContainerInfo {
    /// The container as a JSON object, keys in order.
    pub fn to_json(&self) -> (r: String)
        ensures
            r@ == container_json(*self),
    {
        let mut r = owned("{\"id\":");
        push_str(&mut r, json_string(self.id.as_str()).as_str());
        push_str(&mut r, ",\"image\":");
        push_str(&mut r, json_string(self.image.as_str()).as_str());
        push_str(&mut r, ",\"name\":");
        push_str(&mut r, json_string(self.name.as_str()).as_str());
        push_str(&mut r, ",\"program\":");
        push_json_opt(&mut r, &self.program);
        push_str(&mut r, ",\"status\":");
        push_str(&mut r, json_string(self.status.as_str()).as_str());
        push_str(&mut r, "}");
        r
    }

    /// Create a new container description, detecting the program from the
    /// name and image.
    pub fn new(registry: &ProgramRegistry, id: &str, name: &str, image: &str, status: &str) -> (r: ContainerInfo)
        requires
            registry.wf(),
        ensures
            r.id@ == id@,
            r.name@ == name@,
            r.image@ == image@,
            r.status@ == status@,
            match detect_program_spec(registry@, name@, image@) {
                Some(pid) => r.program matches Some(s) && s@ == pid,
                None => r.program is None,
            },
    {
        ContainerInfo {
            program: detect_program(registry, name, image),
            id: owned(id),
            name: owned(name),
            image: owned(image),
            status: owned(status),
        }
    }
}

} // verus!
