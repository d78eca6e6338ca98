//! The registry of programs.
use vstd::prelude::*;
use vstd::string::StringSliceAdditionalSpecFns;
use vstd::utf8::encode_utf8;
use crate::category::Category;
use crate::pattern::{compile, escape, regex_escape, regex_is_match, regex_valid, CompiledPattern};
use crate::program::{Program, ProgramInfo, ProgramInfoView, ProgramView, SimpleProgram};
use crate::text::{ends_with, eq_ignore_ascii_case, eq_ignore_ascii_case_spec, lowercase, owned, push_str, seq_ends_with, str_eq, to_lowercase};

verus! {

/// The regex that finds a detection pattern in a command: the pattern,
/// escaped, as a whole word, in any case.
pub open spec fn detector_source(p: Seq<char>) -> Seq<char> {
    "(?i)\\b"@ + regex_escape(p) + "\\b"@
}

/// The detectors of a program: for each detection pattern whose regex
/// compiles, its length in bytes and its regex.
pub open spec fn detectors_spec(ps: Seq<Seq<char>>) -> Seq<(nat, Seq<char>)>
    decreases ps.len(),
{
    if ps.len() == 0 {
        Seq::empty()
    } else {
        detectors_spec(ps.drop_last()) + if regex_valid(detector_source(ps.last())) {
            seq![(encode_utf8(ps.last()).len(), detector_source(ps.last()))]
        } else {
            Seq::empty()
        }
    }
}

/// The length of the longest detector that matches the command.
pub open spec fn longest_match_len(dets: Seq<(nat, Seq<char>)>, cmd: Seq<char>) -> Option<nat>
    decreases dets.len(),
{
    if dets.len() == 0 {
        None
    } else {
        let prev = longest_match_len(dets.drop_last(), cmd);
        if regex_is_match(dets.last().1, cmd) {
            match prev {
                Some(p) => Some(if dets.last().0 > p { dets.last().0 } else { p }),
                None => Some(dets.last().0),
            }
        } else {
            prev
        }
    }
}

/// The longest match is at least as long as every matching detector, and
/// is the length of one of them.
pub proof fn lemma_longest_match(dets: Seq<(nat, Seq<char>)>, cmd: Seq<char>)
    ensures
        forall|j: int| 0 <= j < dets.len() && regex_is_match(#[trigger] dets[j].1, cmd) ==> (longest_match_len(dets, cmd)
            matches Some(l) && dets[j].0 <= l),
        longest_match_len(dets, cmd) matches Some(l) ==> exists|j: int|
            0 <= j < dets.len() && regex_is_match(#[trigger] dets[j].1, cmd) && dets[j].0 == l,
    decreases dets.len(),
{
    if dets.len() > 0 {
        let d = dets.drop_last();
        lemma_longest_match(d, cmd);
        assert forall|j: int| 0 <= j < d.len() implies d[j] == dets[j] by {}
        if longest_match_len(d, cmd) is Some && !(regex_is_match(dets.last().1, cmd) && dets.last().0 > longest_match_len(d, cmd)->0) {
            let j = choose|j: int| 0 <= j < d.len() && regex_is_match(#[trigger] d[j].1, cmd) && d[j].0 == longest_match_len(d, cmd)->0;
            assert(dets[j] == d[j]);
        }
        if regex_is_match(dets.last().1, cmd) {
            assert(dets[dets.len() - 1] == dets.last());
        }
    }
}

/// The program that a command shows, with the length of its matching
/// pattern: the longest match wins, the earliest program on ties.
pub open spec fn best_match(ps: Seq<ProgramView>, cmd: Seq<char>) -> Option<(int, nat)>
    decreases ps.len(),
{
    if ps.len() == 0 {
        None
    } else {
        let prev = best_match(ps.drop_last(), cmd);
        match longest_match_len(detectors_spec(ps.last().detect), cmd) {
            Some(l) => match prev {
                Some((i, bl)) => if l > bl {
                    Some((ps.len() - 1, l))
                } else {
                    prev
                },
                None => Some((ps.len() - 1, l)),
            },
            None => prev,
        }
    }
}

/// The first program from position `i` on with the given ID.
pub open spec fn id_index_from(ps: Seq<ProgramView>, id: Seq<char>, i: int) -> Option<int>
    decreases ps.len() - i,
{
    if i < 0 || i >= ps.len() {
        None
    } else if ps[i].info.id == id {
        Some(i)
    } else {
        id_index_from(ps, id, i + 1)
    }
}

/// Whether a program answers to a short name: its ID ends with `.name`, or
/// its display name equals it up to ASCII case.
pub open spec fn answers_to(p: ProgramView, name: Seq<char>) -> bool {
    seq_ends_with(p.info.id, "."@ + name) || eq_ignore_ascii_case_spec(p.info.name, name)
}

/// The first program from position `i` on that answers to a short name.
pub open spec fn name_index_from(ps: Seq<ProgramView>, name: Seq<char>, i: int) -> Option<int>
    decreases ps.len() - i,
{
    if i < 0 || i >= ps.len() {
        None
    } else if answers_to(ps[i], name) {
        Some(i)
    } else {
        name_index_from(ps, name, i + 1)
    }
}

/// The program that a lookup finds: the one with that ID, else the first that
/// answers to it as a short name.
pub open spec fn lookup_index(ps: Seq<ProgramView>, id: Seq<char>) -> Option<int> {
    match id_index_from(ps, id, 0) {
        Some(i) => Some(i),
        None => name_index_from(ps, id, 0),
    }
}

/// The categories in the order of their names.
pub open spec fn categories_by_name() -> Seq<Category> {
    seq![
        Category::CI,
        Category::Custom,
        Category::Data,
        Category::Dev,
        Category::DevOps,
        Category::Ethereum,
        Category::Messaging,
        Category::Monitoring,
        Category::Network,
        Category::System,
    ]
}

/// Whether some program has the category.
pub open spec fn has_category(ps: Seq<ProgramView>, c: Category) -> bool {
    exists|i: int| 0 <= i < ps.len() && (#[trigger] ps[i]).info.category == c
}

/// The categories of a sequence that some program has, in order.
pub open spec fn present_categories(cs: Seq<Category>, ps: Seq<ProgramView>) -> Seq<Category>
    decreases cs.len(),
{
    if cs.len() == 0 {
        Seq::empty()
    } else if has_category(ps, cs.last()) {
        present_categories(cs.drop_last(), ps).push(cs.last())
    } else {
        present_categories(cs.drop_last(), ps)
    }
}

/// The information of the programs of a category, in order.
pub open spec fn infos_in_category(ps: Seq<ProgramView>, c: Category) -> Seq<ProgramInfoView>
    decreases ps.len(),
{
    if ps.len() == 0 {
        Seq::empty()
    } else if ps.last().info.category == c {
        infos_in_category(ps.drop_last(), c).push(ps.last().info)
    } else {
        infos_in_category(ps.drop_last(), c)
    }
}

/// A registered program with its compiled detectors.
#[derive(Debug)]
struct Entry {
    program: SimpleProgram,
    detectors: Vec<(usize, CompiledPattern)>,
}

/// Detectors in view form.
spec fn detectors_view(d: Seq<(usize, CompiledPattern)>) -> Seq<(nat, Seq<char>)> {
    d.map_values(|e: (usize, CompiledPattern)| (e.0 as nat, e.1@))
}

/// Registry for managing programs.
#[derive(Debug)]
pub struct ProgramRegistry {
    entries: Vec<Entry>,
}

impl View for ProgramRegistry {
    type V = Seq<ProgramView>;

    closed spec fn view(&self) -> Seq<ProgramView> {
        self.entries@.map_values(|e: Entry| e.program@)
    }
}

/// The compiled detectors of a program's detection patterns.
fn compile_detectors(patterns: &Vec<String>) -> (r: Vec<(usize, CompiledPattern)>)
    ensures
        detectors_view(r@) == detectors_spec(crate::program::strings_view(patterns@)),
{
    let ghost ps = crate::program::strings_view(patterns@);
    let mut r: Vec<(usize, CompiledPattern)> = Vec::new();
    let mut i: usize = 0;
    while i < patterns.len()
        invariant
            i <= patterns@.len(),
            ps == crate::program::strings_view(patterns@),
            detectors_view(r@) == detectors_spec(ps.take(i as int)),
        decreases patterns@.len() - i,
    {
        let p = patterns[i].as_str();
        let mut src = owned("(?i)\\b");
        let e = escape(p);
        push_str(&mut src, e.as_str());
        push_str(&mut src, "\\b");
        let ghost before = r@;
        proof {
            let q = ps.take(i + 1);
            assert(q.drop_last() =~= ps.take(i as int));
            assert(q.last() == p@);
        }
        match compile(src.as_str()) {
            Ok(re) => {
                let len = p.as_bytes().len();
                r.push((len, re));
                assert(detectors_view(r@) =~= detectors_view(before) + seq![(encode_utf8(p@).len(), detector_source(p@))]);
            },
            Err(_) => {
                assert(detectors_spec(ps.take(i + 1)) =~= detectors_spec(ps.take(i as int)));
            },
        }
        i += 1;
    }
    assert(ps.take(patterns@.len() as int) =~= ps);
    r
}

impl ProgramRegistry {
    /// Each program's detectors are those of its detection patterns.
    pub closed spec fn wf(&self) -> bool {
        forall|i: int|
            0 <= i < self.entries@.len() ==> detectors_view((#[trigger] self.entries@[i]).detectors@)
                == detectors_spec(self.entries@[i].program@.detect)
    }

    /// Create a new empty registry.
    pub fn new() -> (r: ProgramRegistry)
        ensures
            r.wf(),
            r@ == Seq::<ProgramView>::empty(),
    {
        let r = ProgramRegistry { entries: Vec::new() };
        assert(r@ =~= Seq::<ProgramView>::empty());
        r
    }

    /// The position of the program with an ID.
    fn position_of_id(&self, id: &str) -> (r: Option<usize>)
        ensures
            match r {
                Some(i) => i < self@.len() && id_index_from(self@, id@, 0) == Some(i as int),
                None => id_index_from(self@, id@, 0) is None,
            },
    {
        let mut i: usize = 0;
        while i < self.entries.len()
            invariant
                i <= self.entries@.len(),
                self@.len() == self.entries@.len(),
                id_index_from(self@, id@, 0) == id_index_from(self@, id@, i as int),
            decreases self.entries@.len() - i,
        {
            assert(self@[i as int] == self.entries@[i as int].program@);
            if str_eq(self.entries[i].program.program_info().id.as_str(), id) {
                return Some(i);
            }
            i += 1;
        }
        None
    }

    /// Register a program: it replaces the program with the same ID, if any,
    /// and is otherwise added last.
    pub fn register(&mut self, program: SimpleProgram)
        requires
            old(self).wf(),
        ensures
            final(self).wf(),
            final(self)@ == match id_index_from(old(self)@, program@.info.id, 0) {
                Some(i) => old(self)@.update(i, program@),
                None => old(self)@.push(program@),
            },
    {
        let ghost pv = program@;
        let detectors = compile_detectors(program.detect_list());
        let pos = self.position_of_id(program.program_info().id.as_str());
        let entry = Entry { program, detectors };
        let ghost before = self.entries@;
        match pos {
            Some(i) => {
                self.entries.set(i, entry);
                assert(self@ =~= before.map_values(|e: Entry| e.program@).update(i as int, pv));
            },
            None => {
                self.entries.push(entry);
                assert(self@ =~= before.map_values(|e: Entry| e.program@).push(pv));
            },
        }
        assert forall|k: int| 0 <= k < self.entries@.len() implies detectors_view((#[trigger] self.entries@[k]).detectors@)
            == detectors_spec(self.entries@[k].program@.detect) by {
            if k < before.len() && !(pos == Some(k as usize)) {
                assert(self.entries@[k] == before[k]);
            }
        }
    }

    /// Get a program by ID, or by short name: the end of its ID after a dot,
    /// or its display name in any ASCII case.
    pub fn get(&self, id: &str) -> (r: Option<&SimpleProgram>)
        ensures
            match lookup_index(self@, id@) {
                Some(i) => r matches Some(p) && p@ == self@[i],
                None => r is None,
            },
    {
        if let Some(i) = self.position_of_id(id) {
            assert(self@[i as int] == self.entries@[i as int].program@);
            return Some(&self.entries[i].program);
        }
        let mut suffix = owned(".");
        push_str(&mut suffix, id);
        let mut i: usize = 0;
        while i < self.entries.len()
            invariant
                i <= self.entries@.len(),
                self@.len() == self.entries@.len(),
                suffix@ == "."@ + id@,
                id_index_from(self@, id@, 0) is None,
                name_index_from(self@, id@, 0) == name_index_from(self@, id@, i as int),
            decreases self.entries@.len() - i,
        {
            let p = &self.entries[i].program;
            assert(self@[i as int] == p@);
            let info = p.program_info();
            if ends_with(info.id.as_str(), suffix.as_str()) || eq_ignore_ascii_case(info.name.as_str(), id) {
                assert(answers_to(self@[i as int], id@));
                return Some(p);
            }
            i += 1;
        }
        None
    }

    /// The length of the longest detector of an entry that matches.
    fn longest_match(&self, k: usize, cmd: &str) -> (r: Option<usize>)
        requires
            self.wf(),
            k < self@.len(),
        ensures
            match longest_match_len(detectors_spec(self@[k as int].detect), cmd@) {
                Some(l) => r matches Some(x) && x == l,
                None => r is None,
            },
    {
        let entry = &self.entries[k];
        assert(self@[k as int] == entry.program@);
        assert(detectors_view(self.entries@[k as int].detectors@) == detectors_spec(self.entries@[k as int].program@.detect));
        let ghost d = detectors_view(entry.detectors@);
        let mut best: Option<usize> = None;
        let mut j: usize = 0;
        assert(d.take(0) =~= Seq::<(nat, Seq<char>)>::empty());
        while j < entry.detectors.len()
            invariant
                j <= entry.detectors@.len(),
                d == detectors_view(entry.detectors@),
                d == detectors_spec(self@[k as int].detect),
                match longest_match_len(d.take(j as int), cmd@) {
                    Some(l) => best matches Some(x) && x == l,
                    None => best is None,
                },
            decreases entry.detectors@.len() - j,
        {
            proof {
                let q = d.take(j + 1);
                assert(q.drop_last() =~= d.take(j as int));
                assert(q.last() == (entry.detectors@[j as int].0 as nat, entry.detectors@[j as int].1@));
            }
            if entry.detectors[j].1.is_match(cmd) {
                let len = entry.detectors[j].0;
                best = match best {
                    Some(b) => if len > b {
                        Some(len)
                    } else {
                        Some(b)
                    },
                    None => Some(len),
                };
            }
            j += 1;
        }
        assert(d.take(j as int) =~= d);
        best
    }

    /// Detect a program from a command string: the program with the longest
    /// detection pattern that occurs in the lower-cased command as a whole
    /// word, the earliest registered on ties.
    pub fn detect(&self, cmd: &str) -> (r: Option<&SimpleProgram>)
        requires
            self.wf(),
        ensures
            match best_match(self@, lowercase(cmd@)) {
                Some((i, _)) => r matches Some(p) && p@ == self@[i],
                None => r is None,
            },
    {
        let lower = to_lowercase(cmd);
        let mut best: Option<(usize, usize)> = None;
        let mut k: usize = 0;
        while k < self.entries.len()
            invariant
                k <= self.entries@.len(),
                self.wf(),
                self@.len() == self.entries@.len(),
                lower@ == lowercase(cmd@),
                match best_match(self@.take(k as int), lower@) {
                    Some((i, l)) => best matches Some((bi, bl)) && bi == i && bl == l && 0 <= i < k,
                    None => best is None,
                },
            decreases self.entries@.len() - k,
        {
            proof {
                let q = self@.take(k + 1);
                assert(q.drop_last() =~= self@.take(k as int));
                assert(q.last() == self@[k as int]);
            }
            match self.longest_match(k, lower.as_str()) {
                Some(l) => match best {
                    Some((_, bl)) => {
                        if l > bl {
                            best = Some((k, l));
                        }
                    },
                    None => {
                        best = Some((k, l));
                    },
                },
                None => {},
            }
            k += 1;
        }
        assert(self@.take(self@.len() as int) =~= self@);
        match best {
            Some((i, _)) => {
                assert(self@[i as int] == self.entries@[i as int].program@);
                Some(&self.entries[i].program)
            },
            None => None,
        }
    }

    /// List all registered programs.
    pub fn list(&self) -> (r: Vec<&ProgramInfo>)
        ensures
            r@.len() == self@.len(),
            forall|i: int| 0 <= i < r@.len() ==> (#[trigger] r@[i])@ == self@[i].info,
    {
        let mut r: Vec<&ProgramInfo> = Vec::new();
        let mut i: usize = 0;
        while i < self.entries.len()
            invariant
                i <= self.entries@.len(),
                self@.len() == self.entries@.len(),
                r@.len() == i,
                forall|j: int| 0 <= j < i ==> (#[trigger] r@[j])@ == self@[j].info,
            decreases self.entries@.len() - i,
        {
            assert(self@[i as int] == self.entries@[i as int].program@);
            r.push(self.entries[i].program.program_info());
            i += 1;
        }
        r
    }

    /// List programs by category, in registration order.
    pub fn list_by_category(&self, category: Category) -> (r: Vec<&ProgramInfo>)
        ensures
            r@.map_values(|p: &ProgramInfo| p@) == infos_in_category(self@, category),
    {
        let mut r: Vec<&ProgramInfo> = Vec::new();
        let mut i: usize = 0;
        while i < self.entries.len()
            invariant
                i <= self.entries@.len(),
                self@.len() == self.entries@.len(),
                r@.map_values(|p: &ProgramInfo| p@) == infos_in_category(self@.take(i as int), category),
            decreases self.entries@.len() - i,
        {
            let ghost before = r@;
            let info = self.entries[i].program.program_info();
            proof {
                assert(self@[i as int] == self.entries@[i as int].program@);
                let q = self@.take(i + 1);
                assert(q.drop_last() =~= self@.take(i as int));
                assert(q.last() == self@[i as int]);
            }
            if info.category == category {
                r.push(info);
                assert(r@.map_values(|p: &ProgramInfo| p@) =~= before.map_values(|p: &ProgramInfo| p@).push(info@));
            }
            i += 1;
        }
        assert(self@.take(self@.len() as int) =~= self@);
        r
    }

    /// Whether some registered program has a category.
    fn has_category(&self, c: Category) -> (r: bool)
        ensures
            r == has_category(self@, c),
    {
        let mut i: usize = 0;
        while i < self.entries.len()
            invariant
                i <= self.entries@.len(),
                self@.len() == self.entries@.len(),
                forall|j: int| 0 <= j < i ==> (#[trigger] self@[j]).info.category != c,
            decreases self.entries@.len() - i,
        {
            assert(self@[i as int] == self.entries@[i as int].program@);
            if self.entries[i].program.program_info().category == c {
                return true;
            }
            i += 1;
        }
        false
    }

    /// Get all categories that have programs, in the order of their names,
    /// each once.
    pub fn categories(&self) -> (r: Vec<Category>)
        ensures
            r@ == present_categories(categories_by_name(), self@),
    {
        let order = vec![
            Category::CI,
            Category::Custom,
            Category::Data,
            Category::Dev,
            Category::DevOps,
            Category::Ethereum,
            Category::Messaging,
            Category::Monitoring,
            Category::Network,
            Category::System,
        ];
        assert(order@ =~= categories_by_name());
        let mut r: Vec<Category> = Vec::new();
        let mut i: usize = 0;
        while i < order.len()
            invariant
                i <= order@.len(),
                order@ == categories_by_name(),
                r@ == present_categories(order@.take(i as int), self@),
            decreases order@.len() - i,
        {
            proof {
                let q = order@.take(i + 1);
                assert(q.drop_last() =~= order@.take(i as int));
                assert(q.last() == order@[i as int]);
            }
            if self.has_category(order[i]) {
                r.push(order[i]);
            }
            i += 1;
        }
        assert(order@.take(order@.len() as int) =~= order@);
        r
    }

    /// Get the number of registered programs.
    pub fn len(&self) -> (r: usize)
        ensures
            r == self@.len(),
    {
        self.entries.len()
    }

    /// Check if the registry is empty.
    pub fn is_empty(&self) -> (r: bool)
        ensures
            r == (self@.len() == 0),
    {
        self.entries.len() == 0
    }
}

impl Default for ProgramRegistry {
    fn default() -> (r: ProgramRegistry)
        ensures
            r.wf(),
            r@ == Seq::<ProgramView>::empty(),
    {
        ProgramRegistry::new()
    }
}

proof fn lemma_id_index_update(ps: Seq<ProgramView>, id: Seq<char>, i: int, j: int, p: ProgramView)
    requires
        0 <= j <= i,
        id_index_from(ps, id, j) == Some(i),
        p.info.id == id,
    ensures
        id_index_from(ps.update(i, p), id, j) == Some(i),
    decreases i - j,
{
    lemma_id_index_in_range(ps, id, j);
    let u = ps.update(i, p);
    if j < i {
        assert(u[j] == ps[j]);
        lemma_id_index_update(ps, id, i, j + 1, p);
    } else {
        assert(u[i] == p);
    }
}

proof fn lemma_id_index_push(ps: Seq<ProgramView>, id: Seq<char>, j: int, p: ProgramView)
    requires
        0 <= j <= ps.len(),
        id_index_from(ps, id, j) is None,
        p.info.id == id,
    ensures
        id_index_from(ps.push(p), id, j) == Some(ps.len() as int),
    decreases ps.len() - j,
{
    if j < ps.len() {
        lemma_id_index_push(ps, id, j + 1, p);
    }
}

/// A program just registered is the one that a lookup by its ID finds.
pub proof fn law_register_then_get(ps: Seq<ProgramView>, p: ProgramView)
    ensures
        ({
            let after = match id_index_from(ps, p.info.id, 0) {
                Some(i) => ps.update(i, p),
                None => ps.push(p),
            };
            lookup_index(after, p.info.id) matches Some(k) && after[k] == p
        }),
{
    match id_index_from(ps, p.info.id, 0) {
        Some(i) => {
            lemma_id_index_in_range(ps, p.info.id, 0);
            lemma_id_index_update(ps, p.info.id, i, 0, p);
        },
        None => {
            lemma_id_index_push(ps, p.info.id, 0, p);
        },
    }
}

proof fn lemma_id_index_in_range(ps: Seq<ProgramView>, id: Seq<char>, j: int)
    ensures
        id_index_from(ps, id, j) matches Some(i) ==> j <= i < ps.len() && ps[i].info.id == id,
    decreases ps.len() - j,
{
    if 0 <= j < ps.len() && ps[j].info.id != id {
        lemma_id_index_in_range(ps, id, j + 1);
    }
}

/// Detection prefers the longest pattern: the program it finds has a
/// matching pattern at least as long as every matching pattern of any
/// program, and it finds one whenever any program's pattern matches.
pub proof fn law_detect_longest(ps: Seq<ProgramView>, cmd: Seq<char>, k: int)
    requires
        0 <= k < ps.len(),
        longest_match_len(detectors_spec(ps[k].detect), cmd) is Some,
    ensures
        best_match(ps, cmd) matches Some((i, l)) && 0 <= i < ps.len()
            && longest_match_len(detectors_spec(ps[i].detect), cmd) == Some(l)
            && longest_match_len(detectors_spec(ps[k].detect), cmd)->0 <= l,
        forall|j: int|
            0 <= j < detectors_spec(ps[k].detect).len() && regex_is_match(
                #[trigger] detectors_spec(ps[k].detect)[j].1,
                cmd,
            ) ==> detectors_spec(ps[k].detect)[j].0 <= (best_match(ps, cmd)->0).1,
    decreases ps.len(),
{
    lemma_longest_match(detectors_spec(ps[k].detect), cmd);
    let last = ps.len() - 1;
    if k < last {
        law_detect_longest(ps.drop_last(), cmd, k);
        assert(ps.drop_last()[k] == ps[k]);
        let (i, l) = best_match(ps.drop_last(), cmd)->0;
        assert(ps.drop_last()[i] == ps[i]);
    } else {
        if best_match(ps.drop_last(), cmd) is Some {
            lemma_best_match_ok(ps.drop_last(), cmd);
            let (i, l) = best_match(ps.drop_last(), cmd)->0;
            assert(ps.drop_last()[i] == ps[i]);
        }
    }
}

proof fn lemma_best_match_ok(ps: Seq<ProgramView>, cmd: Seq<char>)
    ensures
        best_match(ps, cmd) matches Some((i, l)) ==> 0 <= i < ps.len()
            && longest_match_len(detectors_spec(ps[i].detect), cmd) == Some(l),
    decreases ps.len(),
{
    if ps.len() > 0 {
        lemma_best_match_ok(ps.drop_last(), cmd);
        if best_match(ps.drop_last(), cmd) is Some {
            let (i, l) = best_match(ps.drop_last(), cmd)->0;
            assert(ps.drop_last()[i] == ps[i]);
        }
    }
}

/// Each detector is made of one of the patterns: its length in bytes and
/// the case-insensitive, whole-word regex of the escaped pattern.
proof fn lemma_detectors_from(ds: Seq<Seq<char>>)
    ensures
        forall|j: int|
            0 <= j < detectors_spec(ds).len() ==> exists|m: int|
                0 <= m < ds.len() && #[trigger] detectors_spec(ds)[j] == (
                    encode_utf8(ds[m]).len(),
                    "(?i)\\b"@ + regex_escape(ds[m]) + "\\b"@,
                ),
    decreases ds.len(),
{
    if ds.len() > 0 {
        let p = ds.drop_last();
        lemma_detectors_from(p);
        let d = detectors_spec(ds);
        assert forall|j: int| 0 <= j < d.len() implies exists|m: int|
            0 <= m < ds.len() && #[trigger] d[j] == (encode_utf8(ds[m]).len(), "(?i)\\b"@ + regex_escape(ds[m]) + "\\b"@) by {
            if j < detectors_spec(p).len() {
                assert(d[j] == detectors_spec(p)[j]);
                let m = choose|m: int|
                    0 <= m < p.len() && #[trigger] detectors_spec(p)[j] == (
                        encode_utf8(p[m]).len(),
                        "(?i)\\b"@ + regex_escape(p[m]) + "\\b"@,
                    );
                assert(p[m] == ds[m]);
            } else {
                assert(ds[ds.len() - 1] == ds.last());
            }
        }
    }
}

/// A command shows a program only through one of its detection patterns,
/// escaped and searched as a whole word in any case (`(?i)\b…\b`) in the
/// lower-cased command; the length it wins by is that pattern's length.
pub proof fn law_detect_whole_word(ps: Seq<ProgramView>, cmd: Seq<char>)
    ensures
        best_match(ps, lowercase(cmd)) matches Some((i, l)) ==> 0 <= i < ps.len() && exists|m: int|
            0 <= m < ps[i].detect.len() && regex_is_match(
                "(?i)\\b"@ + regex_escape(#[trigger] ps[i].detect[m]) + "\\b"@,
                lowercase(cmd),
            ) && encode_utf8(ps[i].detect[m]).len() == l,
{
    let c = lowercase(cmd);
    lemma_best_match_ok(ps, c);
    if best_match(ps, c) is Some {
        let (i, l) = best_match(ps, c)->0;
        let ds = ps[i].detect;
        let dets = detectors_spec(ds);
        lemma_longest_match(dets, c);
        lemma_detectors_from(ds);
        let j = choose|j: int| 0 <= j < dets.len() && regex_is_match(#[trigger] dets[j].1, c) && dets[j].0 == l;
        let m = choose|m: int|
            0 <= m < ds.len() && #[trigger] dets[j] == (encode_utf8(ds[m]).len(), "(?i)\\b"@ + regex_escape(ds[m]) + "\\b"@);
        assert(regex_is_match("(?i)\\b"@ + regex_escape(ps[i].detect[m]) + "\\b"@, c));
    }
}

} // verus!
