//! Turning the container and package lists that the providers report (the
//! Docker API and DAppNode's services) into the containers the aggregator
//! shows.
use vstd::prelude::*;
use crate::aggregator::discovery::{before_first_dot, detect_program_spec, matches_glob, matches_glob_spec, ContainerInfo};
use crate::program::registry::{best_match, ProgramRegistry};
use crate::program::{Program, ProgramView};
use crate::text::{chars_of, decimal, lowercase, owned, replace, replace_all, slice_range, split_once, string_of, usize_string};
use vstd::string::StrSliceExecFns;

verus! {

/// A container of a package, as the package list reports it.
#[derive(Debug, Clone)]
pub struct PackageContainer {
    pub container_name: Option<String>,
    pub container_id: Option<String>,
    pub state: Option<String>,
    pub image: Option<String>,
}

/// A package as DAPPMANAGER's `packagesGet` reports it.
#[derive(Debug, Clone)]
pub struct ManagedPackage {
    /// The package's DNP name (e.g. `geth.dnp.dappnode.eth`).
    pub dnp_name: Option<String>,
    pub state: Option<String>,
    /// The package's containers, where it reports them.
    pub containers: Option<Vec<PackageContainer>>,
}

/// A package as the public `/public-packages` endpoint reports it.
#[derive(Debug, Clone)]
pub struct PublicPackage {
    pub name: Option<String>,
    pub version: Option<String>,
    pub state: Option<String>,
}

/// A package as DAPPMANAGER's `listPackages` reports it over WAMP.
#[derive(Debug, Clone)]
pub struct WampPackage {
    pub dnp_name: Option<String>,
    pub container_name: Option<String>,
    pub name: Option<String>,
    pub state: Option<String>,
    pub container_id: Option<String>,
    pub image: Option<String>,
    /// The package's containers, where it reports them.
    pub containers: Option<Vec<PackageContainer>>,
}

/// How a provider finds a container's program.
#[derive(Debug, Clone, Copy, PartialEq, Eq)]
pub enum Detection {
    /// As `ContainerInfo::new` does: name, image, then normalized name.
    Standard,
    /// As the WAMP provider does: name, image, then the name before its first
    /// dot with `-beacon`, `-validator`, `-bn` and `-vc` removed wherever
    /// they occur.
    PackageName,
}

/// The name before its first dot, with `-beacon`, `-validator`, `-bn` and
/// `-vc` removed wherever they occur, in that order.
pub open spec fn package_base_name(name: Seq<char>) -> Seq<char> {
    replace_all(
        replace_all(
            replace_all(replace_all(before_first_dot(name), "-beacon"@, ""@), "-validator"@, ""@),
            "-bn"@,
            ""@,
        ),
        "-vc"@,
        ""@,
    )
}

/// The program that a name, else an image, else the name's base name shows.
pub open spec fn package_program_spec(ps: Seq<ProgramView>, name: Seq<char>, image: Seq<char>) -> Option<Seq<char>> {
    match best_match(ps, lowercase(name)) {
        Some((i, _)) => Some(ps[i].info.id),
        None => match best_match(ps, lowercase(image)) {
            Some((i, _)) => Some(ps[i].info.id),
            None => match best_match(ps, lowercase(package_base_name(name))) {
                Some((i, _)) => Some(ps[i].info.id),
                None => None,
            },
        },
    }
}

/// Detect a package's program from its name, then its image, then its base
/// name.
pub fn detect_package_program(registry: &ProgramRegistry, name: &str, image: &str) -> (r: Option<String>)
    requires
        registry.wf(),
    ensures
        match package_program_spec(registry@, name@, image@) {
            Some(id) => r matches Some(s) && s@ == id,
            None => r is None,
        },
{
    if let Some(p) = registry.detect(name) {
        return Some(owned(p.program_info().id.as_str()));
    }
    if let Some(p) = registry.detect(image) {
        return Some(owned(p.program_info().id.as_str()));
    }
    let first = match split_once(name, '.') {
        Some((a, _)) => a,
        None => owned(name),
    };
    proof {
        reveal_strlit("-beacon");
        reveal_strlit("-validator");
        reveal_strlit("-bn");
        reveal_strlit("-vc");
    }
    let a = replace(first.as_str(), "-beacon", "");
    let b = replace(a.as_str(), "-validator", "");
    let c = replace(b.as_str(), "-bn", "");
    let base = replace(c.as_str(), "-vc", "");
    match registry.detect(base.as_str()) {
        Some(p) => Some(owned(p.program_info().id.as_str())),
        None => None,
    }
}

/// A container's fields: id, name, image, status and program.
pub type ContainerView = (Seq<char>, Seq<char>, Seq<char>, Seq<char>, Option<Seq<char>>);

/// The fields of a container.
pub open spec fn container_view(c: ContainerInfo) -> ContainerView {
    (
        c.id@,
        c.name@,
        c.image@,
        c.status@,
        match c.program {
            Some(p) => Some(p@),
            None => None,
        },
    )
}

/// The container made of these fields, its program found as `how` says.
pub open spec fn detected(
    ps: Seq<ProgramView>,
    how: Detection,
    id: Seq<char>,
    name: Seq<char>,
    image: Seq<char>,
    status: Seq<char>,
) -> ContainerView {
    (
        id,
        name,
        image,
        status,
        match how {
            Detection::Standard => detect_program_spec(ps, name, image),
            Detection::PackageName => package_program_spec(ps, name, image),
        },
    )
}

/// An optional text, or a default.
pub open spec fn text_or(o: Option<String>, default: Seq<char>) -> Seq<char> {
    match o {
        Some(s) => s@,
        None => default,
    }
}

/// An optional text, or a default.
fn text_or_exec(o: &Option<String>, default: &str) -> (r: String)
    ensures
        r@ == text_or(*o, default@),
{
    match o {
        Some(s) => owned(s.as_str()),
        None => owned(default),
    }
}

/// The containers shown for a package's containers: each one whose name (or
/// the empty name) matches the pattern, its id defaulting to its name, its
/// image to empty and its status to `unknown`.
pub open spec fn container_entries(
    ps: Seq<ProgramView>,
    how: Detection,
    cs: Seq<PackageContainer>,
    pattern: Seq<char>,
) -> Seq<ContainerView>
    decreases cs.len(),
{
    if cs.len() == 0 {
        Seq::empty()
    } else {
        let c = cs.last();
        let name = text_or(c.container_name, Seq::empty());
        container_entries(ps, how, cs.drop_last(), pattern) + if matches_glob_spec(name, pattern) {
            seq![
                detected(
                    ps,
                    how,
                    text_or(c.container_id, name),
                    name,
                    text_or(c.image, Seq::empty()),
                    text_or(c.state, "unknown"@),
                ),
            ]
        } else {
            Seq::empty()
        }
    }
}

/// The containers shown for a package: those of its containers, or, where it
/// reports none, the package itself under its DNP name, without an image.
pub open spec fn package_entries(ps: Seq<ProgramView>, p: ManagedPackage, pattern: Seq<char>) -> Seq<ContainerView> {
    match p.containers {
        Some(cs) => container_entries(ps, Detection::Standard, cs@, pattern),
        None => {
            let name = text_or(p.dnp_name, Seq::empty());
            if matches_glob_spec(name, pattern) {
                seq![detected(ps, Detection::Standard, name, name, Seq::empty(), text_or(p.state, "unknown"@))]
            } else {
                Seq::empty()
            }
        },
    }
}

/// The containers shown for a list of packages, in order.
pub open spec fn managed_entries(ps: Seq<ProgramView>, pkgs: Seq<ManagedPackage>, pattern: Seq<char>) -> Seq<
    ContainerView,
>
    decreases pkgs.len(),
{
    if pkgs.len() == 0 {
        Seq::empty()
    } else {
        managed_entries(ps, pkgs.drop_last(), pattern) + package_entries(ps, pkgs.last(), pattern)
    }
}

/// The containers shown for a package listed over WAMP: those of its
/// containers, or, where it reports none, the package itself under its
/// container name, else its DNP name, else its name; its id defaults to that
/// name.
pub open spec fn wamp_package_entries(ps: Seq<ProgramView>, p: WampPackage, pattern: Seq<char>) -> Seq<ContainerView> {
    match p.containers {
        Some(cs) => container_entries(ps, Detection::PackageName, cs@, pattern),
        None => {
            let name = match p.container_name {
                Some(n) => n@,
                None => match p.dnp_name {
                    Some(n) => n@,
                    None => text_or(p.name, Seq::empty()),
                },
            };
            if matches_glob_spec(name, pattern) {
                seq![
                    detected(
                        ps,
                        Detection::PackageName,
                        text_or(p.container_id, name),
                        name,
                        text_or(p.image, Seq::empty()),
                        text_or(p.state, "unknown"@),
                    ),
                ]
            } else {
                Seq::empty()
            }
        },
    }
}

/// The containers shown for a package list read over WAMP, in order.
pub open spec fn wamp_entries(ps: Seq<ProgramView>, pkgs: Seq<WampPackage>, pattern: Seq<char>) -> Seq<ContainerView>
    decreases pkgs.len(),
{
    if pkgs.len() == 0 {
        Seq::empty()
    } else {
        wamp_entries(ps, pkgs.drop_last(), pattern) + wamp_package_entries(ps, pkgs.last(), pattern)
    }
}

/// The containers shown for the public package list: each package with a
/// non-empty name that matches the pattern, named and identified by that
/// name, its version as the image, its status defaulting to `unknown`.
pub open spec fn public_entries(ps: Seq<ProgramView>, pkgs: Seq<PublicPackage>, pattern: Seq<char>) -> Seq<
    ContainerView,
>
    decreases pkgs.len(),
{
    if pkgs.len() == 0 {
        Seq::empty()
    } else {
        let p = pkgs.last();
        public_entries(ps, pkgs.drop_last(), pattern) + match p.name {
            Some(n) => if n@.len() > 0 && matches_glob_spec(n@, pattern) {
                seq![detected(ps, Detection::Standard, n@, n@, text_or(p.version, Seq::empty()), text_or(p.state, "unknown"@))]
            } else {
                Seq::empty()
            },
            None => Seq::empty(),
        }
    }
}

/// Appends one container.
fn push_container(
    out: &mut Vec<ContainerInfo>,
    registry: &ProgramRegistry,
    how: Detection,
    id: &str,
    name: &str,
    image: &str,
    status: &str,
)
    requires
        registry.wf(),
    ensures
        final(out)@.map_values(|c: ContainerInfo| container_view(c)) == old(out)@.map_values(
            |c: ContainerInfo| container_view(c),
        ).push(detected(registry@, how, id@, name@, image@, status@)),
{
    let ghost before = out@;
    let c = match how {
        Detection::Standard => ContainerInfo::new(registry, id, name, image, status),
        Detection::PackageName => ContainerInfo {
            program: detect_package_program(registry, name, image),
            id: owned(id),
            name: owned(name),
            image: owned(image),
            status: owned(status),
        },
    };
    out.push(c);
    assert(out@.map_values(|c: ContainerInfo| container_view(c)) =~= before.map_values(
        |c: ContainerInfo| container_view(c),
    ).push(detected(registry@, how, id@, name@, image@, status@)));
}

/// Appends the containers shown for a package's containers.
fn push_package_containers(
    out: &mut Vec<ContainerInfo>,
    registry: &ProgramRegistry,
    how: Detection,
    cs: &Vec<PackageContainer>,
    pattern: &str,
)
    requires
        registry.wf(),
    ensures
        final(out)@.map_values(|c: ContainerInfo| container_view(c)) == old(out)@.map_values(
            |c: ContainerInfo| container_view(c),
        ) + container_entries(registry@, how, cs@, pattern@),
{
    let ghost start = out@.map_values(|c: ContainerInfo| container_view(c));
    let mut j: usize = 0;
    while j < cs.len()
        invariant
            j <= cs@.len(),
            registry.wf(),
            out@.map_values(|c: ContainerInfo| container_view(c)) == start + container_entries(
                registry@,
                how,
                cs@.take(j as int),
                pattern@,
            ),
        decreases cs@.len() - j,
    {
        let c = &cs[j];
        let ghost t = cs@.take(j + 1);
        assert(t.drop_last() =~= cs@.take(j as int));
        assert(t.last() == *c);
        proof {
            reveal_strlit("");
            assert(""@ =~= Seq::<char>::empty());
        }
        let name = text_or_exec(&c.container_name, "");
        if matches_glob(name.as_str(), pattern) {
            let id = text_or_exec(&c.container_id, name.as_str());
            let image = text_or_exec(&c.image, "");
            let status = text_or_exec(&c.state, "unknown");
            push_container(out, registry, how, id.as_str(), name.as_str(), image.as_str(), status.as_str());
        }
        assert(out@.map_values(|c: ContainerInfo| container_view(c)) =~= start + container_entries(
            registry@,
            how,
            t,
            pattern@,
        ));
        j += 1;
    }
    assert(cs@.take(cs@.len() as int) =~= cs@);
}

/// The containers of DAPPMANAGER's package list whose names match the
/// pattern (the empty pattern matches all), with their programs detected.
pub fn containers_from_managed_packages(
    registry: &ProgramRegistry,
    packages: &Vec<ManagedPackage>,
    pattern: &str,
) -> (r: Vec<ContainerInfo>)
    requires
        registry.wf(),
    ensures
        r@.map_values(|c: ContainerInfo| container_view(c)) == managed_entries(registry@, packages@, pattern@),
{
    let mut out: Vec<ContainerInfo> = Vec::new();
    let mut i: usize = 0;
    assert(out@.map_values(|c: ContainerInfo| container_view(c)) =~= managed_entries(
        registry@,
        packages@.take(0),
        pattern@,
    ));
    while i < packages.len()
        invariant
            i <= packages@.len(),
            registry.wf(),
            out@.map_values(|c: ContainerInfo| container_view(c)) == managed_entries(
                registry@,
                packages@.take(i as int),
                pattern@,
            ),
        decreases packages@.len() - i,
    {
        let p = &packages[i];
        let ghost t = packages@.take(i + 1);
        assert(t.drop_last() =~= packages@.take(i as int));
        assert(t.last() == *p);
        let ghost before = out@.map_values(|c: ContainerInfo| container_view(c));
        match &p.containers {
            Some(cs) => push_package_containers(&mut out, registry, Detection::Standard, cs, pattern),
            None => {
                proof {
                    reveal_strlit("");
            assert(""@ =~= Seq::<char>::empty());
                }
                let name = text_or_exec(&p.dnp_name, "");
                if matches_glob(name.as_str(), pattern) {
                    let status = text_or_exec(&p.state, "unknown");
                    push_container(&mut out, registry, Detection::Standard, name.as_str(), name.as_str(), "", status.as_str());
                }
                assert(out@.map_values(|c: ContainerInfo| container_view(c)) =~= before + package_entries(
                    registry@,
                    *p,
                    pattern@,
                ));
            },
        }
        i += 1;
    }
    assert(packages@.take(packages@.len() as int) =~= packages@);
    out
}

/// The containers of a package list read over WAMP whose names match the
/// pattern (the empty pattern matches all), with their programs detected
/// from their package names.
pub fn containers_from_wamp_packages(
    registry: &ProgramRegistry,
    packages: &Vec<WampPackage>,
    pattern: &str,
) -> (r: Vec<ContainerInfo>)
    requires
        registry.wf(),
    ensures
        r@.map_values(|c: ContainerInfo| container_view(c)) == wamp_entries(registry@, packages@, pattern@),
{
    let mut out: Vec<ContainerInfo> = Vec::new();
    let mut i: usize = 0;
    assert(out@.map_values(|c: ContainerInfo| container_view(c)) =~= wamp_entries(
        registry@,
        packages@.take(0),
        pattern@,
    ));
    while i < packages.len()
        invariant
            i <= packages@.len(),
            registry.wf(),
            out@.map_values(|c: ContainerInfo| container_view(c)) == wamp_entries(
                registry@,
                packages@.take(i as int),
                pattern@,
            ),
        decreases packages@.len() - i,
    {
        let p = &packages[i];
        let ghost t = packages@.take(i + 1);
        assert(t.drop_last() =~= packages@.take(i as int));
        assert(t.last() == *p);
        let ghost before = out@.map_values(|c: ContainerInfo| container_view(c));
        match &p.containers {
            Some(cs) => push_package_containers(&mut out, registry, Detection::PackageName, cs, pattern),
            None => {
                proof {
                    reveal_strlit("");
                    assert(""@ =~= Seq::<char>::empty());
                }
                let name = match &p.container_name {
                    Some(n) => owned(n.as_str()),
                    None => match &p.dnp_name {
                        Some(n) => owned(n.as_str()),
                        None => text_or_exec(&p.name, ""),
                    },
                };
                if matches_glob(name.as_str(), pattern) {
                    let id = text_or_exec(&p.container_id, name.as_str());
                    let image = text_or_exec(&p.image, "");
                    let status = text_or_exec(&p.state, "unknown");
                    push_container(
                        &mut out,
                        registry,
                        Detection::PackageName,
                        id.as_str(),
                        name.as_str(),
                        image.as_str(),
                        status.as_str(),
                    );
                }
                assert(out@.map_values(|c: ContainerInfo| container_view(c)) =~= before + wamp_package_entries(
                    registry@,
                    *p,
                    pattern@,
                ));
            },
        }
        i += 1;
    }
    assert(packages@.take(packages@.len() as int) =~= packages@);
    out
}

/// The containers of the public package list whose names are not empty and
/// match the pattern (the empty pattern matches all), with their programs
/// detected.
pub fn containers_from_public_packages(
    registry: &ProgramRegistry,
    packages: &Vec<PublicPackage>,
    pattern: &str,
) -> (r: Vec<ContainerInfo>)
    requires
        registry.wf(),
    ensures
        r@.map_values(|c: ContainerInfo| container_view(c)) == public_entries(registry@, packages@, pattern@),
{
    let mut out: Vec<ContainerInfo> = Vec::new();
    let mut i: usize = 0;
    assert(out@.map_values(|c: ContainerInfo| container_view(c)) =~= public_entries(
        registry@,
        packages@.take(0),
        pattern@,
    ));
    while i < packages.len()
        invariant
            i <= packages@.len(),
            registry.wf(),
            out@.map_values(|c: ContainerInfo| container_view(c)) == public_entries(
                registry@,
                packages@.take(i as int),
                pattern@,
            ),
        decreases packages@.len() - i,
    {
        let p = &packages[i];
        let ghost t = packages@.take(i + 1);
        assert(t.drop_last() =~= packages@.take(i as int));
        assert(t.last() == *p);
        let ghost before = out@.map_values(|c: ContainerInfo| container_view(c));
        proof {
            reveal_strlit("");
            assert(""@ =~= Seq::<char>::empty());
        }
        if let Some(n) = &p.name {
            if n.as_str().unicode_len() > 0 && matches_glob(n.as_str(), pattern) {
                let image = text_or_exec(&p.version, "");
                let status = text_or_exec(&p.state, "unknown");
                push_container(
                    &mut out,
                    registry,
                    Detection::Standard,
                    n.as_str(),
                    n.as_str(),
                    image.as_str(),
                    status.as_str(),
                );
            }
        }
        assert(out@.map_values(|c: ContainerInfo| container_view(c)) =~= public_entries(registry@, t, pattern@));
        i += 1;
    }
    assert(packages@.take(packages@.len() as int) =~= packages@);
    out
}

/// A container as the Docker API lists it.
#[derive(Debug, Clone)]
pub struct DockerSummary {
    pub id: Option<String>,
    pub names: Option<Vec<String>>,
    pub image: Option<String>,
    pub status: Option<String>,
}

/// A name without the slashes it starts with.
pub open spec fn without_leading_slashes(s: Seq<char>) -> Seq<char>
    decreases s.len(),
{
    if s.len() > 0 && s[0] == '/' {
        without_leading_slashes(s.skip(1))
    } else {
        s
    }
}

/// The short form of a container id: its first 12 characters.
pub open spec fn short_id(id: Seq<char>) -> Seq<char> {
    if id.len() <= 12 {
        id
    } else {
        id.take(12)
    }
}

/// The containers shown for Docker's list: each one with an id and a first
/// name, named by that name without leading slashes, where that matches the
/// pattern; its id shortened, its image and status defaulting to empty.
pub open spec fn docker_entries(ps: Seq<ProgramView>, cs: Seq<DockerSummary>, pattern: Seq<char>) -> Seq<ContainerView>
    decreases cs.len(),
{
    if cs.len() == 0 {
        Seq::empty()
    } else {
        let c = cs.last();
        docker_entries(ps, cs.drop_last(), pattern) + match (c.id, c.names) {
            (Some(id), Some(names)) => if names@.len() > 0 && matches_glob_spec(
                without_leading_slashes(names@[0]@),
                pattern,
            ) {
                seq![
                    detected(
                        ps,
                        Detection::Standard,
                        short_id(id@),
                        without_leading_slashes(names@[0]@),
                        text_or(c.image, Seq::empty()),
                        text_or(c.status, Seq::empty()),
                    ),
                ]
            } else {
                Seq::empty()
            },
            _ => Seq::empty(),
        }
    }
}

/// A name without the slashes it starts with.
fn strip_leading_slashes(s: &str) -> (r: String)
    ensures
        r@ == without_leading_slashes(s@),
{
    let cs = chars_of(s);
    let mut i: usize = 0;
    assert(cs@.skip(0) =~= cs@);
    while i < cs.len() && cs[i] == '/'
        invariant
            i <= cs@.len(),
            cs@ == s@,
            without_leading_slashes(s@) == without_leading_slashes(cs@.skip(i as int)),
        decreases cs@.len() - i,
    {
        assert(cs@.skip(i as int).skip(1) =~= cs@.skip(i + 1));
        i += 1;
    }
    let r = string_of(slice_range(cs.as_slice(), i, cs.len()));
    assert(r@ =~= cs@.skip(i as int));
    r
}

/// The first 12 characters of an id.
fn shorten_id(id: &str) -> (r: String)
    ensures
        r@ == short_id(id@),
{
    let cs = chars_of(id);
    if cs.len() <= 12 {
        owned(id)
    } else {
        let r = string_of(slice_range(cs.as_slice(), 0, 12));
        assert(r@ =~= id@.take(12));
        r
    }
}

/// The running containers of Docker's list whose names match the pattern
/// (the empty pattern matches all), with short ids and their programs
/// detected.
pub fn containers_from_docker(registry: &ProgramRegistry, summaries: &Vec<DockerSummary>, pattern: &str) -> (r: Vec<
    ContainerInfo,
>)
    requires
        registry.wf(),
    ensures
        r@.map_values(|c: ContainerInfo| container_view(c)) == docker_entries(registry@, summaries@, pattern@),
{
    let mut out: Vec<ContainerInfo> = Vec::new();
    let mut i: usize = 0;
    assert(out@.map_values(|c: ContainerInfo| container_view(c)) =~= docker_entries(
        registry@,
        summaries@.take(0),
        pattern@,
    ));
    while i < summaries.len()
        invariant
            i <= summaries@.len(),
            registry.wf(),
            out@.map_values(|c: ContainerInfo| container_view(c)) == docker_entries(
                registry@,
                summaries@.take(i as int),
                pattern@,
            ),
        decreases summaries@.len() - i,
    {
        let c = &summaries[i];
        let ghost t = summaries@.take(i + 1);
        assert(t.drop_last() =~= summaries@.take(i as int));
        assert(t.last() == *c);
        proof {
            reveal_strlit("");
            assert(""@ =~= Seq::<char>::empty());
        }
        if let (Some(id), Some(names)) = (&c.id, &c.names) {
            if names.len() > 0 {
                let name = strip_leading_slashes(names[0].as_str());
                if matches_glob(name.as_str(), pattern) {
                    let short = shorten_id(id.as_str());
                    let image = text_or_exec(&c.image, "");
                    let status = text_or_exec(&c.status, "");
                    push_container(
                        &mut out,
                        registry,
                        Detection::Standard,
                        short.as_str(),
                        name.as_str(),
                        image.as_str(),
                        status.as_str(),
                    );
                }
            }
        }
        assert(out@.map_values(|c: ContainerInfo| container_view(c)) =~= docker_entries(registry@, t, pattern@));
        i += 1;
    }
    assert(summaries@.take(summaries@.len() as int) =~= summaries@);
    out
}

/// The `tail` option of a Docker log request: the number of lines, or `all`
/// where none (0) was requested.
pub fn docker_tail(tail: usize) -> (r: String)
    ensures
        r@ == if tail > 0 {
            decimal(tail as nat)
        } else {
            "all"@
        },
{
    if tail > 0 {
        usize_string(tail)
    } else {
        owned("all")
    }
}

} // verus!
