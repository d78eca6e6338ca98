//! Detection of commands that need a pseudo-terminal.
use vstd::prelude::*;
use crate::text::{contains, owned, plain_name, seq_contains, seq_starts_with, starts_with, str_eq};

verus! {

/// The final component of a path, as `std::path::Path::file_name` computes it
/// (`None` for an empty path, a root, or a path ending in `..`).
pub uninterp spec fn path_file_name(path: Seq<char>) -> Option<Seq<char>>;

/// Calls `Path::file_name` on `cmd` and converts the component back to a
/// string.  The result is named by `path_file_name`, a function of `cmd` alone;
/// a plain name (one normal component) is its own file name.
#[verifier::external_body]
fn file_name(cmd: &str) -> (r: Option<String>)
    ensures
        match r {
            Some(n) => path_file_name(cmd@) == Some(n@) && (plain_name(cmd@) ==> n@ == cmd@),
            None => path_file_name(cmd@) is None && !plain_name(cmd@),
        },
{
    std::path::Path::new(cmd).file_name().and_then(|n| n.to_str()).map(|n| n.to_string())
}

/// The base command name of a path: a plain name is its own base; otherwise
/// its final component, or the path itself where it has none.
pub open spec fn base_of(cmd: Seq<char>) -> Seq<char> {
    if plain_name(cmd) {
        cmd
    } else {
        match path_file_name(cmd) {
            Some(n) => n,
            None => cmd,
        }
    }
}

/// The character views of a sequence of strings.
pub open spec fn views(args: Seq<String>) -> Seq<Seq<char>> {
    args.map_values(|s: String| s@)
}

/// The character views of a sequence of string slices.
pub open spec fn str_views(list: Seq<&str>) -> Seq<Seq<char>> {
    list.map_values(|s: &str| s@)
}

/// Commands that need a PTY (editors, pagers, TUI apps, shells, database CLIs).
pub open spec fn interactive_commands() -> Seq<Seq<char>> {
    seq![
        "vim"@, "vi"@, "nvim"@, "nano"@, "emacs"@, "pico"@, "ed"@,
        "less"@, "more"@, "most"@,
        "top"@, "htop"@, "btop"@, "ncdu"@, "mc"@, "tig"@,
        "bash"@, "zsh"@, "fish"@, "sh"@,
        "tmux"@, "screen"@, "k9s"@, "lazygit"@, "lazydocker"@,
        "visudo"@, "vipw"@, "vigr"@, "edquota"@,
        "psql"@, "mysql"@, "sqlite3"@, "redis-cli"@, "mongosh"@,
    ]
}

/// Commands that are interactive only without script arguments (REPLs).
pub open spec fn repl_commands() -> Seq<Seq<char>> {
    seq![
        "python"@, "python3"@, "python2"@, "node"@, "nodejs"@, "irb"@, "pry"@,
        "ghci"@, "erl"@, "iex"@, "lua"@, "R"@,
    ]
}

/// Commands that run another command (whose arguments are then checked).
pub open spec fn passthrough_commands() -> Seq<Seq<char>> {
    seq!["sudo"@, "doas"@, "su"@, "env"@, "nice"@, "nohup"@, "time"@, "timeout"@, "strace"@]
}

/// Git subcommands that spawn an editor.
pub open spec fn git_interactive_subcommands() -> Seq<Seq<char>> {
    seq!["commit"@, "merge"@, "rebase"@, "tag"@, "notes"@, "filter-branch"@]
}

/// Git flags that trigger interactive mode.
pub open spec fn git_interactive_flags() -> Seq<Seq<char>> {
    seq!["-p"@, "--patch"@, "-i"@, "--interactive"@, "-e"@, "--edit"@]
}

/// Kubectl subcommands that spawn an editor or a shell.
pub open spec fn kubectl_interactive_subcommands() -> Seq<Seq<char>> {
    seq!["edit"@, "exec"@]
}

/// Some argument begins with one of the flags.
pub open spec fn has_flag_spec(args: Seq<Seq<char>>, flags: Seq<Seq<char>>) -> bool {
    exists|i: int, j: int|
        0 <= i < args.len() && 0 <= j < flags.len() && seq_starts_with(#[trigger] args[i], #[trigger] flags[j])
}

/// Some argument is one of the words.
pub open spec fn has_word_spec(args: Seq<Seq<char>>, words: Seq<Seq<char>>) -> bool {
    exists|i: int| 0 <= i < args.len() && words.contains(#[trigger] args[i])
}

/// Whether a command is known to be interactive.
pub open spec fn is_interactive_spec(cmd: Seq<char>) -> bool {
    interactive_commands().contains(base_of(cmd))
}

/// The program-specific rules that follow the direct check in `needs_pty`.
pub open spec fn specific_spec(base: Seq<char>, args: Seq<Seq<char>>) -> bool {
    if base == "git"@ && args.len() > 1 {
        let rest = args.skip(1);
        has_word_spec(rest, git_interactive_subcommands()) || has_flag_spec(rest, git_interactive_flags())
    } else if base == "kubectl"@ && args.len() > 1 {
        let rest = args.skip(1);
        has_word_spec(rest, kubectl_interactive_subcommands()) || has_flag_spec(rest, seq!["-it"@, "-ti"@])
    } else if (base == "docker"@ || base == "podman"@) && args.len() > 1 {
        let rest = args.skip(1);
        has_word_spec(rest, seq!["run"@, "exec"@]) && has_flag_spec(rest, seq!["-it"@, "-ti"@, "--interactive"@])
    } else if base == "crontab"@ {
        has_flag_spec(args, seq!["-e"@])
    } else if base == "ssh"@ {
        !(exists|i: int| 1 <= i < args.len() && (seq_contains(#[trigger] args[i], " "@) || seq_contains(args[i], "/"@)))
    } else {
        repl_commands().contains(base) && forall|i: int| 1 <= i < args.len() ==> seq_starts_with(#[trigger] args[i], "-"@)
    }
}

/// Whether a command line needs a PTY.
pub open spec fn needs_pty_spec(args: Seq<Seq<char>>) -> bool
    decreases args.len(), args.len() + 1,
{
    if args.len() == 0 {
        false
    } else {
        let base = base_of(args[0]);
        (passthrough_commands().contains(base) && passthrough_scan(args, 1))
            || is_interactive_spec(args[0])
            || specific_spec(base, args)
    }
}

/// The scan of the arguments of a pass-through command (`sudo`, `env`, ...),
/// from position `i` on: it looks past flags for an inner command that needs a
/// PTY, and stops at the first argument that is a path or an interactive command.
pub open spec fn passthrough_scan(args: Seq<Seq<char>>, i: int) -> bool
    decreases args.len(), args.len() - i,
{
    if i < 1 || i >= args.len() {
        false
    } else if seq_starts_with(args[i], "-"@) {
        passthrough_scan(args, i + 1)
    } else if needs_pty_spec(args.skip(i)) {
        true
    } else if seq_contains(args[i], "/"@) || is_interactive_spec(args[i]) {
        false
    } else {
        passthrough_scan(args, i + 1)
    }
}

/// Whether `list` holds a string equal to `x`.
pub fn list_has(list: &[&str], x: &str) -> (r: bool)
    ensures
        r == str_views(list@).contains(x@),
{
    let mut i: usize = 0;
    while i < list.len()
        invariant
            i <= list@.len(),
            forall|k: int| 0 <= k < i ==> list@[k]@ != x@,
        decreases list@.len() - i,
    {
        if str_eq(list[i], x) {
            assert(str_views(list@)[i as int] == x@);
            return true;
        }
        i += 1;
    }
    proof {
        if str_views(list@).contains(x@) {
            let k = choose|k: int| 0 <= k < str_views(list@).len() && str_views(list@)[k] == x@;
            assert(list@[k]@ == x@);
        }
    }
    false
}

fn interactive_list() -> (r: Vec<&'static str>)
    ensures
        str_views(r@) == interactive_commands(),
{
    let r = vec![
        "vim", "vi", "nvim", "nano", "emacs", "pico", "ed",
        "less", "more", "most",
        "top", "htop", "btop", "ncdu", "mc", "tig",
        "bash", "zsh", "fish", "sh",
        "tmux", "screen", "k9s", "lazygit", "lazydocker",
        "visudo", "vipw", "vigr", "edquota",
        "psql", "mysql", "sqlite3", "redis-cli", "mongosh",
    ];
    assert(str_views(r@) =~= interactive_commands());
    r
}

fn repl_list() -> (r: Vec<&'static str>)
    ensures
        str_views(r@) == repl_commands(),
{
    let r = vec!["python", "python3", "python2", "node", "nodejs", "irb", "pry", "ghci", "erl", "iex", "lua", "R"];
    assert(str_views(r@) =~= repl_commands());
    r
}

fn passthrough_list() -> (r: Vec<&'static str>)
    ensures
        str_views(r@) == passthrough_commands(),
{
    let r = vec!["sudo", "doas", "su", "env", "nice", "nohup", "time", "timeout", "strace"];
    assert(str_views(r@) =~= passthrough_commands());
    r
}

/// Extracts the base command name from a path.
pub fn base_command(cmd: &str) -> (r: String)
    ensures
        r@ == base_of(cmd@),
{
    match file_name(cmd) {
        Some(n) => n,
        None => owned(cmd),
    }
}

/// Checks if a command is known to be interactive (requires PTY).
pub fn is_interactive_command(cmd: &str) -> (r: bool)
    ensures
        r == is_interactive_spec(cmd@),
{
    let base = base_command(cmd);
    let list = interactive_list();
    list_has(list.as_slice(), base.as_str())
}

/// Whether some argument starts with one of the flags.
pub fn has_flag(args: &[String], flags: &[&str]) -> (r: bool)
    ensures
        r == has_flag_spec(views(args@), str_views(flags@)),
{
    let mut i: usize = 0;
    while i < args.len()
        invariant
            i <= args@.len(),
            forall|a: int, b: int| 0 <= a < i && 0 <= b < flags@.len() ==> !seq_starts_with(#[trigger] views(args@)[a], #[trigger] str_views(flags@)[b]),
        decreases args@.len() - i,
    {
        let mut j: usize = 0;
        while j < flags.len()
            invariant
                i < args@.len(),
                j <= flags@.len(),
                forall|a: int, b: int| 0 <= a < i && 0 <= b < flags@.len() ==> !seq_starts_with(#[trigger] views(args@)[a], #[trigger] str_views(flags@)[b]),
                forall|b: int| 0 <= b < j ==> !seq_starts_with(views(args@)[i as int], #[trigger] str_views(flags@)[b]),
            decreases flags@.len() - j,
        {
            if starts_with(args[i].as_str(), flags[j]) {
                assert(seq_starts_with(views(args@)[i as int], str_views(flags@)[j as int]));
                return true;
            }
            j += 1;
        }
        i += 1;
    }
    false
}

/// Whether some argument is one of the words.
pub fn has_word(args: &[String], words: &[&str]) -> (r: bool)
    ensures
        r == has_word_spec(views(args@), str_views(words@)),
{
    let mut i: usize = 0;
    while i < args.len()
        invariant
            i <= args@.len(),
            forall|a: int| 0 <= a < i ==> !str_views(words@).contains(#[trigger] views(args@)[a]),
        decreases args@.len() - i,
    {
        if list_has(words, args[i].as_str()) {
            assert(str_views(words@).contains(views(args@)[i as int]));
            return true;
        }
        i += 1;
    }
    false
}


/// The arguments from position `from` on.
fn args_from(args: &[String], from: usize) -> (r: &[String])
    requires
        from <= args@.len(),
    ensures
        r@ == args@.skip(from as int),
        views(r@) == views(args@).skip(from as int),
{
    let r = vstd::slice::slice_subrange(args, from, args.len());
    assert(r@ =~= args@.skip(from as int));
    assert(views(r@) =~= views(args@).skip(from as int));
    r
}

/// Whether the REPL rule holds: all arguments after the command are flags.
fn only_flags_after_first(args: &[String]) -> (r: bool)
    ensures
        r == forall|i: int| 1 <= i < args@.len() ==> seq_starts_with(#[trigger] views(args@)[i], "-"@),
{
    let mut i: usize = 1;
    while i < args.len()
        invariant
            1 <= i,
            forall|k: int| 1 <= k < i && k < args@.len() ==> seq_starts_with(#[trigger] views(args@)[k], "-"@),
        decreases args@.len() - i,
    {
        if !starts_with(args[i].as_str(), "-") {
            assert(!seq_starts_with(views(args@)[i as int], "-"@));
            return false;
        }
        i += 1;
    }
    true
}

/// Whether some argument after the command contains a space or a slash.
fn has_remote_command(args: &[String]) -> (r: bool)
    ensures
        r == exists|i: int| 1 <= i < args@.len() && (seq_contains(#[trigger] views(args@)[i], " "@) || seq_contains(views(args@)[i], "/"@)),
{
    let mut i: usize = 1;
    while i < args.len()
        invariant
            1 <= i,
            forall|k: int| 1 <= k < i && k < args@.len() ==> !(seq_contains(#[trigger] views(args@)[k], " "@) || seq_contains(views(args@)[k], "/"@)),
        decreases args@.len() - i,
    {
        if contains(args[i].as_str(), " ") || contains(args[i].as_str(), "/") {
            assert(seq_contains(views(args@)[i as int], " "@) || seq_contains(views(args@)[i as int], "/"@));
            return true;
        }
        i += 1;
    }
    false
}

/// Check git-specific interactive patterns: a subcommand that opens an
/// editor, or an interactive flag.
fn is_git_interactive(args: &[String]) -> (r: bool)
    ensures
        r == (has_word_spec(views(args@), git_interactive_subcommands()) || has_flag_spec(
            views(args@),
            git_interactive_flags(),
        )),
{
    let words = vec!["commit", "merge", "rebase", "tag", "notes", "filter-branch"];
    let flags = vec!["-p", "--patch", "-i", "--interactive", "-e", "--edit"];
    assert(str_views(words@) =~= git_interactive_subcommands());
    assert(str_views(flags@) =~= git_interactive_flags());
    has_word(args, words.as_slice()) || has_flag(args, flags.as_slice())
}

/// Check kubectl-specific interactive patterns.
fn is_kubectl_interactive(args: &[String]) -> (r: bool)
    ensures
        r == (has_word_spec(views(args@), kubectl_interactive_subcommands()) || has_flag_spec(
            views(args@),
            seq!["-it"@, "-ti"@],
        )),
{
    let words = vec!["edit", "exec"];
    let flags = vec!["-it", "-ti"];
    assert(str_views(words@) =~= kubectl_interactive_subcommands());
    assert(str_views(flags@) =~= seq!["-it"@, "-ti"@]);
    has_word(args, words.as_slice()) || has_flag(args, flags.as_slice())
}

/// Check docker-specific interactive patterns: `run` or `exec` with `-it`.
fn is_docker_interactive(args: &[String]) -> (r: bool)
    ensures
        r == (has_word_spec(views(args@), seq!["run"@, "exec"@]) && has_flag_spec(
            views(args@),
            seq!["-it"@, "-ti"@, "--interactive"@],
        )),
{
    let words = vec!["run", "exec"];
    let flags = vec!["-it", "-ti", "--interactive"];
    assert(str_views(words@) =~= seq!["run"@, "exec"@]);
    assert(str_views(flags@) =~= seq!["-it"@, "-ti"@, "--interactive"@]);
    let has_run_or_exec = has_word(args, words.as_slice());
    let has_interactive = has_flag(args, flags.as_slice());
    has_run_or_exec && has_interactive
}

/// Check if command is a REPL run without script arguments.
fn is_repl_interactive(base: &str, args: &[String]) -> (r: bool)
    ensures
        r == (repl_commands().contains(base@) && forall|i: int|
            1 <= i < args@.len() ==> seq_starts_with(#[trigger] views(args@)[i], "-"@)),
{
    let repls = repl_list();
    if !list_has(repls.as_slice(), base) {
        return false;
    }
    only_flags_after_first(args)
}

/// Check crontab -e pattern.
fn is_crontab_edit(base: &str, args: &[String]) -> (r: bool)
    ensures
        r == (base@ == "crontab"@ && has_flag_spec(views(args@), seq!["-e"@])),
{
    let flags = vec!["-e"];
    assert(str_views(flags@) =~= seq!["-e"@]);
    str_eq(base, "crontab") && has_flag(args, flags.as_slice())
}

/// Check ssh without remote command (interactive shell).
fn is_ssh_interactive(base: &str, args: &[String]) -> (r: bool)
    ensures
        r == (base@ == "ssh"@ && !(exists|i: int|
            1 <= i < args@.len() && (seq_contains(#[trigger] views(args@)[i], " "@) || seq_contains(
                views(args@)[i],
                "/"@,
            )))),
{
    if !str_eq(base, "ssh") {
        return false;
    }
    !has_remote_command(args)
}

/// The program-specific part of `needs_pty`.
fn specific(base: &str, args: &[String]) -> (r: bool)
    requires
        args@.len() > 0,
    ensures
        r == specific_spec(base@, views(args@)),
{
    if str_eq(base, "git") && args.len() > 1 {
        is_git_interactive(args_from(args, 1))
    } else if str_eq(base, "kubectl") && args.len() > 1 {
        is_kubectl_interactive(args_from(args, 1))
    } else if (str_eq(base, "docker") || str_eq(base, "podman")) && args.len() > 1 {
        is_docker_interactive(args_from(args, 1))
    } else if str_eq(base, "crontab") {
        is_crontab_edit(base, args)
    } else if str_eq(base, "ssh") {
        is_ssh_interactive(base, args)
    } else {
        is_repl_interactive(base, args)
    }
}

/// Checks if a command with arguments requires a PTY: interactive programs,
/// commands that spawn an editor (`git commit`, `crontab -e`, `kubectl edit`),
/// `docker`/`kubectl` with `-it`, REPLs without script arguments, and any of
/// these wrapped by `sudo`, `env` and the like.
pub fn needs_pty(args: &[String]) -> (r: bool)
    ensures
        r == needs_pty_spec(views(args@)),
    decreases args@.len(),
{
    let ghost v = views(args@);
    if args.len() == 0 {
        return false;
    }
    let base = base_command(args[0].as_str());
    assert(v[0] == args@[0]@);
    let pts = passthrough_list();
    if list_has(pts.as_slice(), base.as_str()) {
        let mut i: usize = 1;
        let mut stop = false;
        while i < args.len() && !stop
            invariant
                1 <= i <= args@.len(),
                v == views(args@),
                v.len() == args@.len(),
                passthrough_commands().contains(base_of(v[0])),
                !stop ==> passthrough_scan(v, 1) == passthrough_scan(v, i as int),
                stop ==> !passthrough_scan(v, 1),
            decreases args@.len() - i, if stop { 0int } else { 1int },
        {
            assert(v[i as int] == args@[i as int]@);
            if starts_with(args[i].as_str(), "-") {
                i += 1;
            } else {
                let rest = args_from(args, i);
                if needs_pty(rest) {
                    assert(passthrough_scan(v, i as int));
                    assert(passthrough_scan(v, 1));
                    assert(passthrough_commands().contains(base_of(v[0])));
                    return true;
                }
                if contains(args[i].as_str(), "/") || is_interactive_command(args[i].as_str()) {
                    stop = true;
                } else {
                    i += 1;
                }
            }
        }
    }
    if is_interactive_command(args[0].as_str()) {
        return true;
    }
    specific(base.as_str(), args)
}

} // verus!
