//! Settings of the web view of aggregated logs, and the log sessions that
//! its web sockets serve.
use vstd::prelude::*;
use crate::aggregator::discovery::ContainerInfo;
use crate::aggregator::html::{ansi_conversion, ansi_to_html, html_escape_spec};
use crate::aggregator::streamer::colorized_text;
use crate::alert::condition::AlertCondition;
use crate::alert::formatter::{json_quoted, json_string};
use crate::colorizer::{colorize_spec, rules_view, Colorizer, ColorizerView};
use crate::program::copy_rules;
use crate::program::registry::{lookup_index, ProgramRegistry};
use crate::rule::{Rule, RuleView};
use crate::text::{owned, push_str, str_eq, trim, trim_spec};
use crate::theme::{Theme, ThemeKind};
use vstd::string::StrSliceExecFns;

verus! {

/// Configuration of the log aggregator.
#[derive(Debug)]
pub struct AggregatorConfig {
    /// Color theme for log colorization.
    pub theme: Theme,
    /// Optional container name filter.
    pub filter: Option<String>,
    /// Maximum log lines to buffer.
    pub max_lines: usize,
    /// Optional webhook URL for alerts.
    pub alert_webhook: Option<String>,
    /// Alert conditions to evaluate.
    pub alert_conditions: Vec<AlertCondition>,
}

impl Default for AggregatorConfig {
    fn default() -> (r: AggregatorConfig)
        ensures
            r.theme.kind == ThemeKind::DefaultDark,
            r.theme.name@ == "default-dark"@,
            r.filter is None,
            r.max_lines == 10000,
            r.alert_webhook is None,
            r.alert_conditions@.len() == 0,
    {
        AggregatorConfig {
            theme: Theme::default_dark(),
            filter: None,
            max_lines: 10000,
            alert_webhook: None,
            alert_conditions: Vec::new(),
        }
    }
}

/// The message a log socket sends for an error.
pub open spec fn error_message(text: Seq<char>) -> Seq<char> {
    "{\"error\": \""@ + text + "\"}"@
}

/// The message for an error, as text.
fn error_message_exec(prefix: &str, text: &str) -> (r: String)
    ensures
        r@ == error_message(prefix@ + text@),
{
    let mut r = owned("{\"error\": \"");
    push_str(&mut r, prefix);
    push_str(&mut r, text);
    push_str(&mut r, "\"}");
    assert(r@ =~= error_message(prefix@ + text@));
    r
}

/// The first container whose id, or else whose name, is `key`.
pub open spec fn found_container(cs: Seq<ContainerInfo>, key: Seq<char>) -> Option<int>
    decreases cs.len(),
{
    if cs.len() == 0 {
        None
    } else {
        match found_container(cs.drop_last(), key) {
            Some(i) => Some(i),
            None => if cs.last().id@ == key || cs.last().name@ == key {
                Some(cs.len() - 1)
            } else {
                None
            },
        }
    }
}

/// Find a container by its id or its name: the first that has either.
pub fn find_container(containers: &Vec<ContainerInfo>, key: &str) -> (r: Option<usize>)
    ensures
        match found_container(containers@, key@) {
            Some(i) => 0 <= i < containers@.len() && r == Some(i as usize),
            None => r is None,
        },
{
    let mut i: usize = 0;
    while i < containers.len()
        invariant
            i <= containers@.len(),
            found_container(containers@.take(i as int), key@) is None,
        decreases containers@.len() - i,
    {
        let ghost t = containers@.take(i + 1);
        assert(t.drop_last() =~= containers@.take(i as int));
        assert(t.last() == containers@[i as int]);
        if str_eq(containers[i].id.as_str(), key) || str_eq(containers[i].name.as_str(), key) {
            proof {
                lemma_found_prefix(containers@, key@, i + 1);
            }
            return Some(i);
        }
        i += 1;
    }
    assert(containers@.take(containers@.len() as int) =~= containers@);
    None
}

/// A container found in a prefix is the one found in the whole list.
proof fn lemma_found_prefix(cs: Seq<ContainerInfo>, key: Seq<char>, n: int)
    requires
        0 <= n <= cs.len(),
        found_container(cs.take(n), key) is Some,
    ensures
        found_container(cs, key) == found_container(cs.take(n), key),
    decreases cs.len() - n,
{
    if n < cs.len() {
        let t = cs.take(n + 1);
        assert(t.drop_last() =~= cs.take(n));
        lemma_found_prefix(cs, key, n + 1);
    } else {
        assert(cs.take(n) =~= cs);
    }
}

/// The program a log session shows: the requested one, else the
/// container's, else `unknown`.
pub open spec fn session_program(requested: Option<String>, detected: Option<String>) -> Seq<char> {
    match requested {
        Some(p) => p@,
        None => match detected {
            Some(p) => p@,
            None => "unknown"@,
        },
    }
}

/// The theme a log session uses: the requested built-in theme, else the
/// default dark one.
pub open spec fn session_theme(requested: Option<String>) -> ThemeKind {
    match requested {
        Some(n) => if n@ == "dracula"@ {
            ThemeKind::Dracula
        } else if n@ == "nord"@ {
            ThemeKind::Nord
        } else {
            ThemeKind::DefaultDark
        },
        None => ThemeKind::DefaultDark,
    }
}

/// The rules of the registered program with this id or name, or none.
pub open spec fn program_rules(ps: Seq<crate::program::ProgramView>, id: Seq<char>) -> Seq<RuleView> {
    match lookup_index(ps, id) {
        Some(i) => ps[i].rules,
        None => Seq::empty(),
    }
}

/// The HTML of a colorized line: the converter's, or the line escaped where
/// it fails.
pub open spec fn html_of(colored: Seq<char>) -> Seq<char> {
    match ansi_conversion(colored) {
        Some(h) => h,
        None => html_escape_spec(colored),
    }
}

/// The message a log socket sends for a line, keys in order.
pub open spec fn line_message(id: Seq<char>, name: Seq<char>, program: Seq<char>, html: Seq<char>) -> Seq<char> {
    "{\"container_id\":"@ + json_quoted(id) + ",\"container_name\":"@ + json_quoted(name) + ",\"html\":"@
        + json_quoted(html) + ",\"program\":"@ + json_quoted(program) + "}"@
}

/// A web socket's stream of one container's logs, each line colorized with
/// its own colorizer.
#[derive(Debug)]
pub struct LogSession {
    container_id: String,
    container_name: String,
    program_id: String,
    colorizer: Colorizer,
}

impl LogSession {
    /// The container's id.
    pub closed spec fn id_spec(&self) -> Seq<char> {
        self.container_id@
    }

    /// The container's name.
    pub closed spec fn name_spec(&self) -> Seq<char> {
        self.container_name@
    }

    /// The program shown.
    pub closed spec fn program_spec(&self) -> Seq<char> {
        self.program_id@
    }

    /// The colorizer's state.
    pub closed spec fn colorizer_state(&self) -> ColorizerView {
        self.colorizer@
    }

    /// The colorizer keeps its invariant.
    pub closed spec fn wf(&self) -> bool {
        self.colorizer.wf()
    }

    /// Open a session for the container with this id or name, given the
    /// container list (or the provider's error text): the error message
    /// where the list failed or has no such container; else a session for
    /// the requested (else detected) program, with the requested built-in
    /// theme.
    pub fn open(
        registry: &ProgramRegistry,
        containers: Result<Vec<ContainerInfo>, String>,
        container_id: &str,
        program_override: Option<String>,
        theme_override: Option<String>,
    ) -> (r: Result<LogSession, String>)
        requires
            registry.wf(),
        ensures
            match containers {
                Err(e) => r matches Err(m) && m@ == error_message("Failed to list containers: "@ + e@),
                Ok(cs) => match found_container(cs@, container_id@) {
                    None => r matches Err(m) && m@ == error_message("Container not found: "@ + container_id@),
                    Some(i) => r matches Ok(s) && {
                        let program = session_program(program_override, cs@[i].program);
                        &&& s.wf()
                        &&& s.id_spec() == cs@[i].id@
                        &&& s.name_spec() == cs@[i].name@
                        &&& s.program_spec() == program
                        &&& s.colorizer_state() == (ColorizerView {
                            rules: program_rules(registry@, program),
                            kind: session_theme(theme_override),
                            in_block: false,
                            block_style: None,
                            color_enabled: true,
                        })
                    },
                },
            },
    {
        let cs = match containers {
            Ok(cs) => cs,
            Err(e) => {
                let m = error_message_exec("Failed to list containers: ", e.as_str());
                return Err(m);
            },
        };
        let found = find_container(&cs, container_id);
        let i = match found {
            Some(i) => i,
            None => return Err(error_message_exec("Container not found: ", container_id)),
        };
        let c = &cs[i];
        let program_id = match program_override {
            Some(p) => p,
            None => match &c.program {
                Some(p) => owned(p.as_str()),
                None => owned("unknown"),
            },
        };
        proof {
            reveal_strlit("default-dark");
            reveal_strlit("dracula");
            reveal_strlit("nord");
            assert("default-dark"@.len() == 12 && "dracula"@.len() == 7 && "nord"@.len() == 4);
        }
        let theme = match theme_override {
            Some(n) => match Theme::builtin(n.as_str()) {
                Some(t) => t,
                None => Theme::default_dark(),
            },
            None => Theme::default_dark(),
        };
        let rules: Vec<Rule> = match registry.get(program_id.as_str()) {
            Some(p) => copy_rules(p.rule_list()),
            None => Vec::new(),
        };
        proof {
            if rules@.len() == 0 {
                assert(rules_view(rules@) =~= Seq::<RuleView>::empty());
            }
        }
        let colorizer = Colorizer::new(rules).with_theme(theme);
        Ok(LogSession {
            container_id: owned(c.id.as_str()),
            container_name: owned(c.name.as_str()),
            program_id,
            colorizer,
        })
    }

    /// The message sent where the provider cannot give the logs.
    pub fn logs_error(text: &str) -> (r: String)
        ensures
            r@ == error_message("Failed to get logs: "@ + text@),
    {
        error_message_exec("Failed to get logs: ", text)
    }

    /// The message for one log line: nothing for a blank line; else the
    /// trimmed line colorized, as HTML, with the container and program.
    pub fn message(&mut self, content: &str) -> (r: Option<String>)
        requires
            old(self).wf(),
        ensures
            final(self).wf(),
            final(self).id_spec() == old(self).id_spec(),
            final(self).name_spec() == old(self).name_spec(),
            final(self).program_spec() == old(self).program_spec(),
            trim_spec(content@).len() == 0 ==> r is None && final(self).colorizer_state() == old(self).colorizer_state(),
            trim_spec(content@).len() > 0 ==> {
                let t = trim_spec(content@);
                &&& final(self).colorizer_state() == colorize_spec(old(self).colorizer_state(), t).0
                &&& r matches Some(m) && m@ == line_message(
                    old(self).id_spec(),
                    old(self).name_spec(),
                    old(self).program_spec(),
                    html_of(colorized_text(old(self).colorizer_state(), t)),
                )
            },
    {
        let line = trim(content);
        if line.as_str().unicode_len() == 0 {
            return None;
        }
        let colorized = self.colorizer.colorize(line.as_str());
        let html = ansi_to_html(colorized.as_str());
        let mut r = owned("{\"container_id\":");
        push_str(&mut r, json_string(self.container_id.as_str()).as_str());
        push_str(&mut r, ",\"container_name\":");
        push_str(&mut r, json_string(self.container_name.as_str()).as_str());
        push_str(&mut r, ",\"html\":");
        push_str(&mut r, json_string(html.as_str()).as_str());
        push_str(&mut r, ",\"program\":");
        push_str(&mut r, json_string(self.program_id.as_str()).as_str());
        push_str(&mut r, "}");
        Some(r)
    }
}

} // verus!
