//! Colorized log entries, and the per-line work of a container log stream.
use vstd::prelude::*;
use crate::aggregator::html::{ansi_conversion, ansi_to_html, html_escape_spec};
use crate::alert::{conditions_view, AlertManager, OutgoingAlert};
use crate::alert::evaluator::EvaluatorView;
use crate::alert::condition::AlertCondition;
use crate::alert::formatter::{format_timestamp_nanos, iso_timestamp_nanos, json_quoted, json_string};
use crate::colorizer::{colorize_spec, Colorizer, ColorizerView};
use crate::text::{
    contains, decimal, decimal_string, lowercase, owned, push_str, seq_contains, to_lowercase, trim, trim_spec,
    zero_padded, zero_padded_string,
};

verus! {

/// A colorized log entry ready for display.
#[derive(Debug, Clone)]
pub struct ColorizedLogEntry {
    /// Container ID.
    pub container_id: String,
    /// Container name.
    pub container_name: String,
    /// Detected program.
    pub program: String,
    /// Timestamp (ISO 8601, with nanoseconds).
    pub timestamp: String,
    /// The log line as received.
    pub raw: String,
    /// ANSI-colorized line (for terminal).
    pub colorized: String,
    /// HTML-colorized line (for web).
    pub html: String,
}

/// The JSON object of a log entry for the web view, keys in order.
pub open spec fn entry_json(e: ColorizedLogEntry) -> Seq<char> {
    "{\"container_id\":"@ + json_quoted(e.container_id@) + ",\"container_name\":"@ + json_quoted(e.container_name@)
        + ",\"html\":"@ + json_quoted(e.html@) + ",\"program\":"@ + json_quoted(e.program@) + ",\"timestamp\":"@
        + json_quoted(e.timestamp@) + "}"@
}

impl ColorizedLogEntry {
    /// The entry as a JSON object for the web view, keys in order.
    pub fn to_json(&self) -> (r: String)
        ensures
            r@ == entry_json(*self),
    {
        let mut r = owned("{\"container_id\":");
        push_str(&mut r, json_string(self.container_id.as_str()).as_str());
        push_str(&mut r, ",\"container_name\":");
        push_str(&mut r, json_string(self.container_name.as_str()).as_str());
        push_str(&mut r, ",\"html\":");
        push_str(&mut r, json_string(self.html.as_str()).as_str());
        push_str(&mut r, ",\"program\":");
        push_str(&mut r, json_string(self.program.as_str()).as_str());
        push_str(&mut r, ",\"timestamp\":");
        push_str(&mut r, json_string(self.timestamp.as_str()).as_str());
        push_str(&mut r, "}");
        r
    }
}

/// Alert configuration for the log streamer.
#[derive(Debug)]
pub struct AlertConfig {
    /// Webhook URL for alerts.
    pub webhook_url: String,
    /// Alert conditions to evaluate.
    pub conditions: Vec<AlertCondition>,
}

/// Get the current timestamp in ISO 8601 format, with nanoseconds
/// (`YYYY-MM-DDTHH:MM:SS.NNNNNNNNNZ`).
pub fn chrono_now() -> (r: String)
    ensures
        exists|secs: u64, nanos: u32| nanos < 1_000_000_000 && r@ == iso_timestamp_nanos(secs as nat, nanos as nat),
{
    let (secs, nanos) = crate::clock::unix_time();
    format_timestamp_nanos(secs, nanos)
}

/// Whether a line counts as an error for the alert counters: it contains
/// `error` or `err=` once lower-cased.
pub open spec fn counts_as_error(line: Seq<char>) -> bool {
    seq_contains(lowercase(line), "error"@) || seq_contains(lowercase(line), "err="@)
}

/// The output of colorizing a line: the colored text, or the line itself
/// where a skip rule drops it.
pub open spec fn colorized_text(v: ColorizerView, line: Seq<char>) -> Seq<char> {
    match colorize_spec(v, line).1 {
        Some((o, _)) => o,
        None => line,
    }
}

/// Whether a line counts as an error line: its lower-cased form contains
/// `error` or `err=`.
pub fn is_error_line(line: &str) -> (r: bool)
    ensures
        r == counts_as_error(line@),
{
    let lower = to_lowercase(line);
    contains(lower.as_str(), "error") || contains(lower.as_str(), "err=")
}

/// The per-line work of one container's log stream: colorizing, counting
/// errors, checking alerts, and building the entry to broadcast.
#[derive(Debug)]
pub struct StreamProcessor {
    container_id: String,
    container_name: String,
    program_id: String,
    colorizer: Colorizer,
    alert_manager: Option<AlertManager>,
    error_count: usize,
}

/// What one line of a stream gives: the entry, and the alerts to send.
#[derive(Debug)]
pub struct StreamOutput {
    pub entry: ColorizedLogEntry,
    pub alerts: Vec<OutgoingAlert>,
}

/// The alert manager a stream builds from its configuration: it posts to
/// the configured webhook, checks the configured conditions for the stream's
/// program, and starts with nothing seen and nothing sent.
pub open spec fn fresh_manager(m: AlertManager, config: AlertConfig, program: Seq<char>) -> bool {
    &&& m.wf()
    &&& m.url_spec() == config.webhook_url@
    &&& m.service_spec() == crate::alert::formatter::detect_spec(config.webhook_url@)
    &&& m.telegram_format_spec() == (crate::alert::formatter::detect_spec(config.webhook_url@) is Telegram)
    &&& m.conditions_spec() == conditions_view(config.conditions@)
    &&& m.program_spec() == Some(program)
    &&& m.evaluator_state() == (EvaluatorView {
        last_peer_count: None,
        last_slot: None,
        lines_since_slot_change: 0,
        error_fired: false,
    })
    &&& m.limiter().global_cooldown_spec() == crate::alert::rate_limit::default_global_cooldown_nanos()
    &&& m.limiter().per_condition_cooldown_spec() == crate::alert::rate_limit::default_per_condition_cooldown_nanos()
    &&& m.limiter().max_per_hour_spec() == 50
    &&& m.limiter().last_alert_spec() is None
    &&& m.limiter().hourly_count_spec() == 0
    &&& forall|c: Seq<char>| m.limiter().stamp(c) is None
}

/// The manager went from `m` to `m2` by checking the line at some time,
/// with the given error count and no peer count or slot, raising `alerts`.
pub open spec fn line_checked(
    m: AlertManager,
    m2: AlertManager,
    alerts: Seq<OutgoingAlert>,
    line: Seq<char>,
    error_count: usize,
) -> bool {
    exists|now: u128| #[trigger] AlertManager::checked_line(m, m2, alerts, line, error_count, None, None, now)
}

/// Whether a manager's counters leave room to check one more line: the
/// lines since the last slot change, and the alerts of the hour plus the
/// conditions, stay below the largest `usize`.
pub open spec fn can_check(m: AlertManager) -> bool {
    m.evaluator_state().lines_since_slot_change < usize::MAX
        && m.limiter().hourly_count_spec() + m.conditions_spec().len() < usize::MAX
}

impl StreamProcessor {
    /// The container's id.
    pub closed spec fn id_spec(&self) -> Seq<char> {
        self.container_id@
    }

    /// The container's name.
    pub closed spec fn name_spec(&self) -> Seq<char> {
        self.container_name@
    }

    /// The program shown with each entry.
    pub closed spec fn program_spec(&self) -> Seq<char> {
        self.program_id@
    }

    /// The alert manager, where alerts are configured.
    pub closed spec fn manager_spec(&self) -> Option<AlertManager> {
        self.alert_manager
    }

    /// The colorizer's state.
    pub closed spec fn colorizer_state(&self) -> ColorizerView {
        self.colorizer@
    }

    /// The number of error lines seen.
    pub closed spec fn error_count_spec(&self) -> usize {
        self.error_count
    }

    /// The parts keep their invariants.
    pub closed spec fn wf(&self) -> bool {
        &&& self.colorizer.wf()
        &&& match self.alert_manager {
            Some(m) => m.wf(),
            None => true,
        }
    }

    /// A processor for a container's stream: the program defaults to
    /// `unknown`, and alerts are checked when configured.
    pub fn new(
        container_id: &str,
        container_name: &str,
        program: Option<&str>,
        colorizer: Colorizer,
        alert_config: Option<AlertConfig>,
    ) -> (r: StreamProcessor)
        requires
            colorizer.wf(),
        ensures
            r.wf(),
            r.colorizer_state() == colorizer@,
            r.error_count_spec() == 0,
            r.id_spec() == container_id@,
            r.name_spec() == container_name@,
            r.program_spec() == match program {
                Some(p) => p@,
                None => "unknown"@,
            },
            match alert_config {
                Some(c) => r.manager_spec() matches Some(m) && fresh_manager(m, c, r.program_spec()),
                None => r.manager_spec() is None,
            },
    {
        let program_id = match program {
            Some(p) => owned(p),
            None => owned("unknown"),
        };
        let alert_manager = match alert_config {
            Some(config) => {
                let AlertConfig { webhook_url, conditions } = config;
                Some(
                    AlertManager::new(webhook_url.as_str()).with_conditions(conditions).with_program(
                        program_id.as_str(),
                    ),
                )
            },
            None => None,
        };
        StreamProcessor {
            container_id: owned(container_id),
            container_name: owned(container_name),
            program_id,
            colorizer,
            alert_manager,
            error_count: 0,
        }
    }

    /// Process one log line: blank lines give nothing; other lines are
    /// trimmed, colorized, converted to HTML, counted when they look like
    /// errors, and checked against the alert conditions.
    pub fn process(&mut self, content: &str) -> (r: Option<StreamOutput>)
        requires
            old(self).wf(),
        ensures
            final(self).wf(),
            final(self).id_spec() == old(self).id_spec(),
            final(self).name_spec() == old(self).name_spec(),
            final(self).program_spec() == old(self).program_spec(),
            trim_spec(content@).len() == 0 ==> r is None && final(self).colorizer_state() == old(self).colorizer_state()
                && final(self).error_count_spec() == old(self).error_count_spec() && final(self).manager_spec()
                == old(self).manager_spec(),
            trim_spec(content@).len() > 0 ==> (r matches Some(out) && match old(self).manager_spec() {
                None => out.alerts@.len() == 0 && final(self).manager_spec() is None,
                Some(m) => match final(self).manager_spec() {
                    None => false,
                    Some(m2) => if can_check(m) {
                    line_checked(m, m2, out.alerts@, trim_spec(content@), final(self).error_count_spec())
                } else {
                    out.alerts@.len() == 0 && m2 == m
                },
                },
            }),
            trim_spec(content@).len() > 0 ==> ({
                let t = trim_spec(content@);
                let colored = colorized_text(old(self).colorizer_state(), t);
                &&& final(self).colorizer_state() == colorize_spec(old(self).colorizer_state(), t).0
                &&& final(self).error_count_spec() == if counts_as_error(t) {
                    if old(self).error_count_spec() < usize::MAX {
                        (old(self).error_count_spec() + 1) as usize
                    } else {
                        old(self).error_count_spec()
                    }
                } else {
                    old(self).error_count_spec()
                }
                &&& r matches Some(out) && {
                    &&& out.entry.container_id@ == old(self).id_spec()
                    &&& out.entry.container_name@ == old(self).name_spec()
                    &&& out.entry.program@ == old(self).program_spec()
                    &&& out.entry.raw@ == t
                    &&& out.entry.colorized@ == colored
                    &&& out.entry.html@ == match ansi_conversion(colored) {
                        Some(h) => h,
                        None => html_escape_spec(colored),
                    }
                    &&& exists|secs: u64, nanos: u32| out.entry.timestamp@ == iso_timestamp_nanos(secs as nat, nanos as nat)
                }
            }),
    {
        let line = trim(content);
        if line.as_str().unicode_len() == 0 {
            return None;
        }
        let colorized = self.colorizer.colorize(line.as_str());
        let html = ansi_to_html(colorized.as_str());
        if is_error_line(line.as_str()) {
            self.error_count = self.error_count.saturating_add(1);
        }
        let mut alerts: Vec<OutgoingAlert> = Vec::new();
        let count = self.error_count;
        let current = self.alert_manager.take();
        self.alert_manager = match current {
            Some(mut manager) => {
                if manager.lines_since_slot_change() < usize::MAX && manager.condition_count() < usize::MAX
                    - manager.hourly_count() {
                    let ghost before = manager;
                    alerts = manager.check_line(line.as_str(), count, None, None);
                    assert(line_checked(before, manager, alerts@, line@, count));
                }
                Some(manager)
            },
            None => None,
        };
        let entry = ColorizedLogEntry {
            container_id: owned(self.container_id.as_str()),
            container_name: owned(self.container_name.as_str()),
            program: owned(self.program_id.as_str()),
            timestamp: chrono_now(),
            raw: line,
            colorized,
            html,
        };
        let out = StreamOutput { entry, alerts };
        Some(out)
    }
}

} // verus!
