//! Alert condition evaluation.
use vstd::prelude::*;
use crate::alert::condition::{AlertCondition, AlertSeverity, ConditionView};
use crate::alert::formatter::{iso_timestamp, AlertPayload};
use crate::pattern::{compile, regex_is_match, regex_valid, CompiledPattern};
use crate::text::{decimal, owned, push_str, usize_string};

verus! {

/// The pattern of a log line at an error level: `ERROR`, `ERRO`, `ERR`,
/// `FATAL`, `FTL`, `CRIT`, `PANIC` (and `error`, `fatal`, `panic`) as words.
pub const ERROR_LEVEL_PATTERN: &'static str = r"\b(?:ERROR|ERRO|ERR|FATAL|FTL|CRIT|CRITICAL|PANIC|error|fatal|panic)\b";

/// Whether a line is logged at an error level.
pub open spec fn is_error_line(line: Seq<char>) -> bool {
    regex_valid(ERROR_LEVEL_PATTERN@) && regex_is_match(ERROR_LEVEL_PATTERN@, line)
}

/// The lines after which an unchanged slot counts as a sync stall.
pub const SYNC_STALL_LINES: usize = 100;

/// The state an evaluator keeps between lines.
pub struct EvaluatorView {
    pub last_peer_count: Option<usize>,
    pub last_slot: Option<u64>,
    pub lines_since_slot_change: usize,
    pub error_fired: bool,
}

/// State for evaluating alert conditions.
#[derive(Debug)]
pub struct ConditionEvaluator {
    /// The compiled error-level pattern.
    error_pattern: Option<CompiledPattern>,
    /// Last known peer count for detecting drops.
    pub last_peer_count: Option<usize>,
    /// Last known slot for detecting sync stalls.
    pub last_slot: Option<u64>,
    /// Number of lines since last slot change.
    pub lines_since_slot_change: usize,
    /// Whether error condition has fired (fire-once).
    pub error_fired: bool,
}

impl View for ConditionEvaluator {
    type V = EvaluatorView;

    closed spec fn view(&self) -> EvaluatorView {
        EvaluatorView {
            last_peer_count: self.last_peer_count,
            last_slot: self.last_slot,
            lines_since_slot_change: self.lines_since_slot_change,
            error_fired: self.error_fired,
        }
    }
}

/// The content of an alert that a condition raises: its title, severity and
/// fields (its message is the line, its program the one given).
pub struct AlertSpec {
    pub title: Seq<char>,
    pub severity: AlertSeverity,
    pub fields: Seq<(Seq<char>, Seq<char>)>,
}

/// The alert, if any, that a condition raises on a line in a given state.
pub open spec fn alert_spec(
    s: EvaluatorView,
    c: ConditionView,
    line: Seq<char>,
    error_count: usize,
    peer_count: Option<usize>,
) -> Option<AlertSpec> {
    match c {
        ConditionView::Error => if !s.error_fired && is_error_line(line) {
            Some(AlertSpec { title: "Error Detected"@, severity: AlertSeverity::Error, fields: seq![] })
        } else {
            None
        },
        ConditionView::ErrorThreshold { count } => if error_count == count && is_error_line(line) {
            Some(
                AlertSpec {
                    title: "Error Threshold Reached: "@ + decimal(count as nat) + " errors"@,
                    severity: AlertSeverity::Error,
                    fields: seq![("error_count"@, decimal(error_count as nat))],
                },
            )
        } else {
            None
        },
        ConditionView::PeerDrop { threshold } => match (peer_count, s.last_peer_count) {
            (Some(current), Some(last)) => if current < threshold && last >= threshold {
                Some(
                    AlertSpec {
                        title: "Peer Count Dropped Below "@ + decimal(threshold as nat),
                        severity: AlertSeverity::Warning,
                        fields: seq![("previous"@, decimal(last as nat)), ("current"@, decimal(current as nat))],
                    },
                )
            } else {
                None
            },
            _ => None,
        },
        ConditionView::SyncStall => match s.last_slot {
            Some(last_slot) => if s.lines_since_slot_change > SYNC_STALL_LINES {
                Some(
                    AlertSpec {
                        title: "Sync Stall Detected"@,
                        severity: AlertSeverity::Warning,
                        fields: seq![("last_slot"@, decimal(last_slot as nat))],
                    },
                )
            } else {
                None
            },
            None => None,
        },
        ConditionView::Pattern { pattern } => if regex_is_match(pattern, line) {
            Some(AlertSpec { title: "Pattern Match"@, severity: AlertSeverity::Warning, fields: seq![("pattern"@, pattern)] })
        } else {
            None
        },
    }
}

/// The state after evaluating a condition: the error condition fires once,
/// and a sync stall alert restarts the line count.
pub open spec fn state_after_eval(
    s: EvaluatorView,
    c: ConditionView,
    line: Seq<char>,
    error_count: usize,
    peer_count: Option<usize>,
) -> EvaluatorView {
    if alert_spec(s, c, line, error_count, peer_count) is Some {
        match c {
            ConditionView::Error => EvaluatorView { error_fired: true, ..s },
            ConditionView::SyncStall => EvaluatorView { lines_since_slot_change: 0, ..s },
            _ => s,
        }
    } else {
        s
    }
}

/// The state after the metrics of one line: the peer count is remembered when
/// known, and the line count restarts when a new slot is seen.
pub open spec fn state_after_update(s: EvaluatorView, peer_count: Option<usize>, slot: Option<u64>) -> EvaluatorView {
    let s1 = match peer_count {
        Some(p) => EvaluatorView { last_peer_count: Some(p), ..s },
        None => s,
    };
    match slot {
        Some(n) => if s1.last_slot == Some(n) {
            EvaluatorView { lines_since_slot_change: (s1.lines_since_slot_change + 1) as usize, ..s1 }
        } else {
            EvaluatorView { last_slot: Some(n), lines_since_slot_change: 0, ..s1 }
        },
        None => EvaluatorView { lines_since_slot_change: (s1.lines_since_slot_change + 1) as usize, ..s1 },
    }
}

/// The program name as a sequence, if given.
pub open spec fn program_view(program: Option<&str>) -> Option<Seq<char>> {
    match program {
        Some(p) => Some(p@),
        None => None,
    }
}

/// Whether a payload carries an alert for a line from a program (its
/// timestamp aside).
pub open spec fn payload_is(p: AlertPayload, a: AlertSpec, line: Seq<char>, program: Option<Seq<char>>) -> bool {
    &&& p.title@ == a.title
    &&& p.message@ == line
    &&& p.severity == a.severity
    &&& match (p.program, program) {
        (Some(x), Some(y)) => x@ == y,
        (None, None) => true,
        _ => false,
    }
    &&& p.fields.wf()
    &&& p.fields.entries_view() == a.fields
}

/// Sets the program of a payload, if one is given.
fn add_program(payload: AlertPayload, program: Option<&str>) -> (r: AlertPayload)
    ensures
        r.title == payload.title,
        r.message == payload.message,
        r.severity == payload.severity,
        r.timestamp == payload.timestamp,
        r.fields == payload.fields,
        match (r.program, program) {
            (Some(x), Some(y)) => x@ == y@,
            (None, None) => payload.program is None,
            _ => false,
        } || (program is None && r.program == payload.program),
{
    match program {
        Some(p) => payload.with_program(p),
        None => payload,
    }
}

/// A payload with a title, the line as message, a severity and the program.
fn alert_payload(title: &str, line: &str, severity: AlertSeverity, program: Option<&str>) -> (r: AlertPayload)
    ensures
        payload_is(r, AlertSpec { title: title@, severity, fields: seq![] }, line@, program_view(program)),
        exists|secs: u64| r.timestamp@ == iso_timestamp(secs as nat),
{
    let p = AlertPayload::new(title, line).with_severity(severity);
    let r = add_program(p, program);
    assert(r.fields.entries_view() =~= Seq::<(Seq<char>, Seq<char>)>::empty());
    r
}

impl ConditionEvaluator {
    /// Whether the error-level pattern compiled (it always does).
    pub closed spec fn wf(&self) -> bool {
        match self.error_pattern {
            Some(p) => p@ == ERROR_LEVEL_PATTERN@ && regex_valid(ERROR_LEVEL_PATTERN@),
            None => !regex_valid(ERROR_LEVEL_PATTERN@),
        }
    }

    /// Create a new condition evaluator.
    pub fn new() -> (r: ConditionEvaluator)
        ensures
            r.wf(),
            r@ == (EvaluatorView { last_peer_count: None, last_slot: None, lines_since_slot_change: 0, error_fired: false }),
    {
        let error_pattern = match compile(ERROR_LEVEL_PATTERN) {
            Ok(p) => Some(p),
            Err(_) => None,
        };
        ConditionEvaluator {
            error_pattern,
            last_peer_count: None,
            last_slot: None,
            lines_since_slot_change: 0,
            error_fired: false,
        }
    }

    /// Whether a line is at an error level.
    fn is_error_line(&self, line: &str) -> (r: bool)
        requires
            self.wf(),
        ensures
            r == is_error_line(line@),
    {
        match &self.error_pattern {
            Some(p) => p.is_match(line),
            None => false,
        }
    }

    /// Evaluate a condition against the current line and stats.
    ///
    /// Returns the alert payload if the condition fires, `None` otherwise.
    pub fn evaluate(
        &mut self,
        condition: &AlertCondition,
        line: &str,
        error_count: usize,
        peer_count: Option<usize>,
        slot: Option<u64>,
        program: Option<&str>,
    ) -> (r: Option<AlertPayload>)
        requires
            old(self).wf(),
        ensures
            final(self).wf(),
            final(self)@ == state_after_eval(old(self)@, condition@, line@, error_count, peer_count),
            match alert_spec(old(self)@, condition@, line@, error_count, peer_count) {
                Some(a) => r matches Some(p) && payload_is(p, a, line@, program_view(program))
                    && exists|secs: u64| p.timestamp@ == iso_timestamp(secs as nat),
                None => r is None,
            },
    {
        match condition {
            AlertCondition::Error => {
                if self.error_fired {
                    return None;
                }
                if self.is_error_line(line) {
                    self.error_fired = true;
                    Some(alert_payload("Error Detected", line, AlertSeverity::Error, program))
                } else {
                    None
                }
            },
            AlertCondition::ErrorThreshold { count } => {
                if error_count == *count && self.is_error_line(line) {
                    let mut title = owned("Error Threshold Reached: ");
                    let n = usize_string(*count);
                    push_str(&mut title, n.as_str());
                    push_str(&mut title, " errors");
                    let p = alert_payload(title.as_str(), line, AlertSeverity::Error, program);
                    let c = usize_string(error_count);
                    let r = p.with_field("error_count", c.as_str());
                    assert(r.fields.entries_view() =~= seq![("error_count"@, decimal(error_count as nat))]);
                    Some(r)
                } else {
                    None
                }
            },
            AlertCondition::PeerDrop { threshold } => {
                let current = match peer_count {
                    Some(c) => c,
                    None => return None,
                };
                if current < *threshold {
                    if let Some(last) = self.last_peer_count {
                        if last >= *threshold {
                            let mut title = owned("Peer Count Dropped Below ");
                            let n = usize_string(*threshold);
                            push_str(&mut title, n.as_str());
                            let p = alert_payload(title.as_str(), line, AlertSeverity::Warning, program);
                            let prev = usize_string(last);
                            let p = p.with_field("previous", prev.as_str());
                            let cur = usize_string(current);
                            proof {
                                reveal_strlit("previous");
                                reveal_strlit("current");
                                assert(p.fields.entries_view()[0].0 == "previous"@);
                                assert("previous"@.len() != "current"@.len());
                            }
                            let r = p.with_field("current", cur.as_str());
                            assert(r.fields.entries_view() =~= seq![
                                ("previous"@, decimal(last as nat)),
                                ("current"@, decimal(current as nat)),
                            ]);
                            return Some(r);
                        }
                    }
                }
                None
            },
            AlertCondition::SyncStall => {
                if self.lines_since_slot_change > SYNC_STALL_LINES {
                    if let Some(last_slot) = self.last_slot {
                        self.lines_since_slot_change = 0;
                        let p = alert_payload("Sync Stall Detected", line, AlertSeverity::Warning, program);
                        let s = crate::text::decimal_string(last_slot);
                        let r = p.with_field("last_slot", s.as_str());
                        assert(r.fields.entries_view() =~= seq![("last_slot"@, decimal(last_slot as nat))]);
                        return Some(r);
                    }
                }
                None
            },
            AlertCondition::Pattern { regex } => {
                if regex.is_match(line) {
                    let p = alert_payload("Pattern Match", line, AlertSeverity::Warning, program);
                    let r = p.with_field("pattern", regex.source());
                    assert(r.fields.entries_view() =~= seq![("pattern"@, regex@)]);
                    Some(r)
                } else {
                    None
                }
            },
        }
    }

    /// The number of lines since the slot last changed.
    pub fn lines_since_slot_change(&self) -> (r: usize)
        ensures
            r == self@.lines_since_slot_change,
    {
        self.lines_since_slot_change
    }

    /// Update internal state with new metrics (call once per line).
    pub fn update_state(&mut self, peer_count: Option<usize>, slot: Option<u64>)
        requires
            old(self).wf(),
            old(self)@.lines_since_slot_change < usize::MAX,
        ensures
            final(self).wf(),
            final(self)@ == state_after_update(old(self)@, peer_count, slot),
    {
        if let Some(peers) = peer_count {
            self.last_peer_count = Some(peers);
        }
        match slot {
            Some(new_slot) => {
                if self.last_slot == Some(new_slot) {
                    self.lines_since_slot_change = self.lines_since_slot_change + 1;
                } else {
                    self.last_slot = Some(new_slot);
                    self.lines_since_slot_change = 0;
                }
            },
            None => {
                self.lines_since_slot_change = self.lines_since_slot_change + 1;
            },
        }
    }

    /// Reset the evaluator state.
    pub fn reset(&mut self)
        requires
            old(self).wf(),
        ensures
            final(self).wf(),
            final(self)@ == (EvaluatorView { last_peer_count: None, last_slot: None, lines_since_slot_change: 0, error_fired: false }),
    {
        self.last_peer_count = None;
        self.last_slot = None;
        self.lines_since_slot_change = 0;
        self.error_fired = false;
    }
}

impl Default for ConditionEvaluator {
    fn default() -> (r: ConditionEvaluator)
        ensures
            r.wf(),
            r@ == (EvaluatorView { last_peer_count: None, last_slot: None, lines_since_slot_change: 0, error_fired: false }),
    {
        ConditionEvaluator::new()
    }
}

/// The state of a new or reset evaluator.
pub open spec fn initial_state() -> EvaluatorView {
    EvaluatorView { last_peer_count: None, last_slot: None, lines_since_slot_change: 0, error_fired: false }
}

/// The error condition fires once: after it has fired, it does not fire
/// again on any line, and the metrics of later lines do not re-arm it.
pub proof fn law_error_fires_once(
    s: EvaluatorView,
    line: Seq<char>,
    error_count: usize,
    peer_count: Option<usize>,
    next_peers: Option<usize>,
    next_slot: Option<u64>,
    next_line: Seq<char>,
    next_count: usize,
)
    requires
        alert_spec(s, ConditionView::Error, line, error_count, peer_count) is Some,
    ensures
        ({
            let s1 = state_after_eval(s, ConditionView::Error, line, error_count, peer_count);
            let s2 = state_after_update(s1, next_peers, next_slot);
            &&& s1.error_fired
            &&& s2.error_fired
            &&& alert_spec(s2, ConditionView::Error, next_line, next_count, next_peers) is None
        }),
{
}

/// After a reset, the error condition fires on the first error line.
pub proof fn law_error_fires_after_reset(line: Seq<char>, error_count: usize, peer_count: Option<usize>)
    ensures
        alert_spec(initial_state(), ConditionView::Error, line, error_count, peer_count) is Some
            <==> is_error_line(line),
{
}

/// A sync stall alert is not repeated on the next line: it restarts the
/// line count.
pub proof fn law_sync_stall_not_repeated(
    s: EvaluatorView,
    line: Seq<char>,
    error_count: usize,
    peer_count: Option<usize>,
    next_line: Seq<char>,
)
    requires
        alert_spec(s, ConditionView::SyncStall, line, error_count, peer_count) is Some,
    ensures
        alert_spec(
            state_after_eval(s, ConditionView::SyncStall, line, error_count, peer_count),
            ConditionView::SyncStall,
            next_line,
            error_count,
            peer_count,
        ) is None,
{
}

/// A peer drop alert fires only when the count crosses below the threshold:
/// the last known count was at or above it and the current one is below.
pub proof fn law_peer_drop_crossing(
    s: EvaluatorView,
    threshold: usize,
    line: Seq<char>,
    error_count: usize,
    peer_count: Option<usize>,
)
    ensures
        alert_spec(s, ConditionView::PeerDrop { threshold }, line, error_count, peer_count) is Some <==> {
            &&& peer_count matches Some(current) && current < threshold
            &&& s.last_peer_count matches Some(last) && last >= threshold
        },
{
}

/// A pattern condition fires exactly on the lines its regex matches, and
/// evaluating it leaves the state alone.
pub proof fn law_pattern_stateless(
    s: EvaluatorView,
    pattern: Seq<char>,
    line: Seq<char>,
    error_count: usize,
    peer_count: Option<usize>,
)
    ensures
        alert_spec(s, ConditionView::Pattern { pattern }, line, error_count, peer_count) is Some
            <==> regex_is_match(pattern, line),
        state_after_eval(s, ConditionView::Pattern { pattern }, line, error_count, peer_count) == s,
{
}

/// Every line counts towards a sync stall unless it brings a new slot: a
/// line without a slot, or with the slot already seen, adds one to the lines
/// since the last slot change; a new slot is remembered and restarts the
/// count.  A known peer count is remembered, and the error flag stays.
pub proof fn law_update_counts_lines(s: EvaluatorView, peer_count: Option<usize>, slot: Option<u64>)
    requires
        s.lines_since_slot_change < usize::MAX,
    ensures
        ({
            let n = state_after_update(s, peer_count, slot);
            &&& (slot is None || slot == s.last_slot) ==> n.lines_since_slot_change == s.lines_since_slot_change + 1
                && n.last_slot == s.last_slot
            &&& (slot is Some && slot != s.last_slot) ==> n.lines_since_slot_change == 0 && n.last_slot == slot
            &&& n.last_peer_count == match peer_count {
                Some(p) => Some(p),
                None => s.last_peer_count,
            }
            &&& n.error_fired == s.error_fired
        }),
{
}

} // verus!
