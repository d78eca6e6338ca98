//! Alerts: conditions, their evaluation, rate limiting and webhook payloads.
//!
//! An `AlertManager` decides, line by line, which alerts to raise and gives
//! back the requests to send; sending them is the caller's part.
pub mod condition;
pub mod config;
pub mod discord;
pub mod evaluator;
pub mod formatter;
pub mod rate_limit;
pub mod telegram;

use vstd::prelude::*;
use crate::alert::condition::{condition_type_spec, parse_condition, AlertCondition, ConditionView, ParseConditionError, ParseErrorKind};
use crate::alert::discord::{discord_body, DiscordFormatter};
use crate::alert::evaluator::{alert_spec, payload_is, state_after_eval, state_after_update, AlertSpec, ConditionEvaluator, EvaluatorView};
use crate::alert::formatter::{iso_timestamp, AlertPayload, ServiceView, WebhookService};
use crate::alert::rate_limit::RateLimiter;
use crate::alert::telegram::{telegram_body, TelegramFormatter};
use crate::text::owned;

verus! {

/// An alert to send: its payload, the condition type that raised it, and the
/// JSON body of the webhook request.
#[derive(Debug)]
pub struct OutgoingAlert {
    pub payload: AlertPayload,
    pub condition_type: String,
    pub body: String,
}

/// An alert handed to a background sender: its payload and the webhook URL
/// to post it to.
#[derive(Debug)]
pub struct AlertMessage {
    pub payload: AlertPayload,
    pub url: String,
}

/// Alert manager that coordinates condition evaluation and rate limiting, and
/// formats the webhook requests to send.
#[derive(Debug)]
pub struct AlertManager {
    /// Webhook URL.
    url: String,
    /// Webhook service type.
    service: WebhookService,
    /// Whether requests are formatted for Telegram (else as Discord embeds).
    telegram_format: bool,
    /// Alert conditions to evaluate.
    conditions: Vec<AlertCondition>,
    /// Condition evaluator.
    evaluator: ConditionEvaluator,
    /// Rate limiter.
    rate_limiter: RateLimiter,
    /// Program name for alerts.
    program: Option<String>,
}

/// The conditions in view form.
pub open spec fn conditions_view(cs: Seq<AlertCondition>) -> Seq<ConditionView> {
    cs.map_values(|c: AlertCondition| c@)
}

/// Whether the rate limiter lets an alert of a condition type through at `now`.
pub open spec fn allowed(lim: RateLimiter, t: Seq<char>, now: u128) -> bool {
    lim.decision(t, now) is Allowed
}

/// Going through the conditions in order from state `s`: a condition that the
/// rate limiter holds back is skipped, the others are evaluated.  Gives the
/// state after the last and the alerts raised, each with its condition type.
pub open spec fn scan_conditions(
    lim: RateLimiter,
    now: u128,
    s: EvaluatorView,
    conds: Seq<ConditionView>,
    line: Seq<char>,
    error_count: usize,
    peer_count: Option<usize>,
) -> (EvaluatorView, Seq<(Seq<char>, AlertSpec)>)
    decreases conds.len(),
{
    if conds.len() == 0 {
        (s, Seq::empty())
    } else {
        let (s1, acc) = scan_conditions(lim, now, s, conds.drop_last(), line, error_count, peer_count);
        let c = conds.last();
        let t = condition_type_spec(c);
        if !allowed(lim, t, now) {
            (s1, acc)
        } else {
            let s2 = state_after_eval(s1, c, line, error_count, peer_count);
            match alert_spec(s1, c, line, error_count, peer_count) {
                Some(a) => (s2, acc.push((t, a))),
                None => (s2, acc),
            }
        }
    }
}

/// The state after recording alerts of the given condition types at `now`,
/// one after the other.
pub open spec fn recorded_all(old: RateLimiter, new: RateLimiter, types: Seq<Seq<char>>, now: u128) -> bool
    decreases types.len(),
{
    if types.len() == 0 {
        new == old
    } else {
        exists|mid: RateLimiter|
            recorded_all(old, mid, types.drop_last(), now) && #[trigger] RateLimiter::recorded(mid, new, types.last(), now)
    }
}

/// The request body for a payload.
pub open spec fn body_for(telegram_format: bool, service: ServiceView, p: AlertPayload) -> Seq<char> {
    if telegram_format {
        telegram_body(p, service)
    } else {
        discord_body(p)
    }
}

/// The program name as a sequence, if set.
pub open spec fn program_seq(p: Option<String>) -> Option<Seq<char>> {
    match p {
        Some(s) => Some(s@),
        None => None,
    }
}

impl AlertManager {
    /// The rate limiter.
    pub closed spec fn limiter(&self) -> RateLimiter {
        self.rate_limiter
    }

    /// The evaluator's state.
    pub closed spec fn evaluator_state(&self) -> EvaluatorView {
        self.evaluator@
    }

    /// The conditions, in order.
    pub closed spec fn conditions_spec(&self) -> Seq<ConditionView> {
        conditions_view(self.conditions@)
    }

    /// The webhook URL.
    pub closed spec fn url_spec(&self) -> Seq<char> {
        self.url@
    }

    /// The webhook service.
    pub closed spec fn service_spec(&self) -> ServiceView {
        self.service@
    }

    /// Whether requests are formatted for Telegram.
    pub closed spec fn telegram_format_spec(&self) -> bool {
        self.telegram_format
    }

    /// The program named in alerts.
    pub closed spec fn program_spec(&self) -> Option<Seq<char>> {
        program_seq(self.program)
    }

    /// The parts keep their invariants.
    pub closed spec fn wf(&self) -> bool {
        self.evaluator.wf() && self.rate_limiter.wf()
    }

    /// What checking a line at time `now` does: the metrics update the
    /// evaluator, every condition the rate limiter lets through is evaluated
    /// in order, the alerts raised are returned with their request bodies and
    /// recorded in the rate limiter, and the configuration stays.
    pub open spec fn checked_line(
        old: AlertManager,
        new: AlertManager,
        r: Seq<OutgoingAlert>,
        line: Seq<char>,
        error_count: usize,
        peer_count: Option<usize>,
        slot: Option<u64>,
        now: u128,
    ) -> bool {
        let s0 = state_after_update(old.evaluator_state(), peer_count, slot);
        let (s, alerts) = scan_conditions(old.limiter(), now, s0, old.conditions_spec(), line, error_count, peer_count);
        &&& new.evaluator_state() == s
        &&& r.len() == alerts.len()
        &&& forall|i: int| 0 <= i < alerts.len() ==> {
            &&& (#[trigger] r[i]).condition_type@ == alerts[i].0
            &&& payload_is(r[i].payload, alerts[i].1, line, old.program_spec())
            &&& exists|secs: u64| r[i].payload.timestamp@ == iso_timestamp(secs as nat)
            &&& r[i].body@ == body_for(old.telegram_format_spec(), old.service_spec(), r[i].payload)
        }
        &&& recorded_all(old.limiter(), new.limiter(), alerts.map_values(|a: (Seq<char>, AlertSpec)| a.0), now)
        &&& new.url_spec() == old.url_spec()
        &&& new.service_spec() == old.service_spec()
        &&& new.telegram_format_spec() == old.telegram_format_spec()
        &&& new.conditions_spec() == old.conditions_spec()
        &&& new.program_spec() == old.program_spec()
    }

    /// Create a new alert manager for the given webhook URL.
    pub fn new(url: &str) -> (r: AlertManager)
        ensures
            r.wf(),
            r.url_spec() == url@,
            r.service_spec() == crate::alert::formatter::detect_spec(url@),
            r.telegram_format_spec() == (crate::alert::formatter::detect_spec(url@) is Telegram),
            r.conditions_spec().len() == 0,
            r.program_spec() is None,
            r.evaluator_state() == (EvaluatorView {
                last_peer_count: None,
                last_slot: None,
                lines_since_slot_change: 0,
                error_fired: false,
            }),
            r.limiter().global_cooldown_spec() == crate::alert::rate_limit::default_global_cooldown_nanos(),
            r.limiter().per_condition_cooldown_spec() == crate::alert::rate_limit::default_per_condition_cooldown_nanos(),
            r.limiter().max_per_hour_spec() == 50,
            r.limiter().last_alert_spec() is None,
            r.limiter().hourly_count_spec() == 0,
            forall|c: Seq<char>| r.limiter().stamp(c) is None,
    {
        let service = WebhookService::detect(url);
        let telegram_format = match service {
            WebhookService::Telegram { .. } => true,
            _ => false,
        };
        AlertManager {
            url: owned(url),
            service,
            telegram_format,
            conditions: Vec::new(),
            evaluator: ConditionEvaluator::new(),
            rate_limiter: RateLimiter::new(),
            program: None,
        }
    }

    /// Set the Telegram chat ID: requests are then formatted for Telegram.
    pub fn with_chat_id(self, chat_id: &str) -> (r: AlertManager)
        ensures
            r.wf() == self.wf(),
            r.url_spec() == self.url_spec(),
            r.service_spec() == match self.service_spec() {
                ServiceView::Telegram { .. } => ServiceView::Telegram { chat_id: chat_id@ },
                other => other,
            },
            r.telegram_format_spec(),
            r.conditions_spec() == self.conditions_spec(),
            r.program_spec() == self.program_spec(),
            r.evaluator_state() == self.evaluator_state(),
            r.limiter() == self.limiter(),
    {
        AlertManager { service: self.service.with_chat_id(chat_id), telegram_format: true, ..self }
    }

    /// Add an alert condition.
    pub fn with_condition(self, condition: AlertCondition) -> (r: AlertManager)
        ensures
            r.wf() == self.wf(),
            r.url_spec() == self.url_spec(),
            r.service_spec() == self.service_spec(),
            r.telegram_format_spec() == self.telegram_format_spec(),
            r.conditions_spec() == self.conditions_spec().push(condition@),
            r.program_spec() == self.program_spec(),
            r.evaluator_state() == self.evaluator_state(),
            r.limiter() == self.limiter(),
    {
        let mut r = self;
        r.conditions.push(condition);
        proof {
            assert(conditions_view(r.conditions@) =~= conditions_view(self.conditions@).push(condition@));
        }
        r
    }

    /// Add multiple alert conditions.
    pub fn with_conditions(self, conditions: Vec<AlertCondition>) -> (r: AlertManager)
        ensures
            r.wf() == self.wf(),
            r.url_spec() == self.url_spec(),
            r.service_spec() == self.service_spec(),
            r.telegram_format_spec() == self.telegram_format_spec(),
            r.conditions_spec() == self.conditions_spec() + conditions_view(conditions@),
            r.program_spec() == self.program_spec(),
            r.evaluator_state() == self.evaluator_state(),
            r.limiter() == self.limiter(),
    {
        let mut r = self;
        let mut more = conditions;
        r.conditions.append(&mut more);
        proof {
            assert(conditions_view(r.conditions@) =~= conditions_view(self.conditions@) + conditions_view(conditions@));
        }
        r
    }

    /// Set the program name for alerts.
    pub fn with_program(self, program: &str) -> (r: AlertManager)
        ensures
            r.wf() == self.wf(),
            r.url_spec() == self.url_spec(),
            r.service_spec() == self.service_spec(),
            r.telegram_format_spec() == self.telegram_format_spec(),
            r.conditions_spec() == self.conditions_spec(),
            r.program_spec() == Some(program@),
            r.evaluator_state() == self.evaluator_state(),
            r.limiter() == self.limiter(),
    {
        AlertManager { program: Some(owned(program)), ..self }
    }

    /// Set both cooldowns of the rate limiter to `nanos` nanoseconds.
    pub fn with_cooldown_nanos(self, nanos: u128) -> (r: AlertManager)
        requires
            self.wf(),
            nanos <= crate::clock::max_duration_nanos(),
        ensures
            r.wf(),
            r.url_spec() == self.url_spec(),
            r.service_spec() == self.service_spec(),
            r.telegram_format_spec() == self.telegram_format_spec(),
            r.conditions_spec() == self.conditions_spec(),
            r.program_spec() == self.program_spec(),
            r.evaluator_state() == self.evaluator_state(),
            r.limiter().global_cooldown_spec() == nanos,
            r.limiter().per_condition_cooldown_spec() == nanos,
            r.limiter().max_per_hour_spec() == self.limiter().max_per_hour_spec(),
            r.limiter().last_alert_spec() == self.limiter().last_alert_spec(),
            r.limiter().hourly_count_spec() == self.limiter().hourly_count_spec(),
            forall|c: Seq<char>| r.limiter().stamp(c) == self.limiter().stamp(c),
    {
        let lim = self.rate_limiter.with_global_cooldown_nanos(nanos).with_per_condition_cooldown_nanos(nanos);
        AlertManager { rate_limiter: lim, ..self }
    }

    /// Set the alert cooldown (both the global and the per-condition one).
    pub fn with_cooldown(self, cooldown: std::time::Duration) -> (r: AlertManager)
        requires
            self.wf(),
        ensures
            r.wf(),
            r.url_spec() == self.url_spec(),
            r.service_spec() == self.service_spec(),
            r.telegram_format_spec() == self.telegram_format_spec(),
            r.conditions_spec() == self.conditions_spec(),
            r.program_spec() == self.program_spec(),
            r.evaluator_state() == self.evaluator_state(),
            r.limiter().max_per_hour_spec() == self.limiter().max_per_hour_spec(),
            r.limiter().global_cooldown_spec() == crate::clock::duration_length(cooldown),
            r.limiter().per_condition_cooldown_spec() == crate::clock::duration_length(cooldown),
            r.limiter().last_alert_spec() == self.limiter().last_alert_spec(),
            r.limiter().hourly_count_spec() == self.limiter().hourly_count_spec(),
            forall|c: Seq<char>| r.limiter().stamp(c) == self.limiter().stamp(c),
    {
        let n = crate::clock::duration_nanos(cooldown);
        self.with_cooldown_nanos(n)
    }

    /// Formats the request body for a payload.
    fn format_body(&self, payload: &AlertPayload) -> (r: String)
        ensures
            r@ == body_for(self.telegram_format, self.service@, *payload),
    {
        if self.telegram_format {
            TelegramFormatter.format_payload(payload, &self.service)
        } else {
            DiscordFormatter.format_payload(payload)
        }
    }

    /// Check a log line against all conditions at time `now`: the metrics
    /// update the evaluator, every condition the rate limiter lets through is
    /// evaluated, the alerts raised are recorded in the rate limiter, and the
    /// requests to send are returned in the order of the conditions.
    pub fn check_line_at(
        &mut self,
        line: &str,
        error_count: usize,
        peer_count: Option<usize>,
        slot: Option<u64>,
        now: u128,
    ) -> (r: Vec<OutgoingAlert>)
        requires
            old(self).wf(),
            old(self).evaluator_state().lines_since_slot_change < usize::MAX,
            old(self).limiter().hourly_count_spec() + old(self).conditions_spec().len() < usize::MAX,
        ensures
            final(self).wf(),
            AlertManager::checked_line(*old(self), *final(self), r@, line@, error_count, peer_count, slot, now),
            final(self).url_spec() == old(self).url_spec(),
            final(self).service_spec() == old(self).service_spec(),
            final(self).telegram_format_spec() == old(self).telegram_format_spec(),
            final(self).conditions_spec() == old(self).conditions_spec(),
            final(self).program_spec() == old(self).program_spec(),
    {
        self.evaluator.update_state(peer_count, slot);
        let ghost s0 = self.evaluator@;
        let ghost lim0 = self.rate_limiter;
        let ghost pre = *self;
        let ghost conds = conditions_view(self.conditions@);
        let mut out: Vec<OutgoingAlert> = Vec::new();
        let program: Option<&str> = match &self.program {
            Some(p) => Some(p.as_str()),
            None => None,
        };
        let mut i: usize = 0;
        while i < self.conditions.len()
            invariant
                i <= self.conditions@.len(),
                conds == conditions_view(self.conditions@),
                self.evaluator.wf(),
                self.rate_limiter == lim0,
                lim0.wf(),
                self.url == pre.url,
                self.service == pre.service,
                self.telegram_format == pre.telegram_format,
                self.conditions == pre.conditions,
                self.program == pre.program,
                match (program, self.program) {
                    (Some(a), Some(b)) => a@ == b@,
                    (None, None) => true,
                    _ => false,
                },
                ({
                    let (s, alerts) = scan_conditions(lim0, now, s0, conds.take(i as int), line@, error_count, peer_count);
                    &&& self.evaluator@ == s
                    &&& out@.len() == alerts.len()
                    &&& forall|k: int| 0 <= k < alerts.len() ==> {
                        &&& (#[trigger] out@[k]).condition_type@ == alerts[k].0
                        &&& payload_is(out@[k].payload, alerts[k].1, line@, program_seq(self.program))
                        &&& exists|secs: u64| out@[k].payload.timestamp@ == iso_timestamp(secs as nat)
                        &&& out@[k].body@ == body_for(self.telegram_format, self.service@, out@[k].payload)
                    }
                }),
                out@.len() <= i,
            decreases self.conditions@.len() - i,
        {
            let ghost before_eval = self.evaluator@;
            let ghost prefix = conds.take(i as int);
            assert(conds.take(i + 1).drop_last() =~= prefix);
            assert(conds.take(i + 1).last() == self.conditions@[i as int]@);
            let condition = &self.conditions[i];
            let cond_type = condition.condition_type();
            let decision = self.rate_limiter.decide_at(cond_type, now);
            let is_allowed = match decision {
                crate::alert::rate_limit::RateLimitDecision::Allowed => true,
                _ => false,
            };
            if is_allowed {
                let result = self.evaluator.evaluate(condition, line, error_count, peer_count, slot, program);
                match result {
                    Some(payload) => {
                        let body = self.format_body(&payload);
                        out.push(OutgoingAlert { payload, condition_type: owned(cond_type), body });
                    },
                    None => {},
                }
            }
            i += 1;
        }
        assert(conds.take(self.conditions@.len() as int) =~= conds);
        let ghost alerts = scan_conditions(lim0, now, s0, conds, line@, error_count, peer_count).1;
        let ghost types = alerts.map_values(|a: (Seq<char>, AlertSpec)| a.0);
        let ghost mid_state = *self;
        let mut j: usize = 0;
        while j < out.len()
            invariant
                j <= out@.len(),
                out@.len() == alerts.len() == types.len(),
                out@.len() <= self.conditions@.len(),
                forall|k: int| 0 <= k < alerts.len() ==> (#[trigger] out@[k]).condition_type@ == types[k],
                self.rate_limiter.wf(),
                self.rate_limiter.hourly_count_spec() <= lim0.hourly_count_spec() + j,
                lim0.hourly_count_spec() + self.conditions@.len() < usize::MAX,
                recorded_all(lim0, self.rate_limiter, types.take(j as int), now),
                self.evaluator == mid_state.evaluator,
                self.url == pre.url,
                self.service == pre.service,
                self.telegram_format == pre.telegram_format,
                self.conditions == pre.conditions,
                self.program == pre.program,
            decreases out@.len() - j,
        {
            let ghost mid = self.rate_limiter;
            self.rate_limiter.record_alert_at(out[j].condition_type.as_str(), now);
            proof {
                let t = types.take(j + 1);
                assert(t.drop_last() =~= types.take(j as int));
                assert(t.last() == types[j as int]);
                assert(RateLimiter::recorded(mid, self.rate_limiter, t.last(), now));
                assert(recorded_all(lim0, mid, t.drop_last(), now));
            }
            j += 1;
        }
        assert(types.take(out@.len() as int) =~= types);
        out
    }

    /// Check a log line against all conditions now (see `check_line_at`).
    pub fn check_line(
        &mut self,
        line: &str,
        error_count: usize,
        peer_count: Option<usize>,
        slot: Option<u64>,
    ) -> (r: Vec<OutgoingAlert>)
        requires
            old(self).wf(),
            old(self).evaluator_state().lines_since_slot_change < usize::MAX,
            old(self).limiter().hourly_count_spec() + old(self).conditions_spec().len() < usize::MAX,
        ensures
            final(self).wf(),
            exists|now: u128| #[trigger] AlertManager::checked_line(*old(self), *final(self), r@, line@, error_count, peer_count, slot, now),
            final(self).url_spec() == old(self).url_spec(),
            final(self).conditions_spec() == old(self).conditions_spec(),
    {
        let now = self.rate_limiter.now();
        self.check_line_at(line, error_count, peer_count, slot, now)
    }

    /// Get the webhook URL.
    pub fn url(&self) -> (r: &str)
        ensures
            r@ == self.url_spec(),
    {
        self.url.as_str()
    }

    /// Get the webhook service.
    pub fn service(&self) -> (r: &WebhookService)
        ensures
            r@ == self.service_spec(),
    {
        &self.service
    }

    /// The Content-Type header of the requests.
    pub fn content_type(&self) -> (r: &'static str)
        ensures
            r@ == "application/json"@,
    {
        "application/json"
    }

    /// Get the number of configured conditions.
    pub fn condition_count(&self) -> (r: usize)
        ensures
            r == self.conditions_spec().len(),
    {
        self.conditions.len()
    }

    /// The number of alerts recorded in the current hour window.
    pub fn hourly_count(&self) -> (r: usize)
        ensures
            r == self.limiter().hourly_count_spec(),
    {
        self.rate_limiter.hourly_count()
    }

    /// The number of lines since the slot last changed.
    pub fn lines_since_slot_change(&self) -> (r: usize)
        requires
            self.wf(),
        ensures
            r == self.evaluator_state().lines_since_slot_change,
    {
        self.evaluator.lines_since_slot_change()
    }

    /// Reset the alert manager state.
    pub fn reset(&mut self)
        requires
            old(self).wf(),
        ensures
            final(self).wf(),
            final(self).evaluator_state() == (EvaluatorView {
                last_peer_count: None,
                last_slot: None,
                lines_since_slot_change: 0,
                error_fired: false,
            }),
            final(self).limiter().last_alert_spec() is None,
            forall|c: Seq<char>| final(self).limiter().stamp(c) is None,
            final(self).limiter().hourly_count_spec() == 0,
            final(self).url_spec() == old(self).url_spec(),
            final(self).conditions_spec() == old(self).conditions_spec(),
    {
        self.evaluator.reset();
        self.rate_limiter.reset();
    }
}

/// Parses condition strings in order: all the conditions, or the error of the
/// first that does not parse.
pub open spec fn parse_all(strs: Seq<String>) -> Result<Seq<ConditionView>, ParseErrorKind>
    decreases strs.len(),
{
    if strs.len() == 0 {
        Ok(Seq::empty())
    } else {
        match crate::alert::condition::parse_condition_spec(strs[0]@, crate::alert::condition::condition_type_name(strs[0]@)) {
            Err(e) => Err(e),
            Ok(c) => match parse_all(strs.skip(1)) {
                Ok(cs) => Ok(seq![c] + cs),
                Err(e) => Err(e),
            },
        }
    }
}

/// Builder for creating an `AlertManager` from CLI arguments.
#[derive(Debug)]
pub struct AlertManagerBuilder {
    url: Option<String>,
    chat_id: Option<String>,
    conditions: Vec<AlertCondition>,
    program: Option<String>,
    cooldown_secs: Option<u64>,
}

impl AlertManagerBuilder {
    /// The webhook URL, if set.
    pub closed spec fn url_spec(&self) -> Option<Seq<char>> {
        program_seq(self.url)
    }

    /// The Telegram chat ID, if set.
    pub closed spec fn chat_id_spec(&self) -> Option<Seq<char>> {
        program_seq(self.chat_id)
    }

    /// The conditions added so far.
    pub closed spec fn conditions_spec(&self) -> Seq<ConditionView> {
        conditions_view(self.conditions@)
    }

    /// The program name, if set.
    pub closed spec fn program_spec(&self) -> Option<Seq<char>> {
        program_seq(self.program)
    }

    /// The cooldown in seconds, if set.
    pub closed spec fn cooldown_spec(&self) -> Option<u64> {
        self.cooldown_secs
    }

    /// Create a new builder.
    pub fn new() -> (r: AlertManagerBuilder)
        ensures
            r.url_spec() is None,
            r.chat_id_spec() is None,
            r.conditions_spec().len() == 0,
            r.program_spec() is None,
            r.cooldown_spec() is None,
    {
        let r = AlertManagerBuilder { url: None, chat_id: None, conditions: Vec::new(), program: None, cooldown_secs: None };
        assert(r.conditions_spec() =~= Seq::<ConditionView>::empty());
        r
    }

    /// Set the webhook URL.
    pub fn url(self, url: &str) -> (r: AlertManagerBuilder)
        ensures
            r.url_spec() == Some(url@),
            r.chat_id_spec() == self.chat_id_spec(),
            r.conditions_spec() == self.conditions_spec(),
            r.program_spec() == self.program_spec(),
            r.cooldown_spec() == self.cooldown_spec(),
    {
        AlertManagerBuilder { url: Some(owned(url)), ..self }
    }

    /// Set the Telegram chat ID.
    pub fn chat_id(self, chat_id: &str) -> (r: AlertManagerBuilder)
        ensures
            r.url_spec() == self.url_spec(),
            r.chat_id_spec() == Some(chat_id@),
            r.conditions_spec() == self.conditions_spec(),
            r.program_spec() == self.program_spec(),
            r.cooldown_spec() == self.cooldown_spec(),
    {
        AlertManagerBuilder { chat_id: Some(owned(chat_id)), ..self }
    }

    /// Add a condition from a CLI string.
    pub fn condition(self, condition_str: &str) -> (r: Result<AlertManagerBuilder, ParseConditionError>)
        ensures
            match crate::alert::condition::parse_condition_spec(condition_str@, crate::alert::condition::condition_type_name(condition_str@)) {
                Ok(c) => r matches Ok(b) && b.conditions_spec() == self.conditions_spec().push(c)
                    && b.url_spec() == self.url_spec() && b.chat_id_spec() == self.chat_id_spec()
                    && b.program_spec() == self.program_spec() && b.cooldown_spec() == self.cooldown_spec(),
                Err(e) => r matches Err(x) && x@ == e,
            },
    {
        match parse_condition(condition_str) {
            Ok(c) => {
                let mut r = self;
                r.conditions.push(c);
                proof {
                    assert(conditions_view(r.conditions@) =~= conditions_view(self.conditions@).push(c@));
                }
                Ok(r)
            },
            Err(e) => Err(e),
        }
    }

    /// Add multiple conditions from CLI strings: all of them, or the error of
    /// the first that does not parse.
    pub fn conditions(self, condition_strs: &[String]) -> (r: Result<AlertManagerBuilder, ParseConditionError>)
        ensures
            match parse_all(condition_strs@) {
                Ok(cs) => r matches Ok(b) && b.conditions_spec() == self.conditions_spec() + cs
                    && b.url_spec() == self.url_spec() && b.chat_id_spec() == self.chat_id_spec()
                    && b.program_spec() == self.program_spec() && b.cooldown_spec() == self.cooldown_spec(),
                Err(e) => r matches Err(x) && x@ == e,
            },
    {
        let ghost strs = condition_strs@;
        let mut parsed: Vec<AlertCondition> = Vec::new();
        let mut i: usize = 0;
        assert(strs.skip(0) =~= strs);
        while i < condition_strs.len()
            invariant
                i <= strs.len(),
                strs == condition_strs@,
                parse_all(strs) == match parse_all(strs.skip(i as int)) {
                    Ok(cs) => Ok(conditions_view(parsed@) + cs),
                    Err(e) => Err(e),
                },
            decreases strs.len() - i,
        {
            let ghost rest = strs.skip(i as int);
            assert(rest[0] == strs[i as int]);
            assert(rest.skip(1) =~= strs.skip(i + 1));
            match parse_condition(condition_strs[i].as_str()) {
                Ok(c) => {
                    let ghost before = conditions_view(parsed@);
                    parsed.push(c);
                    proof {
                        assert(conditions_view(parsed@) =~= before + seq![c@]);
                        match parse_all(strs.skip(i + 1)) {
                            Ok(cs) => {
                                assert(before + (seq![c@] + cs) =~= conditions_view(parsed@) + cs);
                            },
                            Err(_) => {},
                        }
                    }
                },
                Err(e) => {
                    return Err(e);
                },
            }
            i += 1;
        }
        assert(strs.skip(i as int) =~= Seq::<String>::empty());
        assert(conditions_view(parsed@) + Seq::<ConditionView>::empty() =~= conditions_view(parsed@));
        let mut r = self;
        let ghost before = conditions_view(r.conditions@);
        let ghost added = conditions_view(parsed@);
        r.conditions.append(&mut parsed);
        proof {
            assert(conditions_view(r.conditions@) =~= before + added);
        }
        Ok(r)
    }

    /// Set the program name.
    pub fn program(self, program: &str) -> (r: AlertManagerBuilder)
        ensures
            r.url_spec() == self.url_spec(),
            r.chat_id_spec() == self.chat_id_spec(),
            r.conditions_spec() == self.conditions_spec(),
            r.program_spec() == Some(program@),
            r.cooldown_spec() == self.cooldown_spec(),
    {
        AlertManagerBuilder { program: Some(owned(program)), ..self }
    }

    /// Set the cooldown in seconds.
    pub fn cooldown_secs(self, secs: u64) -> (r: AlertManagerBuilder)
        ensures
            r.url_spec() == self.url_spec(),
            r.chat_id_spec() == self.chat_id_spec(),
            r.conditions_spec() == self.conditions_spec(),
            r.program_spec() == self.program_spec(),
            r.cooldown_spec() == Some(secs),
    {
        AlertManagerBuilder { cooldown_secs: Some(secs), ..self }
    }

    /// Build the `AlertManager`: `None` without a URL.  Without conditions it
    /// watches for errors.
    pub fn build(self) -> (r: Option<AlertManager>)
        ensures
            match self.url_spec() {
                None => r is None,
                Some(url) => r matches Some(m) && {
                    &&& m.wf()
                    &&& m.url_spec() == url
                    &&& m.service_spec() == match self.chat_id_spec() {
                        Some(c) => match crate::alert::formatter::detect_spec(url) {
                            ServiceView::Telegram { .. } => ServiceView::Telegram { chat_id: c },
                            other => other,
                        },
                        None => crate::alert::formatter::detect_spec(url),
                    }
                    &&& m.telegram_format_spec() == (self.chat_id_spec() is Some
                        || crate::alert::formatter::detect_spec(url) is Telegram)
                    &&& m.conditions_spec() == if self.conditions_spec().len() == 0 {
                        seq![ConditionView::Error]
                    } else {
                        self.conditions_spec()
                    }
                    &&& m.program_spec() == self.program_spec()
                    &&& match self.cooldown_spec() {
                        Some(secs) => m.limiter().global_cooldown_spec() == secs * 1_000_000_000
                            && m.limiter().per_condition_cooldown_spec() == secs * 1_000_000_000,
                        None => m.limiter().global_cooldown_spec() == crate::alert::rate_limit::default_global_cooldown_nanos()
                            && m.limiter().per_condition_cooldown_spec() == crate::alert::rate_limit::default_per_condition_cooldown_nanos(),
                    }
                    &&& m.limiter().last_alert_spec() is None
                    &&& m.limiter().hourly_count_spec() == 0
                    &&& forall|c: Seq<char>| m.limiter().stamp(c) is None
                },
            },
    {
        let url = match self.url {
            Some(u) => u,
            None => return None,
        };
        let mut manager = AlertManager::new(url.as_str());
        if let Some(chat_id) = &self.chat_id {
            manager = manager.with_chat_id(chat_id.as_str());
        }
        if self.conditions.len() == 0 {
            manager = manager.with_condition(AlertCondition::Error);
            assert(manager.conditions_spec() =~= seq![ConditionView::Error]);
        } else {
            manager = manager.with_conditions(self.conditions);
            assert(manager.conditions_spec() =~= conditions_view(self.conditions@));
        }
        if let Some(program) = &self.program {
            manager = manager.with_program(program.as_str());
        }
        if let Some(secs) = self.cooldown_secs {
            let nanos: u128 = (secs as u128) * 1_000_000_000;
            manager = manager.with_cooldown_nanos(nanos);
        }
        Some(manager)
    }
}

impl Default for AlertManagerBuilder {
    fn default() -> (r: AlertManagerBuilder)
        ensures
            r.url_spec() is None,
            r.chat_id_spec() is None,
            r.conditions_spec().len() == 0,
            r.program_spec() is None,
            r.cooldown_spec() is None,
    {
        AlertManagerBuilder::new()
    }
}

} // verus!
