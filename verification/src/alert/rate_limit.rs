//! Rate limiting for webhook alerts.
use vstd::prelude::*;
use crate::text::{owned, str_eq};
use crate::clock::{duration_from_nanos, duration_length, duration_nanos, instant_now, max_duration_nanos, nanos_since};
use std::time::{Duration, Instant};

verus! {

/// Cloning a `Duration` (a `Copy` type) gives an equal value.
pub assume_specification[ <std::time::Duration as Clone>::clone ](d: &std::time::Duration) -> (r: std::time::Duration)
    ensures
        r == *d,
;

/// One hour in nanoseconds.
pub open spec fn hour_nanos() -> u128 {
    3_600_000_000_000u128
}

/// Time elapsed from `earlier` to `now`, zero if `now` is earlier
/// (`Instant::duration_since` saturates).
pub open spec fn elapsed(now: u128, earlier: u128) -> u128 {
    if now >= earlier {
        (now - earlier) as u128
    } else {
        0
    }
}

/// The time of the last alert for a condition: the last entry with that key.
pub open spec fn stamp_of(v: Seq<(String, u128)>, k: Seq<char>) -> Option<u128>
    decreases v.len(),
{
    if v.len() == 0 {
        None
    } else if v.last().0@ == k {
        Some(v.last().1)
    } else {
        stamp_of(v.drop_last(), k)
    }
}

/// The outcome of a rate limit check, with remaining times in nanoseconds.
#[derive(Debug, Clone, PartialEq, Eq)]
pub enum RateLimitDecision {
    /// Alert is allowed.
    Allowed,
    /// Global cooldown not elapsed.
    GlobalCooldown { remaining: u128 },
    /// Per-condition cooldown not elapsed.
    ConditionCooldown { condition: String, remaining: u128 },
    /// Hourly limit reached.
    HourlyLimitReached { remaining: u128 },
}

/// Rate limiter using cooldowns and hourly limits.
///
/// Times are nanoseconds on the monotonic clock, counted from `origin`.
#[derive(Debug)]
pub struct RateLimiter {
    /// Origin of the limiter's clock readings.
    origin: Instant,
    /// Global cooldown between any alerts.
    global_cooldown: u128,
    /// Per-condition cooldown.
    per_condition_cooldown: u128,
    /// Maximum alerts per hour (0 = unlimited).
    max_per_hour: usize,
    /// Last alert time for global limiting.
    last_alert: Option<u128>,
    /// Last alert time per condition type.
    condition_timestamps: Vec<(String, u128)>,
    /// Alert count in the current hour window.
    hourly_count: usize,
    /// Start of the hour window.
    hour_start: u128,
}

/// What a check at time `now` decides, as `RateLimiter::can_alert` orders
/// the checks: the global cooldown, then the hourly limit, then the cooldown of
/// the condition.
pub open spec fn decide(
    global_cooldown: u128,
    per_condition_cooldown: u128,
    max_per_hour: usize,
    last_alert: Option<u128>,
    stamps: Seq<(String, u128)>,
    hourly_count: usize,
    hour_start: u128,
    condition: Seq<char>,
    now: u128,
) -> RateLimitDecisionView {
    if last_alert is Some && elapsed(now, last_alert->0) < global_cooldown {
        RateLimitDecisionView::GlobalCooldown {
            remaining: global_cooldown - elapsed(now, last_alert->0),
        }
    } else if max_per_hour > 0 && elapsed(now, hour_start) < hour_nanos() && hourly_count
        >= max_per_hour {
        RateLimitDecisionView::HourlyLimitReached { remaining: hour_nanos() - elapsed(now, hour_start) }
    } else if stamp_of(stamps, condition) is Some && elapsed(now, stamp_of(stamps, condition)->0)
        < per_condition_cooldown {
        RateLimitDecisionView::ConditionCooldown {
            condition,
            remaining: per_condition_cooldown - elapsed(now, stamp_of(stamps, condition)->0),
        }
    } else {
        RateLimitDecisionView::Allowed
    }
}

/// The mathematical form of a `RateLimitDecision`.
pub enum RateLimitDecisionView {
    Allowed,
    GlobalCooldown { remaining: int },
    ConditionCooldown { condition: Seq<char>, remaining: int },
    HourlyLimitReached { remaining: int },
}

impl View for RateLimitDecision {
    type V = RateLimitDecisionView;

    open spec fn view(&self) -> RateLimitDecisionView {
        match self {
            RateLimitDecision::Allowed => RateLimitDecisionView::Allowed,
            RateLimitDecision::GlobalCooldown { remaining } => RateLimitDecisionView::GlobalCooldown {
                remaining: *remaining as int,
            },
            RateLimitDecision::ConditionCooldown { condition, remaining } => RateLimitDecisionView::ConditionCooldown {
                condition: condition@,
                remaining: *remaining as int,
            },
            RateLimitDecision::HourlyLimitReached { remaining } => RateLimitDecisionView::HourlyLimitReached {
                remaining: *remaining as int,
            },
        }
    }
}

/// Defaults: 30 s global cooldown, 60 s per condition, 50 alerts per hour.
pub open spec fn default_global_cooldown_nanos() -> u128 {
    30_000_000_000u128
}

/// The default per-condition cooldown.
pub open spec fn default_per_condition_cooldown_nanos() -> u128 {
    60_000_000_000u128
}

impl RateLimiter {
    /// Both cooldowns fit in a `Duration`.
    pub closed spec fn wf(&self) -> bool {
        self.global_cooldown <= max_duration_nanos() && self.per_condition_cooldown <= max_duration_nanos()
    }

    /// The global cooldown, in nanoseconds.
    pub closed spec fn global_cooldown_spec(&self) -> u128 {
        self.global_cooldown
    }

    /// The per-condition cooldown, in nanoseconds.
    pub closed spec fn per_condition_cooldown_spec(&self) -> u128 {
        self.per_condition_cooldown
    }

    /// The hourly limit (0 = unlimited).
    pub closed spec fn max_per_hour_spec(&self) -> usize {
        self.max_per_hour
    }

    /// The time of the last alert, if any.
    pub closed spec fn last_alert_spec(&self) -> Option<u128> {
        self.last_alert
    }

    /// The time of the last alert for a condition, if any.
    pub closed spec fn stamp(&self, condition: Seq<char>) -> Option<u128> {
        stamp_of(self.condition_timestamps@, condition)
    }

    /// The number of alerts in the current hour window.
    pub closed spec fn hourly_count_spec(&self) -> usize {
        self.hourly_count
    }

    /// The start of the current hour window.
    pub closed spec fn hour_start_spec(&self) -> u128 {
        self.hour_start
    }

    /// What a check for `condition` at time `now` decides.
    pub closed spec fn decision(&self, condition: Seq<char>, now: u128) -> RateLimitDecisionView {
        decide(
            self.global_cooldown,
            self.per_condition_cooldown,
            self.max_per_hour,
            self.last_alert,
            self.condition_timestamps@,
            self.hourly_count,
            self.hour_start,
            condition,
            now,
        )
    }

    /// Whether the alerts of the hour window that `now` falls in have reached
    /// the hourly limit (never, with no limit).
    pub open spec fn hourly_limit_reached(&self, now: u128) -> bool {
        self.max_per_hour_spec() > 0 && elapsed(now, self.hour_start_spec()) < hour_nanos()
            && self.hourly_count_spec() >= self.max_per_hour_spec()
    }

    /// The checks of a rate limiter in order, over its public state: the
    /// global cooldown first, then the hourly limit, then the condition's own
    /// cooldown; otherwise the alert is let through.  Each hold gives the time
    /// it still lasts.
    pub open spec fn checks(&self, condition: Seq<char>, now: u128) -> RateLimitDecisionView {
        if self.last_alert_spec() is Some && elapsed(now, self.last_alert_spec()->0) < self.global_cooldown_spec() {
            RateLimitDecisionView::GlobalCooldown {
                remaining: self.global_cooldown_spec() - elapsed(now, self.last_alert_spec()->0),
            }
        } else if self.hourly_limit_reached(now) {
            RateLimitDecisionView::HourlyLimitReached { remaining: hour_nanos() - elapsed(now, self.hour_start_spec()) }
        } else if self.stamp(condition) is Some && elapsed(now, self.stamp(condition)->0)
            < self.per_condition_cooldown_spec() {
            RateLimitDecisionView::ConditionCooldown {
                condition,
                remaining: self.per_condition_cooldown_spec() - elapsed(now, self.stamp(condition)->0),
            }
        } else {
            RateLimitDecisionView::Allowed
        }
    }

    /// The state after an alert for `condition` was recorded at `now`.
    pub open spec fn recorded(old: RateLimiter, new: RateLimiter, condition: Seq<char>, now: u128) -> bool {
        &&& new.global_cooldown_spec() == old.global_cooldown_spec()
        &&& new.per_condition_cooldown_spec() == old.per_condition_cooldown_spec()
        &&& new.max_per_hour_spec() == old.max_per_hour_spec()
        &&& new.last_alert_spec() == Some(now)
        &&& new.stamp(condition) == Some(now)
        &&& forall|c: Seq<char>| c != condition ==> new.stamp(c) == old.stamp(c)
        &&& if elapsed(now, old.hour_start_spec()) >= hour_nanos() {
            new.hour_start_spec() == now && new.hourly_count_spec() == 1
        } else {
            new.hour_start_spec() == old.hour_start_spec() && new.hourly_count_spec()
                == old.hourly_count_spec() + 1
        }
    }

    /// Create a new rate limiter with default settings.
    pub fn new() -> (r: RateLimiter)
        ensures
            r.wf(),
            r.global_cooldown_spec() == default_global_cooldown_nanos(),
            r.per_condition_cooldown_spec() == default_per_condition_cooldown_nanos(),
            r.max_per_hour_spec() == 50,
            r.last_alert_spec() is None,
            forall|c: Seq<char>| r.stamp(c) is None,
            r.hourly_count_spec() == 0,
            r.hour_start_spec() == 0,
    {
        RateLimiter {
            origin: instant_now(),
            global_cooldown: 30_000_000_000,
            per_condition_cooldown: 60_000_000_000,
            max_per_hour: 50,
            last_alert: None,
            condition_timestamps: Vec::new(),
            hourly_count: 0,
            hour_start: 0,
        }
    }

    /// Set the global cooldown, in nanoseconds.
    pub fn with_global_cooldown_nanos(self, nanos: u128) -> (r: RateLimiter)
        requires
            self.wf(),
            nanos <= max_duration_nanos(),
        ensures
            r.wf(),
            r.global_cooldown_spec() == nanos,
            r.per_condition_cooldown_spec() == self.per_condition_cooldown_spec(),
            r.max_per_hour_spec() == self.max_per_hour_spec(),
            r.last_alert_spec() == self.last_alert_spec(),
            forall|c: Seq<char>| r.stamp(c) == self.stamp(c),
            r.hourly_count_spec() == self.hourly_count_spec(),
            r.hour_start_spec() == self.hour_start_spec(),
    {
        RateLimiter { global_cooldown: nanos, ..self }
    }

    /// Set the per-condition cooldown, in nanoseconds.
    pub fn with_per_condition_cooldown_nanos(self, nanos: u128) -> (r: RateLimiter)
        requires
            self.wf(),
            nanos <= max_duration_nanos(),
        ensures
            r.wf(),
            r.global_cooldown_spec() == self.global_cooldown_spec(),
            r.per_condition_cooldown_spec() == nanos,
            r.max_per_hour_spec() == self.max_per_hour_spec(),
            r.last_alert_spec() == self.last_alert_spec(),
            forall|c: Seq<char>| r.stamp(c) == self.stamp(c),
            r.hourly_count_spec() == self.hourly_count_spec(),
            r.hour_start_spec() == self.hour_start_spec(),
    {
        RateLimiter { per_condition_cooldown: nanos, ..self }
    }

    /// Set global cooldown between any alerts.
    pub fn with_global_cooldown(self, cooldown: Duration) -> (r: RateLimiter)
        requires
            self.wf(),
        ensures
            r.wf(),
            r.global_cooldown_spec() == duration_length(cooldown),
            r.per_condition_cooldown_spec() == self.per_condition_cooldown_spec(),
            r.max_per_hour_spec() == self.max_per_hour_spec(),
            r.last_alert_spec() == self.last_alert_spec(),
            forall|c: Seq<char>| r.stamp(c) == self.stamp(c),
            r.hourly_count_spec() == self.hourly_count_spec(),
            r.hour_start_spec() == self.hour_start_spec(),
    {
        let n = duration_nanos(cooldown);
        self.with_global_cooldown_nanos(n)
    }

    /// Set per-condition cooldown.
    pub fn with_per_condition_cooldown(self, cooldown: Duration) -> (r: RateLimiter)
        requires
            self.wf(),
        ensures
            r.wf(),
            r.global_cooldown_spec() == self.global_cooldown_spec(),
            r.per_condition_cooldown_spec() == duration_length(cooldown),
            r.max_per_hour_spec() == self.max_per_hour_spec(),
            r.last_alert_spec() == self.last_alert_spec(),
            forall|c: Seq<char>| r.stamp(c) == self.stamp(c),
            r.hourly_count_spec() == self.hourly_count_spec(),
            r.hour_start_spec() == self.hour_start_spec(),
    {
        let n = duration_nanos(cooldown);
        self.with_per_condition_cooldown_nanos(n)
    }

    /// Set maximum alerts per hour (0 = unlimited).
    pub fn with_max_per_hour(self, max: usize) -> (r: RateLimiter)
        requires
            self.wf(),
        ensures
            r.wf(),
            r.global_cooldown_spec() == self.global_cooldown_spec(),
            r.per_condition_cooldown_spec() == self.per_condition_cooldown_spec(),
            r.max_per_hour_spec() == max,
            r.last_alert_spec() == self.last_alert_spec(),
            forall|c: Seq<char>| r.stamp(c) == self.stamp(c),
            r.hourly_count_spec() == self.hourly_count_spec(),
            r.hour_start_spec() == self.hour_start_spec(),
    {
        RateLimiter { max_per_hour: max, ..self }
    }

    /// The index of the last entry for `condition`.
    fn find_stamp(&self, condition: &str) -> (r: Option<usize>)
        ensures
            match r {
                Some(i) => i < self.condition_timestamps@.len()
                    && self.condition_timestamps@[i as int].0@ == condition@
                    && forall|j: int| i < j < self.condition_timestamps@.len() ==> #[trigger] self.condition_timestamps@[j].0@ != condition@,
                None => forall|j: int| 0 <= j < self.condition_timestamps@.len() ==> #[trigger] self.condition_timestamps@[j].0@ != condition@,
            },
    {
        let mut i = self.condition_timestamps.len();
        while i > 0
            invariant
                i <= self.condition_timestamps@.len(),
                forall|j: int| i <= j < self.condition_timestamps@.len() ==> #[trigger] self.condition_timestamps@[j].0@ != condition@,
            decreases i,
        {
            if str_eq(self.condition_timestamps[i - 1].0.as_str(), condition) {
                return Some(i - 1);
            }
            i -= 1;
        }
        None
    }

    /// The time of the last alert for `condition`.
    fn stamp_exec(&self, condition: &str) -> (r: Option<u128>)
        ensures
            r == self.stamp(condition@),
    {
        let r = self.find_stamp(condition);
        proof {
            lemma_stamp_found(self.condition_timestamps@, condition@, r);
        }
        match r {
            Some(i) => Some(self.condition_timestamps[i].1),
            None => None,
        }
    }

    /// What a check for `condition` at time `now` decides.
    pub fn decide_at(&self, condition: &str, now: u128) -> (r: RateLimitDecision)
        ensures
            r@ == self.decision(condition@, now),
            r@ == self.checks(condition@, now),
    {
        proof {
            law_decision(*self, condition@, now);
        }
        if let Some(last) = self.last_alert {
            let e = elapsed_exec(now, last);
            if e < self.global_cooldown {
                return RateLimitDecision::GlobalCooldown { remaining: self.global_cooldown - e };
            }
        }
        if self.max_per_hour > 0 {
            let he = elapsed_exec(now, self.hour_start);
            if he < 3_600_000_000_000u128 && self.hourly_count >= self.max_per_hour {
                return RateLimitDecision::HourlyLimitReached { remaining: 3_600_000_000_000u128 - he };
            }
        }
        if let Some(last) = self.stamp_exec(condition) {
            let e = elapsed_exec(now, last);
            if e < self.per_condition_cooldown {
                return RateLimitDecision::ConditionCooldown {
                    condition: owned(condition),
                    remaining: self.per_condition_cooldown - e,
                };
            }
        }
        RateLimitDecision::Allowed
    }

    /// The current time on the limiter's clock, in nanoseconds since its
    /// origin: at most the longest `Duration`; the value depends on the time
    /// of the call.
    pub fn now(&self) -> (r: u128)
        ensures
            r <= max_duration_nanos(),
    {
        nanos_since(&self.origin)
    }

    /// Check if an alert can be sent for the given condition now.
    pub fn can_alert(&self, condition: &str) -> (r: RateLimitResult)
        requires
            self.wf(),
        ensures
            exists|now: u128| r.matches_decision(self.decision(condition@, now)) && r.matches_decision(self.checks(condition@, now)),
    {
        let now = nanos_since(&self.origin);
        let d = self.decide_at(condition, now);
        RateLimitResult::from_decision(d)
    }

    /// Record that an alert for `condition` was sent at time `now`.
    pub fn record_alert_at(&mut self, condition: &str, now: u128)
        requires
            old(self).wf(),
            old(self).hourly_count_spec() < usize::MAX,
        ensures
            final(self).wf(),
            RateLimiter::recorded(*old(self), *final(self), condition@, now),
    {
        self.last_alert = Some(now);
        let found = self.find_stamp(condition);
        let ghost before = self.condition_timestamps@;
        match found {
            Some(i) => {
                self.condition_timestamps.set(i, (owned(condition), now));
                proof {
                    lemma_stamp_update(before, condition@, i as int, self.condition_timestamps@[i as int]);
                    assert(self.condition_timestamps@ == before.update(i as int, self.condition_timestamps@[i as int]));
                }
            }
            None => {
                self.condition_timestamps.push((owned(condition), now));
                proof {
                    assert(self.condition_timestamps@.drop_last() =~= before);
                    assert forall|c: Seq<char>| c != condition@ implies stamp_of(self.condition_timestamps@, c) == stamp_of(before, c) by {}
                }
            }
        }
        if elapsed_exec(now, self.hour_start) >= 3_600_000_000_000u128 {
            self.hour_start = now;
            self.hourly_count = 0;
        }
        self.hourly_count = self.hourly_count + 1;
    }

    /// Record that an alert was sent for `condition`.
    pub fn record_alert(&mut self, condition: &str)
        requires
            old(self).wf(),
            old(self).hourly_count_spec() < usize::MAX,
        ensures
            final(self).wf(),
            exists|now: u128| RateLimiter::recorded(*old(self), *final(self), condition@, now),
    {
        let now = nanos_since(&self.origin);
        self.record_alert_at(condition, now);
    }

    /// Get the current hourly alert count.
    pub fn hourly_count(&self) -> (r: usize)
        ensures
            r == self.hourly_count_spec(),
    {
        self.hourly_count
    }

    /// Reset all rate limiting state at time `now`.
    pub fn reset_at(&mut self, now: u128)
        requires
            old(self).wf(),
        ensures
            final(self).wf(),
            final(self).global_cooldown_spec() == old(self).global_cooldown_spec(),
            final(self).per_condition_cooldown_spec() == old(self).per_condition_cooldown_spec(),
            final(self).max_per_hour_spec() == old(self).max_per_hour_spec(),
            final(self).last_alert_spec() is None,
            forall|c: Seq<char>| final(self).stamp(c) is None,
            final(self).hourly_count_spec() == 0,
            final(self).hour_start_spec() == now,
    {
        self.last_alert = None;
        self.condition_timestamps = Vec::new();
        self.hourly_count = 0;
        self.hour_start = now;
    }

    /// Reset all rate limiting state.
    pub fn reset(&mut self)
        requires
            old(self).wf(),
        ensures
            final(self).wf(),
            final(self).global_cooldown_spec() == old(self).global_cooldown_spec(),
            final(self).per_condition_cooldown_spec() == old(self).per_condition_cooldown_spec(),
            final(self).max_per_hour_spec() == old(self).max_per_hour_spec(),
            final(self).last_alert_spec() is None,
            forall|c: Seq<char>| final(self).stamp(c) is None,
            final(self).hourly_count_spec() == 0,
    {
        let now = nanos_since(&self.origin);
        self.reset_at(now);
    }
}

impl Default for RateLimiter {
    fn default() -> (r: RateLimiter)
        ensures
            r.wf(),
            r.global_cooldown_spec() == default_global_cooldown_nanos(),
            r.per_condition_cooldown_spec() == default_per_condition_cooldown_nanos(),
            r.max_per_hour_spec() == 50,
            r.last_alert_spec() is None,
            forall|c: Seq<char>| r.stamp(c) is None,
            r.hourly_count_spec() == 0,
    {
        RateLimiter::new()
    }
}

/// `elapsed` in executable form.
fn elapsed_exec(now: u128, earlier: u128) -> (r: u128)
    ensures
        r == elapsed(now, earlier),
{
    if now >= earlier {
        now - earlier
    } else {
        0
    }
}

proof fn lemma_stamp_found(v: Seq<(String, u128)>, k: Seq<char>, r: Option<usize>)
    requires
        match r {
            Some(i) => i < v.len() && v[i as int].0@ == k && forall|j: int| i < j < v.len() ==> #[trigger] v[j].0@ != k,
            None => forall|j: int| 0 <= j < v.len() ==> #[trigger] v[j].0@ != k,
        },
    ensures
        stamp_of(v, k) == match r {
            Some(i) => Some(v[i as int].1),
            None => None,
        },
    decreases v.len(),
{
    if v.len() > 0 {
        match r {
            Some(i) => {
                if i < v.len() - 1 {
                    assert(v.last() == v[v.len() - 1]);
                    lemma_stamp_found(v.drop_last(), k, r);
                }
            }
            None => {
                assert(v.last() == v[v.len() - 1]);
                lemma_stamp_found(v.drop_last(), k, r);
            }
        }
    }
}

proof fn lemma_stamp_update(v: Seq<(String, u128)>, k: Seq<char>, i: int, e: (String, u128))
    requires
        0 <= i < v.len(),
        v[i].0@ == k,
        e.0@ == k,
        forall|j: int| i < j < v.len() ==> #[trigger] v[j].0@ != k,
    ensures
        stamp_of(v.update(i, e), k) == Some(e.1),
        forall|c: Seq<char>| c != k ==> stamp_of(v.update(i, e), c) == stamp_of(v, c),
    decreases v.len(),
{
    let w = v.update(i, e);
    if i < v.len() - 1 {
        lemma_stamp_update(v.drop_last(), k, i, e);
        assert(w.drop_last() =~= v.drop_last().update(i, e));
        assert(w.last() == v.last());
        assert(v.last() == v[v.len() - 1]);
        assert forall|c: Seq<char>| c != k implies stamp_of(w, c) == stamp_of(v, c) by {
            assert(stamp_of(w.drop_last(), c) == stamp_of(v.drop_last(), c));
        }
    } else {
        assert(w.drop_last() =~= v.drop_last());
        assert(v.last() == v[i]);
        assert forall|c: Seq<char>| c != k implies stamp_of(w, c) == stamp_of(v, c) by {}
    }
}

/// Result of a rate limit check.
#[derive(Debug, Clone)]
pub enum RateLimitResult {
    /// Alert is allowed.
    Allowed,
    /// Global cooldown not elapsed.
    GlobalCooldown { remaining: Duration },
    /// Per-condition cooldown not elapsed.
    ConditionCooldown { condition: String, remaining: Duration },
    /// Hourly limit reached.
    HourlyLimitReached { remaining: Duration },
}

impl RateLimitResult {
    /// The result has the variant of `d`, its condition, and remaining
    /// durations of the lengths that `d` gives in nanoseconds.
    pub open spec fn matches_decision(&self, d: RateLimitDecisionView) -> bool {
        match (*self, d) {
            (RateLimitResult::Allowed, RateLimitDecisionView::Allowed) => true,
            (
                RateLimitResult::GlobalCooldown { remaining },
                RateLimitDecisionView::GlobalCooldown { remaining: n },
            ) => duration_length(remaining) == n,
            (
                RateLimitResult::ConditionCooldown { condition, remaining },
                RateLimitDecisionView::ConditionCooldown { condition: c, remaining: n },
            ) => condition@ == c && duration_length(remaining) == n,
            (
                RateLimitResult::HourlyLimitReached { remaining },
                RateLimitDecisionView::HourlyLimitReached { remaining: n },
            ) => duration_length(remaining) == n,
            _ => false,
        }
    }

    /// Converts a decision into a result, with the remaining times as `Duration`s.
    pub fn from_decision(d: RateLimitDecision) -> (r: RateLimitResult)
        requires
            match d {
                RateLimitDecision::GlobalCooldown { remaining } => remaining <= max_duration_nanos(),
                RateLimitDecision::ConditionCooldown { remaining, .. } => remaining <= max_duration_nanos(),
                RateLimitDecision::HourlyLimitReached { remaining } => remaining <= max_duration_nanos(),
                RateLimitDecision::Allowed => true,
            },
        ensures
            r.matches_decision(d@),
    {
        match d {
            RateLimitDecision::Allowed => RateLimitResult::Allowed,
            RateLimitDecision::GlobalCooldown { remaining } => RateLimitResult::GlobalCooldown {
                remaining: duration_from_nanos(remaining),
            },
            RateLimitDecision::ConditionCooldown { condition, remaining } => RateLimitResult::ConditionCooldown {
                condition,
                remaining: duration_from_nanos(remaining),
            },
            RateLimitDecision::HourlyLimitReached { remaining } => RateLimitResult::HourlyLimitReached {
                remaining: duration_from_nanos(remaining),
            },
        }
    }

    /// Returns true if the alert is allowed.
    pub fn is_allowed(&self) -> (r: bool)
        ensures
            r == (*self is Allowed),
    {
        match self {
            RateLimitResult::Allowed => true,
            _ => false,
        }
    }
}

/// A limiter that has recorded no alert lets the first one through.
pub proof fn law_first_alert_allowed(lim: RateLimiter, condition: Seq<char>, now: u128)
    requires
        lim.last_alert_spec() is None,
        lim.stamp(condition) is None,
        lim.hourly_count_spec() == 0,
    ensures
        lim.decision(condition, now) is Allowed,
{
}

/// Right after an alert, any alert within the global cooldown is held back by
/// it.
pub proof fn law_global_cooldown_blocks(
    old: RateLimiter,
    new: RateLimiter,
    condition: Seq<char>,
    other: Seq<char>,
    at: u128,
    later: u128,
)
    requires
        RateLimiter::recorded(old, new, condition, at),
        at <= later,
        later - at < new.global_cooldown_spec(),
    ensures
        new.decision(other, later) matches RateLimitDecisionView::GlobalCooldown { remaining }
            && remaining == new.global_cooldown_spec() - (later - at),
{
}

/// Once the global cooldown has passed, an alert of the same condition within
/// its own cooldown is held back by that, while the hourly limit is not
/// reached.
pub proof fn law_condition_cooldown_blocks(
    old: RateLimiter,
    new: RateLimiter,
    condition: Seq<char>,
    at: u128,
    later: u128,
)
    requires
        RateLimiter::recorded(old, new, condition, at),
        at <= later,
        new.global_cooldown_spec() <= later - at < new.per_condition_cooldown_spec(),
        !new.hourly_limit_reached(later),
    ensures
        new.decision(condition, later) matches RateLimitDecisionView::ConditionCooldown { condition: c, remaining }
            && c == condition && remaining == new.per_condition_cooldown_spec() - (later - at),
{
}

/// Conditions are limited independently: an alert of one condition does not
/// start the cooldown of another.
pub proof fn law_conditions_independent(
    old: RateLimiter,
    new: RateLimiter,
    condition: Seq<char>,
    other: Seq<char>,
    at: u128,
    later: u128,
)
    requires
        RateLimiter::recorded(old, new, condition, at),
        other != condition,
        old.stamp(other) is None,
        at <= later,
        new.global_cooldown_spec() <= later - at,
        !new.hourly_limit_reached(later),
    ensures
        new.decision(other, later) is Allowed,
{
}

/// Right after an alert, the same condition is held back, by whichever limit
/// applies first, until both the global and its own cooldown have passed,
/// whatever the hourly limit.
pub proof fn law_recorded_condition_held(
    old: RateLimiter,
    new: RateLimiter,
    condition: Seq<char>,
    at: u128,
    later: u128,
)
    requires
        RateLimiter::recorded(old, new, condition, at),
        at <= later,
        later - at < new.global_cooldown_spec() || later - at < new.per_condition_cooldown_spec(),
    ensures
        !(new.decision(condition, later) is Allowed),
{
}

/// When the alerts of the current hour have reached the limit, and the global
/// cooldown is over, the hourly limit holds the next one back until the hour
/// ends.
pub proof fn law_hourly_limit_blocks(lim: RateLimiter, condition: Seq<char>, now: u128)
    requires
        lim.max_per_hour_spec() > 0,
        lim.hourly_count_spec() >= lim.max_per_hour_spec(),
        elapsed(now, lim.hour_start_spec()) < hour_nanos(),
        lim.last_alert_spec() matches Some(t) ==> elapsed(now, t) >= lim.global_cooldown_spec(),
    ensures
        lim.decision(condition, now) matches RateLimitDecisionView::HourlyLimitReached { remaining }
            && remaining == hour_nanos() - elapsed(now, lim.hour_start_spec()),
{
}

/// With no cooldowns and no hourly limit, every alert is let through.
pub proof fn law_unlimited_allows_all(lim: RateLimiter, condition: Seq<char>, now: u128)
    requires
        lim.global_cooldown_spec() == 0,
        lim.per_condition_cooldown_spec() == 0,
        lim.max_per_hour_spec() == 0,
    ensures
        lim.decision(condition, now) is Allowed,
{
}

/// What recording an alert for `condition` at `at` does: it is counted in
/// the hour window (one more while the hour lasts, else one in a window that
/// starts at `at`); until the global cooldown has passed every condition is
/// held back by it; the same condition is not let through before both its own
/// and the global cooldown have passed, and, once the global cooldown is over
/// and the hourly limit is not reached, it is held back by its own cooldown;
/// other conditions keep their times and the settings stay.
pub proof fn law_record_alert(
    old: RateLimiter,
    new: RateLimiter,
    condition: Seq<char>,
    other: Seq<char>,
    at: u128,
    later: u128,
)
    requires
        RateLimiter::recorded(old, new, condition, at),
        at <= later,
    ensures
        new.hourly_count_spec() == if elapsed(at, old.hour_start_spec()) >= hour_nanos() {
            1
        } else {
            old.hourly_count_spec() + 1
        },
        later - at < new.global_cooldown_spec() ==> new.checks(other, later) == (RateLimitDecisionView::GlobalCooldown {
            remaining: new.global_cooldown_spec() - (later - at),
        }),
        later - at < new.global_cooldown_spec() || later - at < new.per_condition_cooldown_spec() ==> !(new.checks(
            condition,
            later,
        ) is Allowed),
        new.global_cooldown_spec() <= later - at < new.per_condition_cooldown_spec() && !new.hourly_limit_reached(later)
            ==> new.checks(condition, later) == (RateLimitDecisionView::ConditionCooldown {
            condition,
            remaining: new.per_condition_cooldown_spec() - (later - at),
        }),
        other != condition ==> new.stamp(other) == old.stamp(other),
        new.global_cooldown_spec() == old.global_cooldown_spec(),
        new.per_condition_cooldown_spec() == old.per_condition_cooldown_spec(),
        new.max_per_hour_spec() == old.max_per_hour_spec(),
{
}

/// Recording an alert counts it in the hour window: one more while the hour
/// lasts, or one in a new window that starts at the alert.
pub proof fn law_record_counts(old: RateLimiter, new: RateLimiter, condition: Seq<char>, at: u128)
    requires
        RateLimiter::recorded(old, new, condition, at),
    ensures
        new.hourly_count_spec() == if elapsed(at, old.hour_start_spec()) >= hour_nanos() {
            1
        } else {
            old.hourly_count_spec() + 1
        },
{
}

/// The decision of a check: the global cooldown first, then the hourly
/// limit, then the cooldown of the condition; otherwise the alert is let
/// through.  Each hold gives the time it still lasts.
pub proof fn law_decision(lim: RateLimiter, condition: Seq<char>, now: u128)
    ensures
        lim.decision(condition, now) == lim.checks(condition, now),
{
}

/// An alert recorded after the hour window has run out opens a new window
/// at its own time, holding that one alert; within the window it is counted
/// in.  So the hourly limit applies in every hour: with a limit of one, any
/// other alert in the hour after one that opened a window (once the global
/// cooldown is over) is held back until that hour ends.
pub proof fn law_record_opens_window(
    old: RateLimiter,
    new: RateLimiter,
    condition: Seq<char>,
    other: Seq<char>,
    at: u128,
    later: u128,
)
    requires
        RateLimiter::recorded(old, new, condition, at),
    ensures
        elapsed(at, old.hour_start_spec()) >= hour_nanos() ==> new.hour_start_spec() == at
            && new.hourly_count_spec() == 1,
        elapsed(at, old.hour_start_spec()) < hour_nanos() ==> new.hour_start_spec() == old.hour_start_spec()
            && new.hourly_count_spec() == old.hourly_count_spec() + 1,
        elapsed(at, old.hour_start_spec()) >= hour_nanos() && new.max_per_hour_spec() == 1 && at <= later && later - at
            < hour_nanos() && later - at >= new.global_cooldown_spec() ==> new.checks(other, later)
            == (RateLimitDecisionView::HourlyLimitReached { remaining: hour_nanos() - (later - at) }),
{
}

} // verus!
