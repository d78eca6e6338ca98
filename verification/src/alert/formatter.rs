//! Alert payloads, webhook services and formatting utilities.
use vstd::prelude::*;
use vstd::string::StringSliceAdditionalSpecFns;
use vstd::utf8::{decode_utf8, encode_utf8, is_char_boundary, valid_utf8};
use crate::alert::condition::AlertSeverity;
use crate::text::{contains, owned, push_str, seq_contains, str_eq, zero_padded, zero_padded_string};

verus! {

broadcast use vstd::utf8::encode_utf8_valid_utf8, vstd::utf8::encode_utf8_decode_utf8,
    vstd::utf8::is_char_boundary_start_end_of_seq;

/// The value of the last entry with key `k`.
pub open spec fn lookup_last(v: Seq<(String, String)>, k: Seq<char>) -> Option<Seq<char>>
    decreases v.len(),
{
    if v.len() == 0 {
        None
    } else if v.last().0@ == k {
        Some(v.last().1@)
    } else {
        lookup_last(v.drop_last(), k)
    }
}

/// Context fields of an alert: a map from keys to values, in insertion order.
#[derive(Debug, Clone)]
pub struct FieldMap {
    entries: Vec<(String, String)>,
}

impl FieldMap {
    /// The value of a key.
    pub closed spec fn lookup(&self, k: Seq<char>) -> Option<Seq<char>> {
        lookup_last(self.entries@, k)
    }

    /// The keys and values, in insertion order.
    pub closed spec fn entries_view(&self) -> Seq<(Seq<char>, Seq<char>)> {
        self.entries@.map_values(|e: (String, String)| (e.0@, e.1@))
    }

    /// No key occurs twice.
    pub closed spec fn wf(&self) -> bool {
        forall|i: int, j: int| 0 <= i < j < self.entries@.len() ==> (#[trigger] self.entries@[i]).0@ != (#[trigger] self.entries@[j]).0@
    }

    /// An empty map.
    pub fn new() -> (r: FieldMap)
        ensures
            r.wf(),
            r.entries_view() == Seq::<(Seq<char>, Seq<char>)>::empty(),
            forall|k: Seq<char>| r.lookup(k) is None,
    {
        let r = FieldMap { entries: Vec::new() };
        assert(r.entries_view() =~= Seq::<(Seq<char>, Seq<char>)>::empty());
        r
    }

    /// The position of a key.
    fn position(&self, k: &str) -> (r: Option<usize>)
        ensures
            match r {
                Some(i) => i < self.entries@.len() && self.entries@[i as int].0@ == k@,
                None => forall|j: int| 0 <= j < self.entries@.len() ==> #[trigger] self.entries@[j].0@ != k@,
            },
    {
        let mut i: usize = 0;
        while i < self.entries.len()
            invariant
                i <= self.entries@.len(),
                forall|j: int| 0 <= j < i ==> #[trigger] self.entries@[j].0@ != k@,
            decreases self.entries@.len() - i,
        {
            if str_eq(self.entries[i].0.as_str(), k) {
                return Some(i);
            }
            i += 1;
        }
        None
    }

    /// Sets the value of a key, keeping its position if it is present and
    /// appending it otherwise.
    pub fn insert(&mut self, k: String, v: String)
        requires
            old(self).wf(),
        ensures
            final(self).wf(),
            final(self).lookup(k@) == Some(v@),
            forall|c: Seq<char>| c != k@ ==> final(self).lookup(c) == old(self).lookup(c),
            match find_key(old(self).entries_view(), k@) {
                Some(i) => final(self).entries_view() == old(self).entries_view().update(i, (k@, v@)),
                None => final(self).entries_view() == old(self).entries_view().push((k@, v@)),
            },
    {
        let ghost before = self.entries@;
        let p = self.position(k.as_str());
        let ghost kv = k@;
        let ghost vv = v@;
        proof {
            lemma_find_key(self.entries@, k@, p);
        }
        match p {
            Some(i) => {
                self.entries.set(i, (k, v));
                proof {
                    lemma_lookup_update(before, kv, i as int, self.entries@[i as int]);
                    assert(self.entries_view() =~= old(self).entries_view().update(i as int, (kv, vv)));
                    assert forall|a: int, b: int| 0 <= a < b < self.entries@.len() implies (#[trigger] self.entries@[a]).0@ != (#[trigger] self.entries@[b]).0@ by {
                        if a != i && b != i {
                            assert(before[a] == self.entries@[a] && before[b] == self.entries@[b]);
                        } else if a == i {
                            assert(before[b] == self.entries@[b]);
                            assert(before[a].0@ == kv);
                        } else {
                            assert(before[a] == self.entries@[a]);
                            assert(before[b].0@ == kv);
                        }
                    }
                }
            },
            None => {
                self.entries.push((k, v));
                proof {
                    assert(self.entries@.drop_last() =~= before);
                    assert forall|c: Seq<char>| c != kv implies lookup_last(self.entries@, c) == lookup_last(before, c) by {}
                    assert(self.entries_view() =~= old(self).entries_view().push((kv, vv)));
                }
            },
        }
    }

    /// The value of a key.
    pub fn get(&self, k: &str) -> (r: Option<&String>)
        requires
            self.wf(),
        ensures
            match r {
                Some(v) => self.lookup(k@) == Some(v@),
                None => self.lookup(k@) is None,
            },
    {
        let p = self.position(k);
        proof {
            lemma_unique_position(self.entries@, k@, p);
        }
        match p {
            Some(i) => Some(&self.entries[i].1),
            None => None,
        }
    }

    /// The number of keys.
    pub fn len(&self) -> (r: usize)
        ensures
            r == self.entries_view().len(),
    {
        self.entries.len()
    }

    /// Whether there are no keys.
    pub fn is_empty(&self) -> (r: bool)
        ensures
            r == (self.entries_view().len() == 0),
    {
        self.entries.len() == 0
    }

    /// The key and value at a position.
    pub fn entry(&self, i: usize) -> (r: (&String, &String))
        requires
            i < self.entries_view().len(),
        ensures
            (r.0@, r.1@) == self.entries_view()[i as int],
    {
        (&self.entries[i].0, &self.entries[i].1)
    }
}

/// The position of key `k` in a sequence of pairs, if present.
pub open spec fn find_key(v: Seq<(Seq<char>, Seq<char>)>, k: Seq<char>) -> Option<int> {
    if exists|i: int| 0 <= i < v.len() && v[i].0 == k {
        Some(choose|i: int| 0 <= i < v.len() && v[i].0 == k)
    } else {
        None
    }
}

proof fn lemma_find_key(v: Seq<(String, String)>, k: Seq<char>, p: Option<usize>)
    requires
        forall|i: int, j: int| 0 <= i < j < v.len() ==> (#[trigger] v[i]).0@ != (#[trigger] v[j]).0@,
        match p {
            Some(i) => i < v.len() && v[i as int].0@ == k,
            None => forall|j: int| 0 <= j < v.len() ==> #[trigger] v[j].0@ != k,
        },
    ensures
        find_key(v.map_values(|e: (String, String)| (e.0@, e.1@)), k) == match p {
            Some(i) => Some(i as int),
            None => None::<int>,
        },
{
    let w = v.map_values(|e: (String, String)| (e.0@, e.1@));
    match p {
        Some(i) => {
            assert(w[i as int].0 == k);
            let c = choose|c: int| 0 <= c < w.len() && w[c].0 == k;
            if c != i as int {
                assert(v[c].0@ == k);
                if c < i {
                    assert(v[c].0@ != v[i as int].0@);
                } else {
                    assert(v[i as int].0@ != v[c].0@);
                }
            }
        },
        None => {
            assert forall|j: int| 0 <= j < w.len() implies w[j].0 != k by {
                assert(v[j].0@ != k);
            }
        },
    }
}

proof fn lemma_unique_position(v: Seq<(String, String)>, k: Seq<char>, p: Option<usize>)
    requires
        forall|i: int, j: int| 0 <= i < j < v.len() ==> (#[trigger] v[i]).0@ != (#[trigger] v[j]).0@,
        match p {
            Some(i) => i < v.len() && v[i as int].0@ == k,
            None => forall|j: int| 0 <= j < v.len() ==> #[trigger] v[j].0@ != k,
        },
    ensures
        lookup_last(v, k) == match p {
            Some(i) => Some(v[i as int].1@),
            None => None,
        },
    decreases v.len(),
{
    if v.len() > 0 {
        let l = v.len() - 1;
        assert(v.last() == v[l]);
        match p {
            Some(i) => {
                if (i as int) < l {
                    assert(v[i as int].0@ != v[l].0@);
                    lemma_unique_position(v.drop_last(), k, p);
                }
            },
            None => {
                lemma_unique_position(v.drop_last(), k, p);
            },
        }
    }
}

proof fn lemma_lookup_update(v: Seq<(String, String)>, k: Seq<char>, i: int, e: (String, String))
    requires
        0 <= i < v.len(),
        v[i].0@ == k,
        e.0@ == k,
        forall|a: int, b: int| 0 <= a < b < v.len() ==> (#[trigger] v[a]).0@ != (#[trigger] v[b]).0@,
    ensures
        lookup_last(v.update(i, e), k) == Some(e.1@),
        forall|c: Seq<char>| c != k ==> lookup_last(v.update(i, e), c) == lookup_last(v, c),
    decreases v.len(),
{
    let w = v.update(i, e);
    let l = v.len() - 1;
    assert(v.last() == v[l]);
    if i < l {
        assert(v[i].0@ != v[l].0@);
        lemma_lookup_update(v.drop_last(), k, i, e);
        assert(w.drop_last() =~= v.drop_last().update(i, e));
        assert(w.last() == v.last());
        assert forall|c: Seq<char>| c != k implies lookup_last(w, c) == lookup_last(v, c) by {
            assert(lookup_last(w.drop_last(), c) == lookup_last(v.drop_last(), c));
        }
    } else {
        assert(w.drop_last() =~= v.drop_last());
        assert forall|c: Seq<char>| c != k implies lookup_last(w, c) == lookup_last(v, c) by {}
    }
}

/// Alert payload data to be formatted for webhooks.
#[derive(Debug, Clone)]
pub struct AlertPayload {
    /// Alert title/summary.
    pub title: String,
    /// Full log line or detailed message.
    pub message: String,
    /// Severity level.
    pub severity: AlertSeverity,
    /// Source program (e.g., "lodestar", "docker").
    pub program: Option<String>,
    /// ISO 8601 timestamp.
    pub timestamp: String,
    /// Additional context fields.
    pub fields: FieldMap,
}

impl AlertPayload {
    /// A payload with the given title, message and timestamp, default
    /// severity, no program and no fields.
    pub fn new_at(title: &str, message: &str, timestamp: String) -> (r: AlertPayload)
        ensures
            r.title@ == title@,
            r.message@ == message@,
            r.severity == AlertSeverity::Warning,
            r.program is None,
            r.timestamp@ == timestamp@,
            r.fields.wf(),
            r.fields.entries_view().len() == 0,
            forall|k: Seq<char>| r.fields.lookup(k) is None,
    {
        AlertPayload {
            title: owned(title),
            message: owned(message),
            severity: AlertSeverity::Warning,
            program: None,
            timestamp,
            fields: FieldMap::new(),
        }
    }

    /// Create a new alert payload, stamped with the current time.
    pub fn new(title: &str, message: &str) -> (r: AlertPayload)
        ensures
            r.title@ == title@,
            r.message@ == message@,
            r.severity == AlertSeverity::Warning,
            r.program is None,
            exists|secs: u64| r.timestamp@ == iso_timestamp(secs as nat),
            r.fields.wf(),
            r.fields.entries_view().len() == 0,
            forall|k: Seq<char>| r.fields.lookup(k) is None,
    {
        AlertPayload::new_at(title, message, current_timestamp())
    }

    /// Set the severity level.
    pub fn with_severity(self, severity: AlertSeverity) -> (r: AlertPayload)
        ensures
            r == (AlertPayload { severity, ..self }),
    {
        AlertPayload { severity, ..self }
    }

    /// Set the source program.
    pub fn with_program(self, program: &str) -> (r: AlertPayload)
        ensures
            r.title == self.title,
            r.message == self.message,
            r.severity == self.severity,
            r.program matches Some(p) && p@ == program@,
            r.timestamp == self.timestamp,
            r.fields == self.fields,
    {
        AlertPayload { program: Some(owned(program)), ..self }
    }

    /// Add a context field.
    pub fn with_field(self, key: &str, value: &str) -> (r: AlertPayload)
        requires
            self.fields.wf(),
        ensures
            r.title == self.title,
            r.message == self.message,
            r.severity == self.severity,
            r.program == self.program,
            r.timestamp == self.timestamp,
            r.fields.wf(),
            r.fields.lookup(key@) == Some(value@),
            forall|c: Seq<char>| c != key@ ==> r.fields.lookup(c) == self.fields.lookup(c),
            match find_key(self.fields.entries_view(), key@) {
                Some(i) => r.fields.entries_view() == self.fields.entries_view().update(i, (key@, value@)),
                None => r.fields.entries_view() == self.fields.entries_view().push((key@, value@)),
            },
    {
        let mut r = self;
        r.fields.insert(owned(key), owned(value));
        r
    }
}

/// Webhook service types.
#[derive(Debug, Clone, PartialEq, Eq)]
pub enum WebhookService {
    /// Discord webhook.
    Discord,
    /// Telegram Bot API.
    Telegram { chat_id: String },
    /// Generic JSON POST.
    Generic,
}

/// The mathematical form of a webhook service.
pub enum ServiceView {
    Discord,
    Telegram { chat_id: Seq<char> },
    Generic,
}

impl View for WebhookService {
    type V = ServiceView;

    open spec fn view(&self) -> ServiceView {
        match self {
            WebhookService::Discord => ServiceView::Discord,
            WebhookService::Telegram { chat_id } => ServiceView::Telegram { chat_id: chat_id@ },
            WebhookService::Generic => ServiceView::Generic,
        }
    }
}

/// The service a URL belongs to.
pub open spec fn detect_spec(url: Seq<char>) -> ServiceView {
    if seq_contains(url, "discord.com/api/webhooks"@) || seq_contains(url, "discordapp.com/api/webhooks"@) {
        ServiceView::Discord
    } else if seq_contains(url, "api.telegram.org/bot"@) {
        ServiceView::Telegram { chat_id: Seq::empty() }
    } else {
        ServiceView::Generic
    }
}

impl WebhookService {
    /// Auto-detect service type from URL.
    pub fn detect(url: &str) -> (r: WebhookService)
        ensures
            r@ == detect_spec(url@),
    {
        if contains(url, "discord.com/api/webhooks") || contains(url, "discordapp.com/api/webhooks") {
            WebhookService::Discord
        } else if contains(url, "api.telegram.org/bot") {
            WebhookService::Telegram { chat_id: String::new() }
        } else {
            WebhookService::Generic
        }
    }

    /// Set Telegram chat ID.
    pub fn with_chat_id(self, chat_id: &str) -> (r: WebhookService)
        ensures
            r@ == match self@ {
                ServiceView::Telegram { .. } => ServiceView::Telegram { chat_id: chat_id@ },
                other => other,
            },
    {
        match self {
            WebhookService::Telegram { .. } => WebhookService::Telegram { chat_id: owned(chat_id) },
            other => other,
        }
    }
}

/// The lower-case hexadecimal digit of a value below 16.
pub open spec fn hex_digit(d: u32) -> char {
    seq!['0', '1', '2', '3', '4', '5', '6', '7', '8', '9', 'a', 'b', 'c', 'd', 'e', 'f'][d as int]
}

/// How `serde_json` writes one character inside a string literal: `"` and
/// `\` after a backslash, the usual short escapes for backspace, tab, line
/// feed, form feed and carriage return, other control characters as
/// `\u00XX`, and every other character as it is.
pub open spec fn json_escaped_char(c: char) -> Seq<char> {
    if c == '"' {
        seq!['\\', '"']
    } else if c == '\\' {
        seq!['\\', '\\']
    } else if c == '\u{8}' {
        seq!['\\', 'b']
    } else if c == '\t' {
        seq!['\\', 't']
    } else if c == '\n' {
        seq!['\\', 'n']
    } else if c == '\u{c}' {
        seq!['\\', 'f']
    } else if c == '\r' {
        seq!['\\', 'r']
    } else if (c as u32) < 0x20 {
        seq!['\\', 'u', '0', '0', hex_digit((c as u32) / 16), hex_digit((c as u32) % 16)]
    } else {
        seq![c]
    }
}

/// The characters of a string, each escaped as `serde_json` writes it.
pub open spec fn json_escaped(s: Seq<char>) -> Seq<char>
    decreases s.len(),
{
    if s.len() == 0 {
        Seq::empty()
    } else {
        json_escaped(s.drop_last()) + json_escaped_char(s.last())
    }
}

/// The JSON string literal that `serde_json` writes for a string: the
/// escaped characters between double quotes.
pub open spec fn json_quoted(s: Seq<char>) -> Seq<char> {
    seq!['"'] + json_escaped(s) + seq!['"']
}

/// `serde_json::to_string` on a string slice: its JSON string literal,
/// quotes and escapes included.  Serialising a `str` into memory does not
/// fail, so the error branch is never taken.
#[verifier::external_body]
pub(crate) fn json_string(s: &str) -> (r: String)
    ensures
        r@ == json_quoted(s@),
{
    serde_json::to_string(s).unwrap_or_default()
}

/// Formats alert payloads as the JSON body of a webhook request.
pub trait WebhookFormatter {
    /// The JSON document for the payload, for the given service.
    fn format(&self, payload: &AlertPayload, service: &WebhookService) -> String;

    /// The Content-Type header for the body.
    fn content_type(&self) -> (r: &'static str)
        ensures
            r@ == "application/json"@,
    {
        "application/json"
    }
}

/// The largest character boundary of `bytes` at most `max`.
pub open spec fn boundary_at_most(bytes: Seq<u8>, max: int) -> int
    decreases max,
{
    if max <= 0 {
        0
    } else if is_char_boundary(bytes, max) {
        max
    } else {
        boundary_at_most(bytes, max - 1)
    }
}

/// The byte length that `truncate(s, max)` keeps.
pub open spec fn truncate_len(bytes: Seq<u8>, max: int) -> int {
    if bytes.len() <= max {
        bytes.len() as int
    } else {
        boundary_at_most(bytes, max)
    }
}

/// The characters that `truncate(s, max)` keeps.
pub open spec fn truncated(s: Seq<char>, max: int) -> Seq<char> {
    decode_utf8(encode_utf8(s).take(truncate_len(encode_utf8(s), max)))
}

proof fn lemma_boundary_at_most(bytes: Seq<u8>, max: int)
    ensures
        max >= 0 ==> 0 <= boundary_at_most(bytes, max) <= max,
    decreases max,
{
    if max > 0 {
        lemma_boundary_at_most(bytes, max - 1);
    }
}

/// Truncate a string to at most `max` bytes, cutting at the last character
/// boundary.
pub fn truncate(s: &str, max: usize) -> (r: &str)
    ensures
        r.spec_bytes() == s.spec_bytes().take(truncate_len(s.spec_bytes(), max as int)),
        r@ == truncated(s@, max as int),
        s.spec_bytes().len() <= max ==> r@ == s@,
        s.spec_bytes().len() > max ==> r.spec_bytes().len() <= max,
{
    proof {
        lemma_boundary_at_most(s.spec_bytes(), max as int);
    }
    let len: usize = s.as_bytes().len();
    if len <= max {
        assert(truncate_len(s.spec_bytes(), max as int) == s.spec_bytes().len());
        assert(s.spec_bytes().take(s.spec_bytes().len() as int) =~= s.spec_bytes());
        return s;
    }
    let mut end = max;
    while end > 0 && !s.is_char_boundary(end)
        invariant
            end <= max,
            valid_utf8(s.spec_bytes()),
            boundary_at_most(s.spec_bytes(), max as int) == boundary_at_most(s.spec_bytes(), end as int),
        decreases end,
    {
        end -= 1;
    }
    let (a, _) = s.split_at(end);
    a
}

/// Whether a year is a leap year in the Gregorian calendar.
pub open spec fn is_leap(year: int) -> bool {
    (year % 4 == 0 && year % 100 != 0) || year % 400 == 0
}

/// The number of days in a year.
pub open spec fn days_in_year(year: int) -> int {
    if is_leap(year) {
        366
    } else {
        365
    }
}

/// The year reached from `year` with `remaining` days left, counting whole
/// years up to year 9999, and the days left in it.
pub open spec fn year_and_rest(remaining: int, year: int) -> (int, int)
    decreases 9999 - year,
{
    if year >= 9999 || remaining < days_in_year(year) {
        (year, remaining)
    } else {
        year_and_rest(remaining - days_in_year(year), year + 1)
    }
}

/// The number of days in a month (1 to 12) of a year.
pub open spec fn days_in_month(year: int, month: int) -> int {
    if month == 2 {
        if is_leap(year) {
            29
        } else {
            28
        }
    } else if month == 4 || month == 6 || month == 9 || month == 11 {
        30
    } else {
        31
    }
}

/// The month reached from `month` with `remaining` days left, counting
/// whole months up to December, and the days left in it.
pub open spec fn month_and_rest(year: int, remaining: int, month: int) -> (int, int)
    decreases 13 - month,
{
    if month > 12 || remaining < days_in_month(year, month) {
        (month, remaining)
    } else {
        month_and_rest(year, remaining - days_in_month(year, month), month + 1)
    }
}

/// `(year, month, day)` of a day count since 1970-01-01 (years capped at 9999).
pub open spec fn days_to_ymd_spec(days: int) -> (int, int, int) {
    let (year, rest) = year_and_rest(days, 1970);
    let (month, rest2) = month_and_rest(year, rest, 1);
    (year, month, rest2 + 1)
}

/// Whether a year is a leap year.
#[verifier::spinoff_prover]
pub fn is_leap_year(year: i64) -> (r: bool)
    ensures
        r == is_leap(year as int),
{
    (year % 4 == 0 && year % 100 != 0) || (year % 400 == 0)
}

/// The number of days in a year.
fn year_length(year: i64) -> (r: i64)
    ensures
        r == days_in_year(year as int),
{
    if is_leap_year(year) {
        366
    } else {
        365
    }
}

/// Converts days since the Unix epoch to `(year, month, day)`.
fn days_to_ymd(days: u64) -> (r: (u64, u64, u64))
    requires
        days <= i64::MAX,
    ensures
        (r.0 as int, r.1 as int, r.2 as int) == days_to_ymd_spec(days as int),
{
    let mut remaining: i64 = days as i64;
    let mut year: i64 = 1970;
    while year < 9999 && remaining >= year_length(year)
        invariant
            1970 <= year <= 9999,
            0 <= remaining <= days,
            year_and_rest(days as int, 1970) == year_and_rest(remaining as int, year as int),
        decreases 9999 - year,
    {
        remaining = remaining - year_length(year);
        year = year + 1;
    }
    let leap = is_leap_year(year);
    let mut month: i64 = 1;
    while month <= 12 && remaining >= month_days(leap, month)
        invariant
            1 <= month <= 13,
            0 <= remaining <= days,
            leap == is_leap(year as int),
            year_and_rest(days as int, 1970) == (year as int, remaining_before(days as int, year as int)),
            month_and_rest(year as int, remaining_before(days as int, year as int), 1) == month_and_rest(year as int, remaining as int, month as int),
        decreases 13 - month,
    {
        remaining = remaining - month_days(leap, month);
        month = month + 1;
    }
    (year as u64, month as u64, remaining as u64 + 1)
}

/// The days left after the whole years, as `year_and_rest` counts them.
pub open spec fn remaining_before(days: int, year: int) -> int {
    year_and_rest(days, 1970).1
}

/// The number of days in a month of a leap or common year.
fn month_days(leap: bool, month: i64) -> (r: i64)
    requires
        1 <= month <= 12,
    ensures
        forall|y: int| is_leap(y) == leap ==> r == days_in_month(y, month as int),
{
    if month == 2 {
        if leap {
            29
        } else {
            28
        }
    } else if month == 4 || month == 6 || month == 9 || month == 11 {
        30
    } else {
        31
    }
}

/// `YYYY-MM-DDTHH:MM:SS` for a number of seconds since the Unix epoch.
pub open spec fn iso_clock(secs: nat) -> Seq<char> {
    let days = secs / 86400;
    let tod = secs % 86400;
    let (y, m, d) = days_to_ymd_spec(days as int);
    zero_padded(y as nat, 4) + "-"@ + zero_padded(m as nat, 2) + "-"@ + zero_padded(d as nat, 2) + "T"@
        + zero_padded(tod / 3600, 2) + ":"@ + zero_padded((tod % 3600) / 60, 2) + ":"@
        + zero_padded(tod % 60, 2)
}

/// `YYYY-MM-DDTHH:MM:SSZ` for a number of seconds since the Unix epoch.
pub open spec fn iso_timestamp(secs: nat) -> Seq<char> {
    iso_clock(secs) + "Z"@
}

/// `YYYY-MM-DDTHH:MM:SS.NNNNNNNNNZ` for seconds and nanoseconds since the
/// Unix epoch.
pub open spec fn iso_timestamp_nanos(secs: nat, nanos: nat) -> Seq<char> {
    iso_clock(secs) + "."@ + zero_padded(nanos, 9) + "Z"@
}

/// Formats seconds since the Unix epoch as `YYYY-MM-DDTHH:MM:SS`.
fn format_clock(secs: u64) -> (r: String)
    ensures
        r@ == iso_clock(secs as nat),
{
    let days = secs / 86400;
    let tod = secs % 86400;
    let (y, m, d) = days_to_ymd(days);
    let mut r = zero_padded_string(y, 4);
    push_str(&mut r, "-");
    let s = zero_padded_string(m, 2);
    push_str(&mut r, s.as_str());
    push_str(&mut r, "-");
    let s = zero_padded_string(d, 2);
    push_str(&mut r, s.as_str());
    push_str(&mut r, "T");
    let s = zero_padded_string(tod / 3600, 2);
    push_str(&mut r, s.as_str());
    push_str(&mut r, ":");
    let s = zero_padded_string((tod % 3600) / 60, 2);
    push_str(&mut r, s.as_str());
    push_str(&mut r, ":");
    let s = zero_padded_string(tod % 60, 2);
    push_str(&mut r, s.as_str());
    r
}

/// Formats seconds and nanoseconds since the Unix epoch as an ISO 8601
/// timestamp with nanoseconds.
pub fn format_timestamp_nanos(secs: u64, nanos: u32) -> (r: String)
    ensures
        r@ == iso_timestamp_nanos(secs as nat, nanos as nat),
{
    let mut r = format_clock(secs);
    push_str(&mut r, ".");
    let n = zero_padded_string(nanos as u64, 9);
    push_str(&mut r, n.as_str());
    push_str(&mut r, "Z");
    r
}

/// Formats seconds since the Unix epoch as an ISO 8601 timestamp.
pub fn format_timestamp(secs: u64) -> (r: String)
    ensures
        r@ == iso_timestamp(secs as nat),
{
    let mut r = format_clock(secs);
    push_str(&mut r, "Z");
    r
}

/// Get the current timestamp in ISO 8601 format.
pub fn current_timestamp() -> (r: String)
    ensures
        exists|secs: u64| r@ == iso_timestamp(secs as nat),
{
    let (secs, _) = crate::clock::unix_time();
    format_timestamp(secs)
}

} // verus!
