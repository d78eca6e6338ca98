//! Alert configuration: webhooks, conditions and rate limiting settings.
use vstd::prelude::*;
use crate::alert::condition::{AlertCondition, ConditionView};
use crate::alert::formatter::{detect_spec, ServiceView, WebhookService};
use crate::pattern::{compile, error_text, regex_valid};
use crate::text::{
    owned, parse_u64, parse_unsigned, push_str, seq_starts_with, str_eq, trim, trim_spec,
};
use vstd::string::StrSliceExecFns;

verus! {

broadcast use vstd::string::group_string_axioms;

/// Error loading alert configuration.
#[derive(Debug)]
pub enum ConfigError {
    /// The file could not be read (the reason, as text).
    ReadError(String),
    /// The file is not valid YAML for the configuration (the reason, as text).
    YamlError(String),
    /// A condition is malformed.
    InvalidCondition(String),
    /// A condition names a webhook that is not defined.
    WebhookNotFound(String),
    /// A Telegram webhook has no chat ID.
    MissingChatId,
}

/// The mathematical form of a configuration error.
pub enum ConfigErrorView {
    ReadError(Seq<char>),
    YamlError(Seq<char>),
    InvalidCondition(Seq<char>),
    WebhookNotFound(Seq<char>),
    MissingChatId,
}

impl View for ConfigError {
    type V = ConfigErrorView;

    open spec fn view(&self) -> ConfigErrorView {
        match self {
            ConfigError::ReadError(s) => ConfigErrorView::ReadError(s@),
            ConfigError::YamlError(s) => ConfigErrorView::YamlError(s@),
            ConfigError::InvalidCondition(s) => ConfigErrorView::InvalidCondition(s@),
            ConfigError::WebhookNotFound(s) => ConfigErrorView::WebhookNotFound(s@),
            ConfigError::MissingChatId => ConfigErrorView::MissingChatId,
        }
    }
}

/// The message of a configuration error.
pub open spec fn config_error_message(e: ConfigErrorView) -> Seq<char> {
    match e {
        ConfigErrorView::ReadError(s) => "failed to read config file: "@ + s,
        ConfigErrorView::YamlError(s) => "failed to parse YAML: "@ + s,
        ConfigErrorView::InvalidCondition(s) => "invalid condition: "@ + s,
        ConfigErrorView::WebhookNotFound(s) => "webhook not found: "@ + s,
        ConfigErrorView::MissingChatId => "telegram webhook missing chat_id"@,
    }
}

impl ConfigError {
    /// The message that `Display` gives for this error.
    pub fn to_string(&self) -> (r: String)
        ensures
            r@ == config_error_message(self@),
    {
        let (prefix, detail) = match self {
            ConfigError::ReadError(s) => ("failed to read config file: ", s.as_str()),
            ConfigError::YamlError(s) => ("failed to parse YAML: ", s.as_str()),
            ConfigError::InvalidCondition(s) => ("invalid condition: ", s.as_str()),
            ConfigError::WebhookNotFound(s) => ("webhook not found: ", s.as_str()),
            ConfigError::MissingChatId => ("telegram webhook missing chat_id", ""),
        };
        let mut r = owned(prefix);
        push_str(&mut r, detail);
        proof {
            reveal_strlit("");
            if self is MissingChatId {
                assert(r@ =~= "telegram webhook missing chat_id"@);
            }
        }
        r
    }
}

/// Webhook configuration.
#[derive(Debug)]
pub struct WebhookConfig {
    /// Webhook name for referencing.
    pub name: String,
    /// Webhook URL.
    pub url: String,
    /// Webhook type (discord, telegram, generic). Auto-detected if not specified.
    pub webhook_type: Option<String>,
    /// Telegram chat ID (required for telegram type).
    pub chat_id: Option<String>,
}

/// The text of an optional string, empty when absent.
pub open spec fn text_or_empty(o: Option<String>) -> Seq<char> {
    match o {
        Some(s) => s@,
        None => Seq::empty(),
    }
}

/// The service detected from a webhook's URL, with its chat ID for Telegram.
pub open spec fn detected_service(w: WebhookConfig) -> ServiceView {
    match detect_spec(w.url@) {
        ServiceView::Telegram { .. } => ServiceView::Telegram { chat_id: text_or_empty(w.chat_id) },
        other => other,
    }
}

/// The service of a webhook: its declared type, or the one its URL shows.
pub open spec fn webhook_service_spec(w: WebhookConfig) -> ServiceView {
    match w.webhook_type {
        Some(t) => if t@ == "discord"@ {
            ServiceView::Discord
        } else if t@ == "telegram"@ {
            ServiceView::Telegram { chat_id: text_or_empty(w.chat_id) }
        } else if t@ == "generic"@ {
            detected_service(w)
        } else {
            ServiceView::Generic
        },
        None => detected_service(w),
    }
}

/// An owned copy of an optional string, empty when absent.
fn owned_or_empty(o: &Option<String>) -> (r: String)
    ensures
        r@ == text_or_empty(*o),
{
    match o {
        Some(s) => owned(s.as_str()),
        None => String::new(),
    }
}

impl WebhookConfig {
    /// The service detected from the URL, with the chat ID for Telegram.
    fn detected_service(&self) -> (r: WebhookService)
        ensures
            r@ == detected_service(*self),
    {
        match WebhookService::detect(self.url.as_str()) {
            WebhookService::Telegram { .. } => WebhookService::Telegram { chat_id: owned_or_empty(&self.chat_id) },
            other => other,
        }
    }

    /// Get the webhook service type.
    pub fn service(&self) -> (r: WebhookService)
        ensures
            r@ == webhook_service_spec(*self),
    {
        match &self.webhook_type {
            Some(t) => {
                if str_eq(t.as_str(), "discord") {
                    WebhookService::Discord
                } else if str_eq(t.as_str(), "telegram") {
                    WebhookService::Telegram { chat_id: owned_or_empty(&self.chat_id) }
                } else if str_eq(t.as_str(), "generic") {
                    self.detected_service()
                } else {
                    WebhookService::Generic
                }
            },
            None => self.detected_service(),
        }
    }
}

/// Condition configuration.
#[derive(Debug)]
pub struct ConditionConfig {
    /// Condition type.
    pub condition_type: String,
    /// Threshold count (for `error_threshold`).
    pub count: Option<usize>,
    /// Threshold value (for `peer_drop`).
    pub threshold: Option<usize>,
    /// Pattern (for pattern type).
    pub pattern: Option<String>,
    /// Webhooks to notify.
    pub webhooks: Vec<String>,
}

/// What a condition configuration gives: the condition, or the message of the
/// `InvalidCondition` error (`None` for an invalid regex, whose message is
/// `invalid regex: ` and the regex crate's own text).
pub open spec fn to_condition_spec(c: ConditionConfig) -> Result<ConditionView, Option<Seq<char>>> {
    let t = c.condition_type@;
    if t == "error"@ {
        Ok(ConditionView::Error)
    } else if t == "error_threshold"@ {
        match c.count {
            Some(count) => Ok(ConditionView::ErrorThreshold { count }),
            None => Err(Some("error_threshold requires count"@)),
        }
    } else if t == "peer_drop"@ {
        match c.threshold {
            Some(threshold) => Ok(ConditionView::PeerDrop { threshold }),
            None => Err(Some("peer_drop requires threshold"@)),
        }
    } else if t == "sync_stall"@ {
        Ok(ConditionView::SyncStall)
    } else if t == "pattern"@ {
        match c.pattern {
            Some(p) => if regex_valid(p@) {
                Ok(ConditionView::Pattern { pattern: p@ })
            } else {
                Err(None)
            },
            None => Err(Some("pattern requires pattern field"@)),
        }
    } else {
        Err(Some("unknown type: "@ + t))
    }
}

impl ConditionConfig {
    /// Parse into an `AlertCondition`.
    pub fn to_condition(&self) -> (r: Result<AlertCondition, ConfigError>)
        ensures
            match (r, to_condition_spec(*self)) {
                (Ok(c), Ok(v)) => c@ == v,
                (Err(ConfigError::InvalidCondition(m)), Err(Some(msg))) => m@ == msg,
                (Err(ConfigError::InvalidCondition(m)), Err(None)) => seq_starts_with(m@, "invalid regex: "@),
                _ => false,
            },
    {
        let t = self.condition_type.as_str();
        if str_eq(t, "error") {
            Ok(AlertCondition::Error)
        } else if str_eq(t, "error_threshold") {
            match self.count {
                Some(count) => Ok(AlertCondition::ErrorThreshold { count }),
                None => Err(ConfigError::InvalidCondition(owned("error_threshold requires count"))),
            }
        } else if str_eq(t, "peer_drop") {
            match self.threshold {
                Some(threshold) => Ok(AlertCondition::PeerDrop { threshold }),
                None => Err(ConfigError::InvalidCondition(owned("peer_drop requires threshold"))),
            }
        } else if str_eq(t, "sync_stall") {
            Ok(AlertCondition::SyncStall)
        } else if str_eq(t, "pattern") {
            match &self.pattern {
                Some(p) => match compile(p.as_str()) {
                    Ok(regex) => Ok(AlertCondition::Pattern { regex }),
                    Err(e) => {
                        let mut m = owned("invalid regex: ");
                        let detail = error_text(&e);
                        push_str(&mut m, detail.as_str());
                        assert(m@.take("invalid regex: "@.len() as int) =~= "invalid regex: "@);
                        Err(ConfigError::InvalidCondition(m))
                    },
                },
                None => Err(ConfigError::InvalidCondition(owned("pattern requires pattern field"))),
            }
        } else {
            let mut m = owned("unknown type: ");
            push_str(&mut m, t);
            Err(ConfigError::InvalidCondition(m))
        }
    }
}

/// Rate limiting configuration.
#[derive(Debug)]
pub struct RateLimitingConfig {
    /// Global cooldown between alerts.
    pub global_cooldown: String,
    /// Per-condition cooldown.
    pub per_condition: String,
    /// Maximum alerts per hour.
    pub max_per_hour: usize,
}

/// The default global cooldown.
pub fn default_global_cooldown() -> (r: String)
    ensures
        r@ == "30s"@,
{
    owned("30s")
}

/// The default per-condition cooldown.
pub fn default_per_condition() -> (r: String)
    ensures
        r@ == "60s"@,
{
    owned("60s")
}

/// The default limit of alerts per hour.
pub fn default_max_per_hour() -> (r: usize)
    ensures
        r == 50,
{
    50
}

impl Default for RateLimitingConfig {
    fn default() -> (r: RateLimitingConfig)
        ensures
            r.global_cooldown@ == "30s"@,
            r.per_condition@ == "60s"@,
            r.max_per_hour == 50,
    {
        RateLimitingConfig {
            global_cooldown: default_global_cooldown(),
            per_condition: default_per_condition(),
            max_per_hour: default_max_per_hour(),
        }
    }
}

/// Alert configuration file structure.
#[derive(Debug)]
pub struct AlertConfig {
    /// Webhook definitions.
    pub webhooks: Vec<WebhookConfig>,
    /// Alert conditions.
    pub conditions: Vec<ConditionConfig>,
    /// Rate limiting settings.
    pub rate_limiting: RateLimitingConfig,
}

impl Default for AlertConfig {
    fn default() -> (r: AlertConfig)
        ensures
            r.webhooks@.len() == 0,
            r.conditions@.len() == 0,
            r.rate_limiting.global_cooldown@ == "30s"@,
            r.rate_limiting.per_condition@ == "60s"@,
            r.rate_limiting.max_per_hour == 50,
    {
        AlertConfig { webhooks: Vec::new(), conditions: Vec::new(), rate_limiting: RateLimitingConfig::default() }
    }
}

/// Whether a webhook of the given name is defined.
pub open spec fn has_webhook(ws: Seq<WebhookConfig>, name: Seq<char>) -> bool {
    exists|i: int| 0 <= i < ws.len() && (#[trigger] ws[i]).name@ == name
}

/// The first of the names that no webhook has, if any.
pub open spec fn first_missing_name(names: Seq<String>, ws: Seq<WebhookConfig>) -> Option<Seq<char>>
    decreases names.len(),
{
    if names.len() == 0 {
        None
    } else if !has_webhook(ws, names[0]@) {
        Some(names[0]@)
    } else {
        first_missing_name(names.skip(1), ws)
    }
}

/// The first webhook name, over the conditions in order, that no webhook has.
pub open spec fn first_missing_webhook(conds: Seq<ConditionConfig>, ws: Seq<WebhookConfig>) -> Option<Seq<char>>
    decreases conds.len(),
{
    if conds.len() == 0 {
        None
    } else {
        match first_missing_name(conds[0].webhooks@, ws) {
            Some(n) => Some(n),
            None => first_missing_webhook(conds.skip(1), ws),
        }
    }
}

/// Whether a webhook declared as Telegram lacks a chat ID.
pub open spec fn lacks_chat_id(w: WebhookConfig) -> bool {
    &&& w.webhook_type matches Some(t) && t@ == "telegram"@
    &&& w.chat_id is None
}

/// What validating a configuration gives.
pub open spec fn validate_spec(c: AlertConfig) -> Result<(), ConfigErrorView> {
    match first_missing_webhook(c.conditions@, c.webhooks@) {
        Some(name) => Err(ConfigErrorView::WebhookNotFound(name)),
        None => if exists|i: int| 0 <= i < c.webhooks@.len() && lacks_chat_id(#[trigger] c.webhooks@[i]) {
            Err(ConfigErrorView::MissingChatId)
        } else {
            Ok(())
        },
    }
}

/// The first index of a webhook with the given name, if any.
pub open spec fn webhook_index(ws: Seq<WebhookConfig>, name: Seq<char>) -> Option<int> {
    if has_webhook(ws, name) {
        Some(choose|i: int| 0 <= i < ws.len() && ws[i].name@ == name && forall|j: int| 0 <= j < i ==> (#[trigger] ws[j]).name@ != name)
    } else {
        None
    }
}

proof fn lemma_webhook_index(ws: Seq<WebhookConfig>, name: Seq<char>, i: int)
    requires
        0 <= i < ws.len(),
        ws[i].name@ == name,
        forall|j: int| 0 <= j < i ==> (#[trigger] ws[j]).name@ != name,
    ensures
        webhook_index(ws, name) == Some(i),
{
    assert(has_webhook(ws, name));
    let k = choose|k: int| 0 <= k < ws.len() && ws[k].name@ == name && forall|j: int| 0 <= j < k ==> (#[trigger] ws[j]).name@ != name;
    if k < i {
        assert(ws[k].name@ != name);
    }
    if i < k {
        assert(ws[i].name@ != name);
    }
}

impl AlertConfig {
    /// The position of the first webhook with the given name.
    fn webhook_position(&self, name: &str) -> (r: Option<usize>)
        ensures
            match r {
                Some(i) => i < self.webhooks@.len() && webhook_index(self.webhooks@, name@) == Some(i as int),
                None => webhook_index(self.webhooks@, name@) is None,
            },
    {
        let mut i: usize = 0;
        while i < self.webhooks.len()
            invariant
                i <= self.webhooks@.len(),
                forall|j: int| 0 <= j < i ==> (#[trigger] self.webhooks@[j]).name@ != name@,
            decreases self.webhooks@.len() - i,
        {
            if str_eq(self.webhooks[i].name.as_str(), name) {
                proof {
                    lemma_webhook_index(self.webhooks@, name@, i as int);
                }
                return Some(i);
            }
            i += 1;
        }
        proof {
            if has_webhook(self.webhooks@, name@) {
                let k = choose|k: int| 0 <= k < self.webhooks@.len() && (#[trigger] self.webhooks@[k]).name@ == name@;
                assert(self.webhooks@[k].name@ != name@);
            }
        }
        None
    }

    /// Get a webhook by name: the first one with that name.
    pub fn get_webhook(&self, name: &str) -> (r: Option<&WebhookConfig>)
        ensures
            match webhook_index(self.webhooks@, name@) {
                Some(i) => r == Some(&self.webhooks@[i]),
                None => r is None,
            },
    {
        match self.webhook_position(name) {
            Some(i) => Some(&self.webhooks[i]),
            None => None,
        }
    }

    /// The first name in `names` that no webhook has.
    fn first_missing_name(&self, names: &Vec<String>) -> (r: Option<String>)
        ensures
            match r {
                Some(n) => first_missing_name(names@, self.webhooks@) == Some(n@),
                None => first_missing_name(names@, self.webhooks@) is None,
            },
    {
        let mut i: usize = 0;
        assert(names@.skip(0) =~= names@);
        while i < names.len()
            invariant
                i <= names@.len(),
                first_missing_name(names@, self.webhooks@) == first_missing_name(names@.skip(i as int), self.webhooks@),
            decreases names@.len() - i,
        {
            let ghost rest = names@.skip(i as int);
            assert(rest[0] == names@[i as int]);
            assert(rest.skip(1) =~= names@.skip(i + 1));
            let found = self.webhook_position(names[i].as_str());
            if found.is_none() {
                return Some(owned(names[i].as_str()));
            }
            i += 1;
        }
        assert(names@.skip(i as int).len() == 0);
        None
    }

    /// Validate the configuration: every webhook a condition names exists, and
    /// every Telegram webhook has a chat ID.
    pub fn validate(&self) -> (r: Result<(), ConfigError>)
        ensures
            match (r, validate_spec(*self)) {
                (Ok(()), Ok(())) => true,
                (Err(e), Err(v)) => e@ == v,
                _ => false,
            },
    {
        let mut i: usize = 0;
        assert(self.conditions@.skip(0) =~= self.conditions@);
        while i < self.conditions.len()
            invariant
                i <= self.conditions@.len(),
                first_missing_webhook(self.conditions@, self.webhooks@)
                    == first_missing_webhook(self.conditions@.skip(i as int), self.webhooks@),
            decreases self.conditions@.len() - i,
        {
            let ghost rest = self.conditions@.skip(i as int);
            assert(rest[0] == self.conditions@[i as int]);
            assert(rest.skip(1) =~= self.conditions@.skip(i + 1));
            match self.first_missing_name(&self.conditions[i].webhooks) {
                Some(n) => {
                    return Err(ConfigError::WebhookNotFound(n));
                },
                None => {},
            }
            i += 1;
        }
        assert(self.conditions@.skip(i as int).len() == 0);
        let mut j: usize = 0;
        while j < self.webhooks.len()
            invariant
                j <= self.webhooks@.len(),
                first_missing_webhook(self.conditions@, self.webhooks@) is None,
                forall|k: int| 0 <= k < j ==> !lacks_chat_id(#[trigger] self.webhooks@[k]),
            decreases self.webhooks@.len() - j,
        {
            let w = &self.webhooks[j];
            let is_telegram = match &w.webhook_type {
                Some(t) => str_eq(t.as_str(), "telegram"),
                None => false,
            };
            if is_telegram && w.chat_id.is_none() {
                assert(lacks_chat_id(self.webhooks@[j as int]));
                return Err(ConfigError::MissingChatId);
            }
            j += 1;
        }
        Ok(())
    }
}

/// The seconds a duration string such as `30s`, `5m`, `1h` or `60` stands
/// for: a number of seconds, minutes or hours (seconds without a unit), after
/// white space is trimmed; `None` if it is empty, malformed or too large.
pub open spec fn parse_duration_spec(s: Seq<char>) -> Option<u64> {
    let t = trim_spec(s);
    if t.len() == 0 {
        None
    } else {
        let (num, unit) = if t.last() == 's' {
            (t.drop_last(), 1int)
        } else if t.last() == 'm' {
            (t.drop_last(), 60int)
        } else if t.last() == 'h' {
            (t.drop_last(), 3600int)
        } else {
            (t, 1int)
        };
        match parse_unsigned(num, u64::MAX as int) {
            Some(n) => if n * unit <= u64::MAX {
                Some((n * unit) as u64)
            } else {
                None
            },
            None => None,
        }
    }
}

/// Parse a duration string like "30s", "5m", "1h" into seconds.
pub fn parse_duration_secs(s: &str) -> (r: Option<u64>)
    ensures
        r == parse_duration_spec(s@),
{
    let t = trim(s);
    let n = t.unicode_len();
    if n == 0 {
        return None;
    }
    let last = t.as_str().get_char(n - 1);
    let (num, unit): (String, u64) = if last == 's' || last == 'm' || last == 'h' {
        let u: u64 = if last == 's' {
            1
        } else if last == 'm' {
            60
        } else {
            3600
        };
        (owned(t.as_str().substring_char(0, n - 1)), u)
    } else {
        (t, 1)
    };
    proof {
        assert(t@.last() == last);
        if last == 's' || last == 'm' || last == 'h' {
            assert(num@ =~= t@.drop_last());
        }
    }
    match parse_u64(num.as_str()) {
        Ok(v) => v.checked_mul(unit),
        Err(_) => None,
    }
}

/// Parse a duration string like "30s", "5m", "1h".  It is `Some` exactly when
/// `parse_duration_secs` gives a number of seconds, and then lasts that long.
pub fn parse_duration(s: &str) -> (r: Option<std::time::Duration>)
    ensures
        match parse_duration_spec(s@) {
            Some(secs) => r matches Some(d) && crate::clock::duration_length(d) == secs * 1_000_000_000,
            None => r is None,
        },
{
    match parse_duration_secs(s) {
        Some(secs) => Some(crate::clock::duration_new(secs, 0)),
        None => None,
    }
}

} // verus!
