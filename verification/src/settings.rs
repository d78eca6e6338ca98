//! The settings of a run: command-line options over the global
//! configuration over the built-in defaults.
use vstd::prelude::*;
use crate::config::GlobalConfig;
use crate::program::strings_view;
use crate::text::{owned, str_eq};

verus! {

/// The options given on the command line that the global configuration can
/// also set.
#[derive(Debug)]
pub struct CliSettings {
    /// Theme name (the default when not given).
    pub theme: String,
    /// Force color output.
    pub color: bool,
    /// Show statistics.
    pub stats: bool,
    /// Statistics export format, if given.
    pub stats_export: Option<String>,
    /// Statistics interval in seconds (0 when not given).
    pub stats_interval: u64,
    /// Webhook URL for alerts.
    pub alert: Option<String>,
    /// Alert conditions.
    pub alert_on: Vec<String>,
    /// Telegram chat ID.
    pub telegram_chat_id: Option<String>,
    /// Alert cooldown in seconds (60 when not given).
    pub alert_cooldown: u64,
}

/// The settings of a run.
#[derive(Debug)]
pub struct RunSettings {
    /// The theme to use.
    pub theme: String,
    /// Whether color is forced on.
    pub color_forced: bool,
    /// The statistics interval in seconds.
    pub stats_interval: u64,
    /// Whether statistics are collected.
    pub stats_enabled: bool,
    /// The statistics export format, if one was named.
    pub stats_export: Option<String>,
    /// The webhook URL, if alerts are on.
    pub alert_url: Option<String>,
    /// The alert cooldown in seconds.
    pub alert_cooldown: u64,
    /// The Telegram chat ID.
    pub chat_id: Option<String>,
    /// The alert conditions.
    pub conditions: Vec<String>,
}

/// An optional string in view form.
pub open spec fn opt_seq(o: Option<String>) -> Option<Seq<char>> {
    match o {
        Some(s) => Some(s@),
        None => None,
    }
}

/// The first of two optional strings that is present.
pub open spec fn first_present(a: Option<Seq<char>>, b: Option<Seq<char>>) -> Option<Seq<char>> {
    match a {
        Some(x) => Some(x),
        None => b,
    }
}

/// The theme of a run: the one named on the command line when it is not the
/// default, else the global one, else the default.
pub open spec fn theme_choice(cli: Seq<char>, global: Option<Seq<char>>) -> Seq<char> {
    if cli != "default-dark"@ {
        cli
    } else {
        match global {
            Some(g) => g,
            None => cli,
        }
    }
}

/// A copy of an optional string.
fn copy_opt(o: &Option<String>) -> (r: Option<String>)
    ensures
        opt_seq(r) == opt_seq(*o),
{
    match o {
        Some(s) => Some(owned(s.as_str())),
        None => None,
    }
}

/// Copies of strings.
fn copy_strings(v: &Vec<String>) -> (r: Vec<String>)
    ensures
        strings_view(r@) == strings_view(v@),
{
    let mut r: Vec<String> = Vec::new();
    let mut i: usize = 0;
    while i < v.len()
        invariant
            i <= v@.len(),
            strings_view(r@) == strings_view(v@).take(i as int),
        decreases v@.len() - i,
    {
        let ghost before = r@;
        r.push(owned(v[i].as_str()));
        assert(strings_view(r@) =~= strings_view(before).push(v@[i as int]@));
        assert(strings_view(v@).take(i + 1) =~= strings_view(v@).take(i as int).push(v@[i as int]@));
        i += 1;
    }
    assert(strings_view(v@).take(v@.len() as int) =~= strings_view(v@));
    r
}

/// Resolve the settings of a run: an option given on the command line wins
/// over the global configuration, which wins over the built-in default.  A
/// statistics export format or a positive interval turns statistics on; the
/// default cooldown of the command line gives way to the configured one.
pub fn resolve(cli: &CliSettings, global: &GlobalConfig) -> (r: RunSettings)
    ensures
        r.theme@ == theme_choice(cli.theme@, opt_seq(global.theme)),
        r.color_forced == (cli.color || global.color),
        r.stats_interval == if cli.stats_interval > 0 { cli.stats_interval } else { global.stats_interval },
        r.stats_enabled == (cli.stats || global.stats || cli.stats_export is Some || global.stats_export is Some
            || r.stats_interval > 0),
        opt_seq(r.stats_export) == first_present(opt_seq(cli.stats_export), opt_seq(global.stats_export)),
        opt_seq(r.alert_url) == first_present(opt_seq(cli.alert), opt_seq(global.alerts.url)),
        r.alert_cooldown == if cli.alert_cooldown == 60 { global.alerts.cooldown } else { cli.alert_cooldown },
        opt_seq(r.chat_id) == first_present(opt_seq(cli.telegram_chat_id), opt_seq(global.alerts.telegram_chat_id)),
        strings_view(r.conditions@) == if cli.alert_on@.len() == 0 {
            strings_view(global.alerts.conditions@)
        } else {
            strings_view(cli.alert_on@)
        },
{
    let theme = if !str_eq(cli.theme.as_str(), "default-dark") {
        owned(cli.theme.as_str())
    } else {
        match &global.theme {
            Some(g) => owned(g.as_str()),
            None => owned(cli.theme.as_str()),
        }
    };
    let stats_interval = if cli.stats_interval > 0 {
        cli.stats_interval
    } else {
        global.stats_interval
    };
    let stats_enabled = cli.stats || global.stats || cli.stats_export.is_some() || global.stats_export.is_some()
        || stats_interval > 0;
    let stats_export = if cli.stats_export.is_some() {
        copy_opt(&cli.stats_export)
    } else {
        copy_opt(&global.stats_export)
    };
    let alert_url = if cli.alert.is_some() {
        copy_opt(&cli.alert)
    } else {
        copy_opt(&global.alerts.url)
    };
    let alert_cooldown = if cli.alert_cooldown == 60 {
        global.alerts.cooldown
    } else {
        cli.alert_cooldown
    };
    let chat_id = if cli.telegram_chat_id.is_some() {
        copy_opt(&cli.telegram_chat_id)
    } else {
        copy_opt(&global.alerts.telegram_chat_id)
    };
    let conditions = if cli.alert_on.len() == 0 {
        copy_strings(&global.alerts.conditions)
    } else {
        copy_strings(&cli.alert_on)
    };
    RunSettings {
        theme,
        color_forced: cli.color || global.color,
        stats_interval,
        stats_enabled,
        stats_export,
        alert_url,
        alert_cooldown,
        chat_id,
        conditions,
    }
}

} // verus!
