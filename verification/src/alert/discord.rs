//! Discord webhook formatter.
use vstd::prelude::*;
use crate::alert::condition::{discord_color_spec, tag_spec};
use crate::alert::formatter::{json_quoted, json_string, truncate, truncated, AlertPayload, WebhookFormatter, WebhookService};
use crate::text::{decimal, decimal_string, push_str};

verus! {

/// The most embed fields Discord accepts.
pub const DISCORD_MAX_FIELDS: usize = 25;

/// Discord webhook formatter with rich embeds.
#[derive(Debug)]
pub struct DiscordFormatter;

/// One embed field: key and value, truncated to Discord's limits.
pub open spec fn discord_field_json(k: Seq<char>, v: Seq<char>) -> Seq<char> {
    "{\"inline\":true,\"name\":"@ + json_quoted(truncated(k, 256)) + ",\"value\":"@
        + json_quoted(truncated(v, 1024)) + "}"@
}

/// The embed fields, separated by commas.
pub open spec fn discord_fields_json(es: Seq<(Seq<char>, Seq<char>)>) -> Seq<char>
    decreases es.len(),
{
    if es.len() == 0 {
        Seq::empty()
    } else if es.len() == 1 {
        discord_field_json(es[0].0, es[0].1)
    } else {
        discord_fields_json(es.drop_last()) + ","@ + discord_field_json(es.last().0, es.last().1)
    }
}

/// The fields that go into the embed: the first 25 entries.
pub open spec fn discord_entries(p: AlertPayload) -> Seq<(Seq<char>, Seq<char>)> {
    let es = p.fields.entries_view();
    if es.len() <= 25 {
        es
    } else {
        es.take(25)
    }
}

/// The embed footer naming the source program, if there is one.
pub open spec fn discord_footer_json(program: Option<String>) -> Seq<char> {
    match program {
        Some(prog) => ",\"footer\":{\"text\":"@ + json_quoted("Source: "@ + prog@) + "}"@,
        None => Seq::empty(),
    }
}

/// The JSON body of a Discord webhook request for a payload (keys in the
/// sorted order in which `serde_json` writes an object).
pub open spec fn discord_body(p: AlertPayload) -> Seq<char> {
    let es = discord_entries(p);
    "{\"embeds\":[{\"color\":"@ + decimal(discord_color_spec(p.severity) as nat) + ",\"description\":"@
        + json_quoted("```\n"@ + truncated(p.message@, 4000) + "\n```"@) + (if es.len() > 0 {
        ",\"fields\":["@ + discord_fields_json(es) + "]"@
    } else {
        Seq::empty()
    }) + discord_footer_json(p.program) + ",\"timestamp\":"@ + json_quoted(p.timestamp@) + ",\"title\":"@ + json_quoted(
        tag_spec(p.severity) + " "@ + truncated(p.title@, 250),
    ) + "}]}"@
}

/// The comma-separated embed fields for the first `n` entries.
fn discord_fields(payload: &AlertPayload, n: usize) -> (r: String)
    requires
        n <= payload.fields.entries_view().len(),
    ensures
        r@ == discord_fields_json(payload.fields.entries_view().take(n as int)),
{
    let ghost es = payload.fields.entries_view();
    let mut r = String::new();
    let mut i: usize = 0;
    while i < n
        invariant
            i <= n <= es.len(),
            es == payload.fields.entries_view(),
            r@ == discord_fields_json(es.take(i as int)),
        decreases n - i,
    {
        let (k, v) = payload.fields.entry(i);
        let ghost before = r@;
        if i > 0 {
            push_str(&mut r, ",");
        }
        push_str(&mut r, "{\"inline\":true,\"name\":");
        let q = json_string(truncate(k.as_str(), 256));
        push_str(&mut r, q.as_str());
        push_str(&mut r, ",\"value\":");
        let q = json_string(truncate(v.as_str(), 1024));
        push_str(&mut r, q.as_str());
        push_str(&mut r, "}");
        proof {
            let t = es.take(i + 1);
            assert(t.drop_last() =~= es.take(i as int));
            assert(t.last() == es[i as int]);
            if i == 0 {
                assert(r@ =~= discord_field_json(es[0].0, es[0].1));
            } else {
                assert(r@ =~= before + ","@ + discord_field_json(es[i as int].0, es[i as int].1));
            }
        }
        i += 1;
    }
    r
}

impl DiscordFormatter {
    /// The JSON body for the payload.
    pub fn format_payload(&self, payload: &AlertPayload) -> (r: String)
        ensures
            r@ == discord_body(*payload),
    {
        let n = payload.fields.len();
        let m = if n <= DISCORD_MAX_FIELDS {
            n
        } else {
            DISCORD_MAX_FIELDS
        };
        proof {
            assert(payload.fields.entries_view().take(n as int) =~= payload.fields.entries_view());
        }
        let fields = discord_fields(payload, m);
        let mut r = String::new();
        push_str(&mut r, "{\"embeds\":[{\"color\":");
        let c = decimal_string(payload.severity.discord_color() as u64);
        push_str(&mut r, c.as_str());
        push_str(&mut r, ",\"description\":");
        let mut d = String::new();
        push_str(&mut d, "```\n");
        push_str(&mut d, truncate(payload.message.as_str(), 4000));
        push_str(&mut d, "\n```");
        let q = json_string(d.as_str());
        push_str(&mut r, q.as_str());
        let ghost head = r@;
        if m > 0 {
            push_str(&mut r, ",\"fields\":[");
            push_str(&mut r, fields.as_str());
            push_str(&mut r, "]");
        }
        let ghost with_fields = r@;
        match &payload.program {
            Some(prog) => {
                let mut t = String::new();
                push_str(&mut t, "Source: ");
                push_str(&mut t, prog.as_str());
                push_str(&mut r, ",\"footer\":{\"text\":");
                let q = json_string(t.as_str());
                push_str(&mut r, q.as_str());
                push_str(&mut r, "}");
            },
            None => {},
        }
        let ghost with_footer = r@;
        push_str(&mut r, ",\"timestamp\":");
        let q = json_string(payload.timestamp.as_str());
        push_str(&mut r, q.as_str());
        push_str(&mut r, ",\"title\":");
        let mut t = String::new();
        push_str(&mut t, payload.severity.tag());
        push_str(&mut t, " ");
        push_str(&mut t, truncate(payload.title.as_str(), 250));
        let q = json_string(t.as_str());
        push_str(&mut r, q.as_str());
        push_str(&mut r, "}]}");
        proof {
            let es = discord_entries(*payload);
            assert(es.len() == m);
            let fj = if es.len() > 0 {
                ",\"fields\":["@ + discord_fields_json(es) + "]"@
            } else {
                Seq::<char>::empty()
            };
            assert(with_fields =~= head + fj);
            assert(with_footer =~= with_fields + discord_footer_json(payload.program));
            assert(r@ =~= discord_body(*payload));
        }
        r
    }
}

impl WebhookFormatter for DiscordFormatter {
    fn format(&self, payload: &AlertPayload, service: &WebhookService) -> (r: String)
        ensures
            r@ == discord_body(*payload),
    {
        self.format_payload(payload)
    }
}

} // verus!
