//! Telegram Bot API webhook formatter.
use vstd::prelude::*;
use crate::alert::condition::tag_spec;
use crate::alert::formatter::{json_quoted, json_string, truncate, truncated, AlertPayload, ServiceView, WebhookFormatter, WebhookService};
use crate::text::{chars_of, push_char, push_str};

verus! {

/// Telegram Bot API formatter with `MarkdownV2`.
#[derive(Debug)]
pub struct TelegramFormatter;

/// Whether `MarkdownV2` gives a character a meaning, so that it must be escaped.
pub open spec fn is_markdown_special(c: char) -> bool {
    c == '_' || c == '*' || c == '[' || c == ']' || c == '(' || c == ')' || c == '~' || c == '`'
        || c == '>' || c == '#' || c == '+' || c == '-' || c == '=' || c == '|' || c == '{'
        || c == '}' || c == '.' || c == '!'
}

/// The text with a backslash before each special character.
pub open spec fn escape_markdown_spec(s: Seq<char>) -> Seq<char>
    decreases s.len(),
{
    if s.len() == 0 {
        Seq::empty()
    } else if is_markdown_special(s.last()) {
        escape_markdown_spec(s.drop_last()) + seq!['\\', s.last()]
    } else {
        escape_markdown_spec(s.drop_last()) + seq![s.last()]
    }
}

/// Escape special characters for Telegram `MarkdownV2`.
pub fn escape_markdown(s: &str) -> (r: String)
    ensures
        r@ == escape_markdown_spec(s@),
{
    let cs = chars_of(s);
    let mut r = String::new();
    let mut i: usize = 0;
    while i < cs.len()
        invariant
            i <= cs@.len(),
            cs@ == s@,
            r@ == escape_markdown_spec(cs@.take(i as int)),
        decreases cs@.len() - i,
    {
        let c = cs[i];
        let special = c == '_' || c == '*' || c == '[' || c == ']' || c == '(' || c == ')' || c == '~'
            || c == '`' || c == '>' || c == '#' || c == '+' || c == '-' || c == '=' || c == '|'
            || c == '{' || c == '}' || c == '.' || c == '!';
        if special {
            push_char(&mut r, '\\');
        }
        push_char(&mut r, c);
        proof {
            let t = cs@.take(i + 1);
            assert(t.drop_last() =~= cs@.take(i as int));
            assert(t.last() == c);
        }
        i += 1;
    }
    assert(cs@.take(cs@.len() as int) =~= cs@);
    r
}

/// The field lines: `*key*: value` for each entry, escaped.
pub open spec fn telegram_fields_md(es: Seq<(Seq<char>, Seq<char>)>) -> Seq<char>
    decreases es.len(),
{
    if es.len() == 0 {
        Seq::empty()
    } else {
        telegram_fields_md(es.drop_last()) + "*"@ + escape_markdown_spec(es.last().0) + "*: "@
            + escape_markdown_spec(es.last().1) + "\n"@
    }
}

/// The message text for a payload.
pub open spec fn telegram_text(p: AlertPayload) -> Seq<char> {
    let es = p.fields.entries_view();
    tag_spec(p.severity) + " *"@ + escape_markdown_spec(p.title@) + "*\n\n```\n"@ + truncated(p.message@, 3800)
        + "\n```"@ + (if es.len() > 0 {
        "\n\n"@ + telegram_fields_md(es)
    } else {
        Seq::empty()
    }) + telegram_source_md(p.program)
}

/// The closing line naming the source program, if there is one.
pub open spec fn telegram_source_md(program: Option<String>) -> Seq<char> {
    match program {
        Some(prog) => "\n_Source: "@ + escape_markdown_spec(prog@) + "_"@,
        None => Seq::empty(),
    }
}

/// The chat a service sends to: its chat ID for Telegram, empty otherwise.
pub open spec fn chat_id_of(service: ServiceView) -> Seq<char> {
    match service {
        ServiceView::Telegram { chat_id } => chat_id,
        _ => Seq::empty(),
    }
}

/// The JSON body of a `sendMessage` request for a payload.
pub open spec fn telegram_body(p: AlertPayload, service: ServiceView) -> Seq<char> {
    "{\"chat_id\":"@ + json_quoted(chat_id_of(service)) + ",\"parse_mode\":\"MarkdownV2\",\"text\":"@
        + json_quoted(telegram_text(p)) + "}"@
}

/// Appends the field lines of the payload.
fn push_fields_md(r: &mut String, payload: &AlertPayload)
    ensures
        final(r)@ == old(r)@ + telegram_fields_md(payload.fields.entries_view()),
{
    let ghost es = payload.fields.entries_view();
    let ghost start = r@;
    let n = payload.fields.len();
    let mut i: usize = 0;
    while i < n
        invariant
            i <= n == es.len(),
            es == payload.fields.entries_view(),
            r@ == start + telegram_fields_md(es.take(i as int)),
        decreases n - i,
    {
        let (k, v) = payload.fields.entry(i);
        push_str(r, "*");
        let e = escape_markdown(k.as_str());
        push_str(r, e.as_str());
        push_str(r, "*: ");
        let e = escape_markdown(v.as_str());
        push_str(r, e.as_str());
        push_str(r, "\n");
        proof {
            let t = es.take(i + 1);
            assert(t.drop_last() =~= es.take(i as int));
            assert(t.last() == es[i as int]);
            assert(r@ =~= start + telegram_fields_md(t));
        }
        i += 1;
    }
    assert(es.take(n as int) =~= es);
}

impl TelegramFormatter {
    /// The message text for the payload.
    pub fn message_text(&self, payload: &AlertPayload) -> (r: String)
        ensures
            r@ == telegram_text(*payload),
    {
        let mut text = String::new();
        push_str(&mut text, payload.severity.tag());
        push_str(&mut text, " *");
        let e = escape_markdown(payload.title.as_str());
        push_str(&mut text, e.as_str());
        push_str(&mut text, "*\n\n```\n");
        push_str(&mut text, truncate(payload.message.as_str(), 3800));
        push_str(&mut text, "\n```");
        let ghost head = text@;
        if !payload.fields.is_empty() {
            push_str(&mut text, "\n\n");
            push_fields_md(&mut text, payload);
        }
        let ghost with_fields = text@;
        match &payload.program {
            Some(prog) => {
                push_str(&mut text, "\n_Source: ");
                let e = escape_markdown(prog.as_str());
                push_str(&mut text, e.as_str());
                push_str(&mut text, "_");
            },
            None => {},
        }
        proof {
            let es = payload.fields.entries_view();
            let fm = if es.len() > 0 {
                "\n\n"@ + telegram_fields_md(es)
            } else {
                Seq::<char>::empty()
            };
            assert(with_fields =~= head + fm);
            assert(text@ =~= with_fields + telegram_source_md(payload.program));
        }
        text
    }

    /// The JSON body for the payload, sent to the service's chat.
    pub fn format_payload(&self, payload: &AlertPayload, service: &WebhookService) -> (r: String)
        ensures
            r@ == telegram_body(*payload, service@),
    {
        let empty = String::new();
        let chat_id = match service {
            WebhookService::Telegram { chat_id } => chat_id,
            _ => &empty,
        };
        let text = self.message_text(payload);
        let mut r = String::new();
        push_str(&mut r, "{\"chat_id\":");
        let q = json_string(chat_id.as_str());
        push_str(&mut r, q.as_str());
        push_str(&mut r, ",\"parse_mode\":\"MarkdownV2\",\"text\":");
        let q = json_string(text.as_str());
        push_str(&mut r, q.as_str());
        push_str(&mut r, "}");
        r
    }
}

impl WebhookFormatter for TelegramFormatter {
    fn format(&self, payload: &AlertPayload, service: &WebhookService) -> (r: String)
        ensures
            r@ == telegram_body(*payload, service@),
    {
        self.format_payload(payload, service)
    }
}

} // verus!
