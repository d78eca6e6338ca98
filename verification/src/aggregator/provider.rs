//! What container providers deliver, and how a provider that reads logs as
//! text turns a reply into log lines.
use vstd::prelude::*;
use vstd::string::StrSliceExecFns;
use crate::text::{lines, lines_spec, owned, push_str};

verus! {

/// A log line from a container.
#[derive(Debug, Clone)]
pub struct LogLine {
    /// The log content.
    pub content: String,
    /// Whether this is from stderr (vs stdout).
    pub is_stderr: bool,
    /// Timestamp if available.
    pub timestamp: Option<String>,
}

/// The line limit of the request that opens a stream: the requested tail,
/// or no limit where 0 asks for the whole history.
pub fn initial_tail(tail: usize) -> (r: Option<usize>)
    ensures
        r == if tail > 0 {
            Some(tail)
        } else {
            None::<usize>
        },
{
    if tail > 0 {
        Some(tail)
    } else {
        None
    }
}

/// The lines that are not empty, in order.
pub open spec fn non_empty_lines(ls: Seq<Seq<char>>) -> Seq<Seq<char>>
    decreases ls.len(),
{
    if ls.len() == 0 {
        Seq::empty()
    } else {
        non_empty_lines(ls.drop_last()) + if ls.last().len() == 0 {
            Seq::<Seq<char>>::empty()
        } else {
            seq![ls.last()]
        }
    }
}

/// The log lines are the given texts, in order, each from stdout and
/// without a timestamp.
pub open spec fn plain_lines(v: Seq<LogLine>, contents: Seq<Seq<char>>) -> bool {
    &&& v.len() == contents.len()
    &&& forall|i: int|
        0 <= i < v.len() ==> (#[trigger] v[i]).content@ == contents[i] && !v[i].is_stderr && v[i].timestamp is None
}

/// The non-empty lines among `ls[from..]`, as log lines.
fn plain_lines_from(ls: &Vec<String>, from: usize) -> (r: Vec<LogLine>)
    requires
        from <= ls@.len(),
    ensures
        plain_lines(r@, non_empty_lines(ls@.map_values(|l: String| l@).skip(from as int))),
{
    let ghost all = ls@.map_values(|l: String| l@);
    let mut out: Vec<LogLine> = Vec::new();
    let mut i: usize = from;
    while i < ls.len()
        invariant
            from <= i <= ls@.len(),
            all == ls@.map_values(|l: String| l@),
            plain_lines(out@, non_empty_lines(all.skip(from as int).take(i - from))),
        decreases ls@.len() - i,
    {
        let ghost t = all.skip(from as int).take(i - from + 1);
        assert(t.drop_last() =~= all.skip(from as int).take(i - from));
        assert(t.last() == ls@[i as int]@);
        if ls[i].as_str().unicode_len() > 0 {
            let ghost before = out@;
            out.push(LogLine { content: owned(ls[i].as_str()), is_stderr: false, timestamp: None });
            assert(plain_lines(out@, non_empty_lines(t))) by {
                assert(non_empty_lines(t) =~= non_empty_lines(t.drop_last()).push(t.last()));
            }
        } else {
            assert(non_empty_lines(t) =~= non_empty_lines(t.drop_last()));
        }
        i += 1;
    }
    assert(all.skip(from as int).take(i - from) =~= all.skip(from as int));
    out
}

/// The log lines of a reply's text: its non-empty lines, from stdout and
/// without a timestamp.
pub fn log_lines_from_text(text: &str) -> (r: Vec<LogLine>)
    ensures
        plain_lines(r@, non_empty_lines(lines_spec(text@))),
{
    let ls = lines(text);
    let r = plain_lines_from(&ls, 0);
    assert(ls@.map_values(|l: String| l@).skip(0) =~= lines_spec(text@));
    r
}

/// The log text of a DAPPMANAGER reply: its `logs` field where that is a
/// string, else the reply itself where it is a string, else nothing.
pub fn reply_logs_text(logs_field: Option<String>, reply_text: Option<String>) -> (r: String)
    ensures
        r@ == match (logs_field, reply_text) {
            (Some(l), _) => l@,
            (None, Some(t)) => t@,
            (None, None) => Seq::<char>::empty(),
        },
{
    match logs_field {
        Some(l) => l,
        None => match reply_text {
            Some(t) => t,
            None => String::new(),
        },
    }
}

/// The state of polling a log that can only be read whole: how many lines
/// the last reply had.
#[derive(Debug)]
pub struct LogPoll {
    last_line_count: usize,
}

impl LogPoll {
    /// The number of lines of the last reply.
    pub closed spec fn seen(&self) -> nat {
        self.last_line_count as nat
    }

    /// Polling that has seen nothing yet.
    pub fn new() -> (r: LogPoll)
        ensures
            r.seen() == 0,
    {
        LogPoll { last_line_count: 0 }
    }

    /// Take the text of a new reply: where it has more lines than the last
    /// one, the non-empty lines past those are new; the reply's line count is
    /// remembered either way.
    pub fn poll(&mut self, text: &str) -> (r: Vec<LogLine>)
        ensures
            final(self).seen() == lines_spec(text@).len(),
            plain_lines(
                r@,
                if lines_spec(text@).len() > old(self).seen() {
                    non_empty_lines(lines_spec(text@).skip(old(self).seen() as int))
                } else {
                    Seq::empty()
                },
            ),
    {
        let ls = lines(text);
        let n = ls.len();
        assert(ls@.map_values(|l: String| l@).len() == n);
        let r = if n > self.last_line_count {
            plain_lines_from(&ls, self.last_line_count)
        } else {
            Vec::new()
        };
        self.last_line_count = n;
        r
    }
}

/// What a provider without log access gives for a container's logs: one
/// line that says so.
pub fn unavailable_log_line(container_id: &str) -> (r: LogLine)
    ensures
        r.content@ == "[phos] Log streaming not available for '"@ + container_id@
            + "'. DAPPMANAGER requires authentication for log access. Container status is available in the sidebar."@,
        !r.is_stderr,
        r.timestamp is None,
{
    let mut content = owned("[phos] Log streaming not available for '");
    push_str(&mut content, container_id);
    push_str(
        &mut content,
        "'. DAPPMANAGER requires authentication for log access. Container status is available in the sidebar.",
    );
    LogLine { content, is_stderr: false, timestamp: None }
}

} // verus!
