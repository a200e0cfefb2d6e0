use vstd::prelude::*;
use vstd::string::StrSliceExecFns;
use vstd::string::StringExecFns;
use crate::config::Element;

verus! {

/// How the content of one segment comes about.
#[derive(Debug)]
pub enum Producer {
    /// Run `command` once; each line of its output is an update.
    Stream { command: String },
    /// Run `command` to completion every `interval_ms` milliseconds; each
    /// whole output, without trailing line ends, is an update.
    Periodic { command: String, interval_ms: u32 },
    /// Send `text` once, at startup.
    Once { text: String },
    /// Send nothing.
    Idle,
}

/// `n` blanks.
pub open spec fn spaces(n: nat) -> Seq<char> {
    Seq::new(n, |i: int| ' ')
}

/// A blank of `n` spaces.
pub fn blank(n: u32) -> (r: String)
    ensures
        r@ == spaces(n as nat),
{
    let mut s = String::new();
    let mut i: u32 = 0;
    while i < n
        invariant
            i <= n,
            s@ == spaces(i as nat),
        decreases n - i,
    {
        proof {
            reveal_strlit(" ");
        }
        s.append(" ");
        i = i + 1;
        assert(s@ =~= spaces(i as nat));
    }
    s
}

impl Element {
    /// The producer that feeds this element's slot.
    pub fn producer(&self) -> (r: Producer)
        ensures
            match self {
                Element::Command { command, .. } => r matches Producer::Stream { command: c } && c@ == command@,
                Element::Repeat { command, time, .. } => r matches Producer::Periodic { command: c, interval_ms }
                    && c@ == command@ && interval_ms == *time,
                Element::Fixed { size } => r matches Producer::Once { text } && text@ == spaces(*size as nat),
                Element::Seperator { sep } => r matches Producer::Once { text } && text@ == sep@,
                Element::Right => r is Idle,
            },
    {
        match self {
            Element::Command { command, .. } => Producer::Stream { command: command.clone() },
            Element::Repeat { command, time, .. } => Producer::Periodic { command: command.clone(), interval_ms: *time },
            Element::Fixed { size } => Producer::Once { text: blank(*size) },
            Element::Seperator { sep } => Producer::Once { text: sep.clone() },
            Element::Right => Producer::Idle,
        }
    }
}

/// Whether `c` ends a line.
pub open spec fn is_line_end(c: char) -> bool {
    c == '\n' || c == '\r'
}

/// `s` without the line ends at its end.
pub open spec fn trim_line_ends(s: Seq<char>) -> Seq<char>
    decreases s.len(),
{
    if s.len() > 0 && is_line_end(s.last()) {
        trim_line_ends(s.drop_last())
    } else {
        s
    }
}

/// The output of a periodic command as its update: without the newlines and
/// carriage returns at its end.
pub fn trim_output(out: &str) -> (r: String)
    ensures
        r@ == trim_line_ends(out@),
{
    let mut end = out.unicode_len();
    assert(out@.take(out@.len() as int) =~= out@);
    while end > 0 && is_line_end_exec(out.get_char(end - 1))
        invariant
            end <= out@.len(),
            trim_line_ends(out@) == trim_line_ends(out@.take(end as int)),
        decreases end,
    {
        assert(out@.take(end - 1) =~= out@.take(end as int).drop_last());
        end = end - 1;
    }
    String::from_str(out.substring_char(0, end))
}

fn is_line_end_exec(c: char) -> (r: bool)
    ensures
        r == is_line_end(c),
{
    c == '\n' || c == '\r'
}

/// How long a periodic producer sleeps after a run that took `elapsed_nanos`,
/// so that runs start `interval_ms` apart; a run that took longer is followed
/// by the next one at once.
pub fn remaining_nanos(interval_ms: u32, elapsed_nanos: u64) -> (r: u64)
    ensures
        r == if elapsed_nanos < interval_ms * 1_000_000 { interval_ms * 1_000_000 - elapsed_nanos } else { 0 },
        elapsed_nanos + r >= interval_ms * 1_000_000,
{
    let interval = interval_ms as u64 * 1_000_000;
    if elapsed_nanos < interval {
        interval - elapsed_nanos
    } else {
        0
    }
}

} // verus!
