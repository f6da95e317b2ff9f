//! Events that the web front end logs.

use vstd::prelude::*;
use vstd::string::StringExecFns;
use crate::text::{chars_equal, chars_of, lower_chars, lower_seq, string_from_chars};

verus! {

/// Longest event name kept.
pub const MAX_EVENT_NAME: usize = 96;

/// An event that the front end reports.
#[derive(Debug)]
pub struct FrontendLogEntry {
    pub level: String,
    pub event: String,
    pub detail: String,
    pub stack: Option<String>,
}

pub open spec fn event_char(c: char) -> bool {
    ('a' <= c && c <= 'z') || ('0' <= c && c <= '9') || c == '.' || c == '_' || c == '-'
}

/// The characters of `s` that may stand in an event name, in order.
pub open spec fn event_chars(s: Seq<char>) -> Seq<char>
    decreases s.len(),
{
    if s.len() == 0 {
        Seq::empty()
    } else if event_char(s.last()) {
        event_chars(s.drop_last()).push(s.last())
    } else {
        event_chars(s.drop_last())
    }
}

/// A machine-readable event name: lower case, only letters, digits, `.`,
/// `_` and `-`, at most 96 characters; `frontend.event` when nothing is left.
pub open spec fn sanitized_event(value: Seq<char>) -> Seq<char> {
    let kept = event_chars(lower_seq(value));
    if kept.len() == 0 {
        "frontend.event"@
    } else if kept.len() > MAX_EVENT_NAME {
        kept.take(MAX_EVENT_NAME as int)
    } else {
        kept
    }
}

/// The event name under which a front-end event is logged.
pub fn sanitize_event_name(value: &str) -> (s: String)
    ensures
        s@ == sanitized_event(value@),
{
    let lower = lower_chars(&chars_of(value));
    let mut kept: Vec<char> = Vec::new();
    let mut i: usize = 0;
    while i < lower.len()
        invariant
            i <= lower@.len(),
            kept@ == event_chars(lower@.take(i as int)),
        decreases lower@.len() - i,
    {
        let c = lower[i];
        assert(lower@.take(i + 1).drop_last() =~= lower@.take(i as int));
        if ('a' <= c && c <= 'z') || ('0' <= c && c <= '9') || c == '.' || c == '_' || c == '-' {
            kept.push(c);
        }
        i = i + 1;
    }
    assert(lower@.take(lower@.len() as int) =~= lower@);
    if kept.len() == 0 {
        return String::from_str("frontend.event");
    }
    if kept.len() > MAX_EVENT_NAME {
        let mut cut: Vec<char> = Vec::new();
        crate::text::extend_range(&mut cut, &kept, 0, MAX_EVENT_NAME);
        assert(cut@ =~= kept@.take(MAX_EVENT_NAME as int));
        return string_from_chars(&cut);
    }
    string_from_chars(&kept)
}

/// How severe a front-end event is.
#[derive(Debug, Clone, Copy, PartialEq, Eq)]
pub enum FrontendLogLevel {
    Error,
    Warn,
    Debug,
    Info,
}

pub open spec fn level_of(level: Seq<char>) -> FrontendLogLevel {
    let l = lower_seq(level);
    if l == "error"@ {
        FrontendLogLevel::Error
    } else if l == "warn"@ || l == "warning"@ {
        FrontendLogLevel::Warn
    } else if l == "debug"@ {
        FrontendLogLevel::Debug
    } else {
        FrontendLogLevel::Info
    }
}

/// The level a front-end event is logged at; unknown levels are `Info`.
pub fn frontend_log_level(level: &str) -> (l: FrontendLogLevel)
    ensures
        l == level_of(level@),
{
    let lower = lower_chars(&chars_of(level));
    if chars_equal(&lower, &chars_of("error")) {
        FrontendLogLevel::Error
    } else if chars_equal(&lower, &chars_of("warn")) || chars_equal(&lower, &chars_of("warning")) {
        FrontendLogLevel::Warn
    } else if chars_equal(&lower, &chars_of("debug")) {
        FrontendLogLevel::Debug
    } else {
        FrontendLogLevel::Info
    }
}

/// Event names are machine-readable and stable: a sanitized name has 1 to
/// 96 characters, each a lower-case letter, a digit, `.`, `_` or `-`, and
/// sanitizing it again gives it back.
pub proof fn sanitized_event_names_are_machine_readable(value: Seq<char>)
    ensures
        forall|i: int| 0 <= i < sanitized_event(value).len() ==> event_char(#[trigger] sanitized_event(value)[i]),
        1 <= sanitized_event(value).len() <= MAX_EVENT_NAME,
        sanitized_event(sanitized_event(value)) == sanitized_event(value),
{
    reveal_strlit("frontend.event");
    lemma_event_chars(lower_seq(value));
    let r = sanitized_event(value);
    assert forall|i: int| 0 <= i < r.len() implies event_char(#[trigger] r[i]) by {
        if event_chars(lower_seq(value)).len() == 0 {
            assert(r == "frontend.event"@);
        }
    }
    assert(lower_seq(r) =~= r);
    lemma_event_chars_keep_all(r);
}

/// A name made only of event characters keeps all of them.
proof fn lemma_event_chars_keep_all(s: Seq<char>)
    requires
        forall|i: int| 0 <= i < s.len() ==> event_char(#[trigger] s[i]),
    ensures
        event_chars(s) == s,
    decreases s.len(),
{
    if s.len() > 0 {
        lemma_event_chars_keep_all(s.drop_last());
        assert(event_char(s[s.len() - 1]));
        assert(event_chars(s.drop_last()).push(s.last()) =~= s);
    }
}

proof fn lemma_event_chars(s: Seq<char>)
    ensures
        forall|i: int| 0 <= i < event_chars(s).len() ==> event_char(#[trigger] event_chars(s)[i]),
        event_chars(s).len() <= s.len(),
    decreases s.len(),
{
    if s.len() > 0 {
        lemma_event_chars(s.drop_last());
    }
}

} // verus!
