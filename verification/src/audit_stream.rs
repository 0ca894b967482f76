//! Decisions behind the audit events of a circuit breaker.
//!
//! A breaker wrapped for auditing reports the state transitions worth
//! recording to an audit-stream service:
//!
//! - `breaker_opened`     — closed/half-open → open. The "we just stopped
//!                          trusting a downstream" signal.
//! - `breaker_recovered`  — half-open → closed, or a manual reset of an open
//!                          or half-open breaker. The "downstream looks
//!                          healthy again" signal.
//!
//! Closed → half-open and half-open ↔ half-open are not audit-worthy on their
//! own; no transition at all never is. This module decides which event a
//! transition raises, what it is called, and where it is sent.

use crate::circuit_breaker::CircuitState;
use vstd::prelude::*;
use vstd::string::StringExecFns;

verus! {

/// The event a breaker transition raises.
#[derive(Clone, Copy, Debug, PartialEq, Eq, Structural)]
pub enum AuditEvent {
    /// The breaker opened.
    Opened,
    /// The breaker closed again.
    Recovered,
}

/// What caused a transition.
#[derive(Clone, Copy, Debug, PartialEq, Eq, Structural)]
pub enum TransitionCause {
    /// A call through the breaker.
    Call,
    /// A manual trip.
    Trip,
    /// A manual reset.
    Reset,
}

/// One event to report: what happened, the state the breaker left, and why.
#[derive(Clone, Copy, Debug, PartialEq, Eq, Structural)]
pub struct AuditNotice {
    /// The event raised.
    pub event: AuditEvent,
    /// The state before the transition.
    pub previous_state: CircuitState,
    /// What caused the transition.
    pub cause: TransitionCause,
}

/// The event a transition from `before` to `after` raises, if any.
pub open spec fn event_for(before: CircuitState, after: CircuitState) -> Option<AuditEvent> {
    if before == after {
        None
    } else if after == CircuitState::Open {
        Some(AuditEvent::Opened)
    } else if after == CircuitState::Closed {
        Some(AuditEvent::Recovered)
    } else {
        None
    }
}

/// The notice to report for a transition from `before` to `after`, if any:
/// the breaker opened, from whatever state; or it closed, from an open or
/// half-open state.
pub fn transition_notice(before: CircuitState, after: CircuitState, cause: TransitionCause) -> (r:
    Option<AuditNotice>)
    ensures
        r == match event_for(before, after) {
            Some(event) => Some(AuditNotice { event, previous_state: before, cause }),
            None => None,
        },
{
    if before == after {
        return None;
    }
    if after == CircuitState::Open {
        Some(AuditNotice { event: AuditEvent::Opened, previous_state: before, cause })
    } else if after == CircuitState::Closed {
        Some(AuditNotice { event: AuditEvent::Recovered, previous_state: before, cause })
    } else {
        None
    }
}

/// A transition that changes nothing is never reported; a trip raises
/// `breaker_opened` exactly when the breaker was not already open, and a
/// reset raises `breaker_recovered` exactly when it was not already closed.
pub proof fn law_only_real_transitions_are_reported(before: CircuitState, after: CircuitState)
    ensures
        event_for(before, before) is None,
        event_for(before, CircuitState::Open) == if before == CircuitState::Open {
            None
        } else {
            Some(AuditEvent::Opened)
        },
        event_for(before, CircuitState::Closed) == if before == CircuitState::Closed {
            None
        } else {
            Some(AuditEvent::Recovered)
        },
        event_for(before, CircuitState::HalfOpen) is None,
{
}

/// The name a state is reported under.
pub fn state_label(s: CircuitState) -> (r: &'static str)
    ensures
        r@ == match s {
            CircuitState::Closed => "closed"@,
            CircuitState::Open => "open"@,
            CircuitState::HalfOpen => "half_open"@,
        },
{
    match s {
        CircuitState::Closed => "closed",
        CircuitState::Open => "open",
        CircuitState::HalfOpen => "half_open",
    }
}

/// The kind an event is reported under.
pub fn event_kind(e: AuditEvent) -> (r: &'static str)
    ensures
        r@ == match e {
            AuditEvent::Opened => "breaker_opened"@,
            AuditEvent::Recovered => "breaker_recovered"@,
        },
{
    match e {
        AuditEvent::Opened => "breaker_opened",
        AuditEvent::Recovered => "breaker_recovered",
    }
}

/// The name a cause is reported under.
pub fn cause_label(c: TransitionCause) -> (r: &'static str)
    ensures
        r@ == match c {
            TransitionCause::Call => "call"@,
            TransitionCause::Trip => "trip"@,
            TransitionCause::Reset => "reset"@,
        },
{
    match c {
        TransitionCause::Call => "call",
        TransitionCause::Trip => "trip",
        TransitionCause::Reset => "reset",
    }
}

/// The source every event is reported from.
pub fn event_source() -> (r: &'static str)
    ensures
        r@ == "reliability-toolkit"@,
{
    "reliability-toolkit"
}

/// Whether `c` has the Unicode `White_Space` property, which
/// `char::is_whitespace` tests: U+0009 to U+000D, U+0020, U+0085, U+00A0,
/// U+1680, U+2000 to U+200A, U+2028, U+2029, U+202F, U+205F and U+3000.
pub open spec fn is_white_space(c: char) -> bool {
    let u = c as u32;
    ||| 0x09 <= u <= 0x0D
    ||| u == 0x20
    ||| u == 0x85
    ||| u == 0xA0
    ||| u == 0x1680
    ||| 0x2000 <= u <= 0x200A
    ||| u == 0x2028
    ||| u == 0x2029
    ||| u == 0x202F
    ||| u == 0x205F
    ||| u == 0x3000
}

/// `s` without its leading whitespace.
pub open spec fn trim_start_spec(s: Seq<char>) -> Seq<char>
    decreases s.len(),
{
    if s.len() > 0 && is_white_space(s[0]) {
        trim_start_spec(s.drop_first())
    } else {
        s
    }
}

/// `s` without its trailing whitespace.
pub open spec fn trim_end_spec(s: Seq<char>) -> Seq<char>
    decreases s.len(),
{
    if s.len() > 0 && is_white_space(s.last()) {
        trim_end_spec(s.drop_last())
    } else {
        s
    }
}

/// `s` without its leading and trailing whitespace, as `str::trim` returns it.
pub open spec fn trimmed(s: Seq<char>) -> Seq<char> {
    trim_end_spec(trim_start_spec(s))
}

/// Calls `str::trim`, which removes leading and trailing whitespace.
#[verifier::external_body]
fn trim_whitespace(s: &str) -> (r: &str)
    ensures
        r@ == trimmed(s@),
{
    s.trim()
}

/// `s` without the `'/'` characters at its end.
pub open spec fn without_trailing_slashes(s: Seq<char>) -> Seq<char>
    decreases s.len(),
{
    if s.len() > 0 && s.last() == '/' {
        without_trailing_slashes(s.drop_last())
    } else {
        s
    }
}

/// The base URL a configured value denotes: `None` when the value is empty
/// once trimmed, else the trimmed value without its trailing slashes.
pub open spec fn base_url_of(raw: Seq<char>) -> Option<Seq<char>> {
    if trimmed(raw).len() == 0 {
        None
    } else {
        Some(without_trailing_slashes(trimmed(raw)))
    }
}

proof fn lemma_all_white_space_trims_to_empty(s: Seq<char>)
    requires
        forall|i: int| 0 <= i < s.len() ==> is_white_space(#[trigger] s[i]),
    ensures
        trim_start_spec(s).len() == 0,
    decreases s.len(),
{
    if s.len() > 0 {
        assert(is_white_space(s[0]));
        assert forall|i: int| 0 <= i < s.drop_first().len() implies is_white_space(
            #[trigger] s.drop_first()[i],
        ) by {
            assert(s.drop_first()[i] == s[i + 1]);
        }
        lemma_all_white_space_trims_to_empty(s.drop_first());
    }
}

/// A value made only of whitespace, the empty value among them, denotes no
/// base URL, so auditing stays off.
pub proof fn law_blank_value_disables(raw: Seq<char>)
    requires
        forall|i: int| 0 <= i < raw.len() ==> is_white_space(#[trigger] raw[i]),
    ensures
        base_url_of(raw) is None,
{
    lemma_all_white_space_trims_to_empty(raw);
}

/// The base URL a configured value denotes, or `None` when it is blank.
pub fn normalize_base_url(raw: &str) -> (r: Option<String>)
    ensures
        match r {
            Some(url) => base_url_of(raw@) == Some(url@),
            None => base_url_of(raw@) is None,
        },
{
    let t = trim_whitespace(raw);
    let n = t.unicode_len();
    if n == 0 {
        return None;
    }
    let mut end: usize = n;
    assert(t@.subrange(0, end as int) =~= t@);
    while end > 0 && t.get_char(end - 1) == '/'
        invariant
            n == t@.len(),
            end <= n,
            without_trailing_slashes(t@.subrange(0, end as int)) == without_trailing_slashes(t@),
        decreases end,
    {
        assert(t@.subrange(0, end as int).drop_last() =~= t@.subrange(0, end - 1));
        end = end - 1;
    }
    let kept = t.substring_char(0, end);
    Some(kept.to_owned())
}

/// The endpoint events are posted to under a base URL.
pub fn events_endpoint(base: &str) -> (r: String)
    ensures
        r@ == base@ + "/events"@,
{
    base.to_owned().concat("/events")
}

} // verus!
