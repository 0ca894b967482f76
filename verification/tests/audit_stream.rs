use reliability_toolkit::audit_stream::{
    cause_label, event_kind, event_source, events_endpoint, normalize_base_url, state_label,
    transition_notice, AuditEvent, AuditNotice, TransitionCause,
};
use reliability_toolkit::CircuitState;

#[test]
fn base_url_is_trimmed_and_loses_trailing_slashes() {
    assert_eq!(
        normalize_base_url("http://audit.local:8093/").as_deref(),
        Some("http://audit.local:8093")
    );
    assert_eq!(
        normalize_base_url("  http://audit.local:8093//  \n").as_deref(),
        Some("http://audit.local:8093")
    );
    assert_eq!(
        normalize_base_url("http://a/b").as_deref(),
        Some("http://a/b")
    );
}

#[test]
fn blank_base_url_disables() {
    assert_eq!(normalize_base_url(""), None);
    assert_eq!(normalize_base_url("   \t\n"), None);
}

#[test]
fn only_slashes_leave_an_empty_url() {
    assert_eq!(normalize_base_url(" /// ").as_deref(), Some(""));
}

#[test]
fn endpoint_appends_events() {
    assert_eq!(events_endpoint("http://audit.local:8093"), "http://audit.local:8093/events");
}

#[test]
fn labels() {
    assert_eq!(state_label(CircuitState::Closed), "closed");
    assert_eq!(state_label(CircuitState::Open), "open");
    assert_eq!(state_label(CircuitState::HalfOpen), "half_open");
    assert_eq!(event_kind(AuditEvent::Opened), "breaker_opened");
    assert_eq!(event_kind(AuditEvent::Recovered), "breaker_recovered");
    assert_eq!(cause_label(TransitionCause::Call), "call");
    assert_eq!(cause_label(TransitionCause::Trip), "trip");
    assert_eq!(cause_label(TransitionCause::Reset), "reset");
    assert_eq!(event_source(), "reliability-toolkit");
}

#[test]
fn manual_trip_emits_breaker_opened() {
    let n = transition_notice(CircuitState::Closed, CircuitState::Open, TransitionCause::Trip);
    assert_eq!(
        n,
        Some(AuditNotice {
            event: AuditEvent::Opened,
            previous_state: CircuitState::Closed,
            cause: TransitionCause::Trip,
        })
    );
}

#[test]
fn manual_reset_after_trip_emits_breaker_recovered() {
    let n = transition_notice(CircuitState::Open, CircuitState::Closed, TransitionCause::Reset);
    assert_eq!(
        n,
        Some(AuditNotice {
            event: AuditEvent::Recovered,
            previous_state: CircuitState::Open,
            cause: TransitionCause::Reset,
        })
    );
}

#[test]
fn trip_when_already_open_is_silent() {
    assert_eq!(
        transition_notice(CircuitState::Open, CircuitState::Open, TransitionCause::Trip),
        None
    );
}

#[test]
fn internal_transitions_are_not_audited() {
    assert_eq!(
        transition_notice(CircuitState::Open, CircuitState::HalfOpen, TransitionCause::Call),
        None
    );
    assert_eq!(
        transition_notice(CircuitState::Closed, CircuitState::HalfOpen, TransitionCause::Call),
        None
    );
    assert_eq!(
        transition_notice(CircuitState::Closed, CircuitState::Closed, TransitionCause::Reset),
        None
    );
}

#[test]
fn half_open_recovery_and_relapse() {
    assert_eq!(
        transition_notice(CircuitState::HalfOpen, CircuitState::Closed, TransitionCause::Call)
            .map(|n| n.event),
        Some(AuditEvent::Recovered)
    );
    assert_eq!(
        transition_notice(CircuitState::HalfOpen, CircuitState::Open, TransitionCause::Call)
            .map(|n| n.event),
        Some(AuditEvent::Opened)
    );
}

#[test]
fn unicode_whitespace_is_trimmed() {
    assert_eq!(normalize_base_url("\u{3000}\u{85}\u{a0}"), None);
    assert_eq!(
        normalize_base_url("\u{2003}http://x/\u{2029}").as_deref(),
        Some("http://x")
    );
}
