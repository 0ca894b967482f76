use reliability_toolkit::circuit_breaker::{CircuitBreaker, CircuitState};
use reliability_toolkit::{Span, ToolkitError};

fn call_at(cb: &mut CircuitBreaker, now: Span, succeeds: bool) -> Result<bool, ToolkitError> {
    cb.try_admit_at(now)?;
    cb.record_at(succeeds, now);
    Ok(succeeds)
}

#[test]
fn starts_closed() {
    let mut cb = CircuitBreaker::new();
    assert_eq!(cb.state(), CircuitState::Closed);
    assert_eq!(cb.state_at(Span::from_secs(1_000)), CircuitState::Closed);
}

#[test]
fn successes_keep_it_closed() {
    let mut cb = CircuitBreaker::new();
    for i in 0..10 {
        let r = call_at(&mut cb, Span::from_secs(i), true);
        assert_eq!(r, Ok(true));
    }
    assert_eq!(cb.state_at(Span::from_secs(10)), CircuitState::Closed);
}

#[test]
fn trips_after_threshold_consecutive_failures() {
    let mut cb = CircuitBreaker::builder()
        .failure_threshold(3)
        .cool_down(Span::from_secs(60))
        .build();
    for _ in 0..3 {
        let r = call_at(&mut cb, Span::zero(), false);
        assert_eq!(r, Ok(false));
    }
    assert_eq!(cb.state_at(Span::zero()), CircuitState::Open);
}

#[test]
fn open_breaker_rejects_calls_without_invoking_them() {
    let mut cb = CircuitBreaker::builder()
        .failure_threshold(1)
        .cool_down(Span::from_secs(60))
        .build();
    let _ = call_at(&mut cb, Span::zero(), false);
    assert_eq!(cb.state_at(Span::zero()), CircuitState::Open);

    let mut invocations = 0;
    let r = match cb.try_admit_at(Span::from_secs(1)) {
        Ok(()) => {
            invocations += 1;
            Ok(99_u32)
        }
        Err(e) => Err(e),
    };
    assert!(matches!(r, Err(ToolkitError::CircuitOpen { .. })));
    assert_eq!(invocations, 0);
    assert_eq!(
        r,
        Err(ToolkitError::CircuitOpen { retry_after: Span::from_secs(59) })
    );
}

#[test]
fn cool_down_transitions_to_half_open() {
    let mut cb = CircuitBreaker::builder()
        .failure_threshold(1)
        .cool_down(Span::from_secs(30))
        .half_open_max_calls(2)
        .build();
    let _ = call_at(&mut cb, Span::zero(), false);
    assert_eq!(cb.state_at(Span::zero()), CircuitState::Open);
    assert_eq!(cb.state_at(Span::from_secs(31)), CircuitState::HalfOpen);
}

#[test]
fn half_open_success_closes_breaker() {
    let mut cb = CircuitBreaker::builder()
        .failure_threshold(1)
        .cool_down(Span::from_secs(30))
        .half_open_max_calls(1)
        .build();
    let _ = call_at(&mut cb, Span::zero(), false);
    let t = Span::from_secs(31);
    assert_eq!(cb.state_at(t), CircuitState::HalfOpen);
    assert_eq!(call_at(&mut cb, t, true), Ok(true));
    assert_eq!(cb.state_at(t), CircuitState::Closed);
}

#[test]
fn half_open_failure_re_opens() {
    let mut cb = CircuitBreaker::builder()
        .failure_threshold(1)
        .cool_down(Span::from_secs(30))
        .half_open_max_calls(1)
        .build();
    let _ = call_at(&mut cb, Span::zero(), false);
    let t = Span::from_secs(31);
    assert_eq!(cb.state_at(t), CircuitState::HalfOpen);
    let _ = call_at(&mut cb, t, false);
    assert_eq!(cb.state_at(t), CircuitState::Open);
    // It stays open for a whole cool-down from the failed trial.
    assert_eq!(cb.state_at(Span::from_secs(60)), CircuitState::Open);
    assert_eq!(cb.state_at(Span::from_secs(61)), CircuitState::HalfOpen);
}

#[test]
fn manual_trip_and_reset() {
    let mut cb = CircuitBreaker::new();
    cb.trip();
    assert_eq!(cb.state(), CircuitState::Open);
    cb.reset();
    assert_eq!(cb.state(), CircuitState::Closed);
}

#[test]
fn single_failure_below_threshold_stays_closed() {
    let mut cb = CircuitBreaker::builder().failure_threshold(3).build();
    for _ in 0..2 {
        let _ = call_at(&mut cb, Span::zero(), false);
    }
    assert_eq!(cb.state_at(Span::zero()), CircuitState::Closed);
    // One success resets the consecutive count.
    let _ = call_at(&mut cb, Span::zero(), true);
    // Now two more failures shouldn't trip it.
    for _ in 0..2 {
        let _ = call_at(&mut cb, Span::zero(), false);
    }
    assert_eq!(cb.state_at(Span::zero()), CircuitState::Closed);
}

#[test]
fn default_breaker_needs_five_failures() {
    let mut cb = CircuitBreaker::default();
    for _ in 0..4 {
        let _ = call_at(&mut cb, Span::zero(), false);
    }
    assert_eq!(cb.state_at(Span::zero()), CircuitState::Closed);
    let _ = call_at(&mut cb, Span::zero(), false);
    assert_eq!(cb.state_at(Span::zero()), CircuitState::Open);
    // Default cool-down is 30 s.
    assert_eq!(cb.state_at(Span::from_secs(29)), CircuitState::Open);
    assert_eq!(cb.state_at(Span::from_secs(30)), CircuitState::HalfOpen);
}

#[test]
fn half_open_admits_only_the_configured_trials() {
    let mut cb = CircuitBreaker::builder()
        .failure_threshold(1)
        .cool_down(Span::from_secs(10))
        .half_open_max_calls(2)
        .build();
    let _ = call_at(&mut cb, Span::zero(), false);
    let t = Span::from_secs(10);
    assert_eq!(cb.try_admit_at(t), Ok(()));
    assert_eq!(cb.try_admit_at(t), Ok(()));
    // The third trial is rejected; the breaker still expects to be open
    // for zero more time, since the cool-down has run out.
    assert_eq!(
        cb.try_admit_at(t),
        Err(ToolkitError::CircuitOpen { retry_after: Span::zero() })
    );
    // All admitted trials must succeed before the breaker closes.
    cb.record_at(true, t);
    assert_eq!(cb.state_at(t), CircuitState::HalfOpen);
    cb.record_at(true, t);
    assert_eq!(cb.state_at(t), CircuitState::Closed);
}

#[test]
fn retry_after_counts_down_the_cool_down() {
    let mut cb = CircuitBreaker::builder()
        .failure_threshold(1)
        .cool_down(Span::from_millis(1_500))
        .build();
    assert_eq!(cb.retry_after_at(Span::zero()), Span::zero());
    let _ = call_at(&mut cb, Span::from_secs(2), false);
    assert_eq!(cb.retry_after_at(Span::from_secs(2)), Span::from_millis(1_500));
    assert_eq!(cb.retry_after_at(Span::from_millis(3_000)), Span::from_millis(500));
    assert_eq!(cb.retry_after_at(Span::from_secs(9)), Span::zero());
    // A clock reading before the trip counts as no time elapsed.
    assert_eq!(cb.retry_after_at(Span::from_secs(1)), Span::from_millis(1_500));
}

#[test]
fn trip_keeps_open_until_cool_down_then_half_opens() {
    let mut cb = CircuitBreaker::builder().cool_down(Span::from_secs(5)).build();
    cb.trip_at(Span::from_secs(100));
    assert_eq!(cb.state_at(Span::from_secs(104)), CircuitState::Open);
    assert_eq!(cb.state_at(Span::from_secs(105)), CircuitState::HalfOpen);
    cb.reset();
    assert_eq!(cb.state_at(Span::from_secs(105)), CircuitState::Closed);
}

#[test]
fn outcome_recorded_while_open_is_ignored() {
    let mut cb = CircuitBreaker::builder()
        .failure_threshold(2)
        .cool_down(Span::from_secs(5))
        .build();
    cb.trip_at(Span::zero());
    cb.record_at(true, Span::from_secs(1));
    assert_eq!(cb.state_at(Span::from_secs(1)), CircuitState::Open);
    assert_eq!(cb.state_at(Span::from_secs(5)), CircuitState::HalfOpen);
}

#[test]
fn config_is_kept() {
    let cb = CircuitBreaker::builder()
        .failure_threshold(7)
        .cool_down(Span::from_secs(3))
        .half_open_max_calls(4)
        .build();
    let c = cb.config();
    // Re-building from the kept configuration behaves the same.
    let mut again = c.build();
    for _ in 0..6 {
        let _ = call_at(&mut again, Span::zero(), false);
    }
    assert_eq!(again.state_at(Span::zero()), CircuitState::Closed);
    let _ = call_at(&mut again, Span::zero(), false);
    assert_eq!(again.state_at(Span::zero()), CircuitState::Open);
}

#[test]
fn clock_reading_operations_follow_the_same_machine() {
    let mut cb = CircuitBreaker::builder()
        .failure_threshold(2)
        .cool_down(Span::from_secs(3_600))
        .build();
    assert_eq!(cb.try_admit(), Ok(()));
    cb.record(false);
    assert_eq!(cb.state(), CircuitState::Closed);
    assert_eq!(cb.try_admit(), Ok(()));
    cb.record(false);
    assert_eq!(cb.state(), CircuitState::Open);
    match cb.try_admit() {
        Err(ToolkitError::CircuitOpen { retry_after }) => {
            assert!(retry_after.as_nanos() <= Span::from_secs(3_600).as_nanos());
            assert!(retry_after.as_nanos() > 0);
        }
        other => panic!("expected a rejection, got {other:?}"),
    }
    cb.reset();
    assert_eq!(cb.try_admit(), Ok(()));
}

#[test]
fn clock_readings_never_precede_the_latest_time_acted_at() {
    let mut cb = CircuitBreaker::builder()
        .cool_down(Span::from_secs(5))
        .half_open_max_calls(1)
        .build();
    cb.trip_at(Span::zero());
    assert_eq!(cb.state_at(Span::from_secs(10)), CircuitState::HalfOpen);
    assert_eq!(cb.try_admit_at(Span::from_secs(10)), Ok(()));
    // The clock started a moment ago, but its readings are taken no earlier
    // than 10 s, so the full half-open breaker reports no wait.
    assert_eq!(
        cb.try_admit(),
        Err(ToolkitError::CircuitOpen { retry_after: Span::zero() })
    );
    assert_eq!(cb.state(), CircuitState::HalfOpen);
}
