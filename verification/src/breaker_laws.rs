//! Laws of the circuit breaker's state machine, stated over the plain-value
//! model that the operations of [`crate::circuit_breaker::CircuitBreaker`]
//! are specified by.

use crate::circuit_breaker::{
    admits, fresh, gate, later_of, machine_wf, read_once, record, retry_after, settled, tick,
    tripped, BreakerConfig, BreakerModel, CircuitState, Machine,
};
use crate::time::elapsed_between;
use vstd::prelude::*;

verus! {

/// `k` failed calls recorded one after another at `now`.
pub open spec fn record_failures(c: BreakerConfig, m: Machine, k: nat, now: nat) -> Machine
    decreases k,
{
    if k == 0 {
        m
    } else {
        record(c, record_failures(c, m, (k - 1) as nat, now), false, now)
    }
}

/// `k` successful calls recorded one after another at `now`.
pub open spec fn record_successes(c: BreakerConfig, m: Machine, k: nat, now: nat) -> Machine
    decreases k,
{
    if k == 0 {
        m
    } else {
        record(c, record_successes(c, m, (k - 1) as nat, now), true, now)
    }
}

/// `k` calls passed through admission one after another at `now`, with no
/// outcome recorded in between.
pub open spec fn gates(c: BreakerConfig, m: Machine, k: nat, now: nat) -> Machine
    decreases k,
{
    if k == 0 {
        m
    } else {
        gate(c, gates(c, m, (k - 1) as nat, now), now)
    }
}

/// Every operation keeps the invariant of the state machine: the cool-down
/// check, admission, recording either outcome, tripping and resetting.
pub proof fn law_operations_keep_invariant(
    c: BreakerConfig,
    m: Machine,
    now: nat,
    succeeded: bool,
)
    requires
        machine_wf(c, m),
    ensures
        machine_wf(c, tick(c, m, now)),
        machine_wf(c, gate(c, m, now)),
        machine_wf(c, record(c, m, succeeded, now)),
        machine_wf(c, tripped(m, now)),
        machine_wf(c, fresh()),
{
}

/// Acting at a time keeps a half-open breaker's cool-down run out by the
/// latest time it acted at, whatever operation it is.
pub proof fn law_operations_keep_half_open_settled(
    c: BreakerConfig,
    m: Machine,
    latest: nat,
    now: nat,
    succeeded: bool,
)
    requires
        machine_wf(c, m),
        settled(c, m, latest),
    ensures
        settled(c, tick(c, m, now), later_of(latest, now)),
        settled(c, gate(c, m, now), later_of(latest, now)),
        settled(c, record(c, m, succeeded, now), later_of(latest, now)),
        settled(c, tripped(m, now), later_of(latest, now)),
        settled(c, fresh(), latest),
{
}

/// On a clock that never runs backwards, a half-open breaker has no wait
/// left: when it rejects a call for having all its trials in flight, it
/// reports zero time to stay open.
pub proof fn law_half_open_waits_nothing(c: BreakerConfig, m: Machine, latest: nat, now: nat)
    requires
        machine_wf(c, m),
        settled(c, m, latest),
        now >= latest,
        tick(c, m, now).state == CircuitState::HalfOpen,
    ensures
        retry_after(c, m, now) == 0,
{
}

/// `k` calls admitted one after another at `now`, each recorded as failed at
/// `now` right after its admission.
pub open spec fn admitted_failures(c: BreakerConfig, m: Machine, k: nat, now: nat) -> Machine
    decreases k,
{
    if k == 0 {
        m
    } else {
        let before = admitted_failures(c, m, (k - 1) as nat, now);
        record(c, gate(c, before, now), false, now)
    }
}

/// The cool-down check changes only an open breaker: a closed or half-open
/// breaker is left exactly as it was, at any time.
pub proof fn law_cool_down_check_leaves_non_open_alone(c: BreakerConfig, m: Machine, now: nat)
    requires
        m.state != CircuitState::Open,
    ensures
        tick(c, m, now) == m,
{
}

/// A closed breaker admits a call at any time, and a failure recorded for
/// it adds one to the count of consecutive failures, tripping the breaker
/// open at that time exactly when the count reaches the threshold.
pub proof fn law_admitted_failure_counts(c: BreakerConfig, m: Machine, now: nat)
    requires
        machine_wf(c, m),
        m.state == CircuitState::Closed,
    ensures
        admits(c, tick(c, m, now)),
        m.failures + 1 < c.failure_threshold ==> record(c, gate(c, m, now), false, now).state
            == CircuitState::Closed && record(c, gate(c, m, now), false, now).failures
            == m.failures + 1,
        m.failures + 1 >= c.failure_threshold ==> record(c, gate(c, m, now), false, now).state
            == CircuitState::Open && record(c, gate(c, m, now), false, now).opened_at == Some(
            now,
        ),
{
}

/// From a closed breaker, calls admitted and failing one after another at any
/// time leave it closed while fewer than the threshold have failed in a row,
/// and open once the count reaches the threshold.
pub proof fn law_admitted_failures_trip_at_threshold(
    c: BreakerConfig,
    m: Machine,
    k: nat,
    now: nat,
)
    requires
        machine_wf(c, m),
        m.state == CircuitState::Closed,
        m.failures + k <= c.failure_threshold,
    ensures
        machine_wf(c, admitted_failures(c, m, k, now)),
        m.failures + k < c.failure_threshold ==> admitted_failures(c, m, k, now).state
            == CircuitState::Closed && admitted_failures(c, m, k, now).failures == m.failures + k,
        m.failures + k == c.failure_threshold ==> admitted_failures(c, m, k, now).state
            == CircuitState::Open,
    decreases k,
{
    if k > 0 {
        law_admitted_failures_trip_at_threshold(c, m, (k - 1) as nat, now);
        let before = admitted_failures(c, m, (k - 1) as nat, now);
        law_admitted_failure_counts(c, before, now);
        law_operations_keep_invariant(c, before, now, false);
        law_operations_keep_invariant(c, gate(c, before, now), now, false);
    }
}

/// A success recorded while half-open that does not yet close the breaker
/// releases exactly one trial slot (none when no trial is in flight), and
/// counts one more success.
pub proof fn law_half_open_success_releases_one_slot(c: BreakerConfig, m: Machine, now: nat)
    requires
        machine_wf(c, m),
        m.state == CircuitState::HalfOpen,
        m.successes + 1 < c.half_open_max_calls,
    ensures
        record(c, m, true, now).state == CircuitState::HalfOpen,
        m.inflight > 0 ==> record(c, m, true, now).inflight + 1 == m.inflight,
        m.inflight == 0 ==> record(c, m, true, now).inflight == 0,
        record(c, m, true, now).successes == m.successes + 1,
{
}

/// While half-open, trials admitted minus trials recorded as successes never
/// exceed the cap: after a success with all slots in flight, one more call
/// is admitted and the next is rejected.
pub proof fn law_half_open_success_frees_one_admission(c: BreakerConfig, m: Machine, now: nat)
    requires
        machine_wf(c, m),
        m.state == CircuitState::HalfOpen,
        m.inflight == c.half_open_max_calls,
        m.successes + 1 < c.half_open_max_calls,
    ensures
        admits(c, tick(c, record(c, m, true, now), now)),
        !admits(c, tick(c, gate(c, record(c, m, true, now), now), now)),
{
}

/// An operation that reads the clock acts at that reading whenever the
/// clock has not run behind the breaker: an open breaker whose cool-down
/// has run out by the reading is half-open and admits a call, one whose
/// cool-down has not is still open, and a trip opens the breaker from the
/// reading.
pub proof fn law_clock_reading_is_the_time_acted_at(
    before: BreakerModel,
    after: BreakerModel,
)
    requires
        read_once(before, after),
        machine_wf(before.config, before.machine),
        after.clock.last >= before.latest,
    ensures
        after.latest == after.clock.last,
        before.machine.state == CircuitState::Open && elapsed_between(
            before.machine.opened_at->0,
            after.clock.last,
        ) >= before.config.cool_down ==> tick(
            before.config,
            before.machine,
            after.latest,
        ).state == CircuitState::HalfOpen && admits(
            before.config,
            tick(before.config, before.machine, after.latest),
        ),
        before.machine.state == CircuitState::Open && elapsed_between(
            before.machine.opened_at->0,
            after.clock.last,
        ) < before.config.cool_down ==> tick(before.config, before.machine, after.latest).state
            == CircuitState::Open,
        tripped(before.machine, after.latest).opened_at == Some(after.clock.last),
{
}

/// A success recorded while closed resets the count of consecutive
/// failures and keeps the breaker closed.
pub proof fn law_success_resets_failure_count(c: BreakerConfig, m: Machine, now: nat)
    requires
        machine_wf(c, m),
        m.state == CircuitState::Closed,
    ensures
        record(c, m, true, now).state == CircuitState::Closed,
        record(c, m, true, now).failures == 0,
{
}

/// Failures recorded in a row while closed are counted one by one, and the
/// breaker stays closed while the count is below the threshold.
pub proof fn law_failures_below_threshold_stay_closed(
    c: BreakerConfig,
    m: Machine,
    k: nat,
    now: nat,
)
    requires
        machine_wf(c, m),
        m.state == CircuitState::Closed,
        m.failures + k < c.failure_threshold,
    ensures
        record_failures(c, m, k, now).state == CircuitState::Closed,
        record_failures(c, m, k, now).failures == m.failures + k,
    decreases k,
{
    if k > 0 {
        law_failures_below_threshold_stay_closed(c, m, (k - 1) as nat, now);
    }
}

/// A closed breaker trips open, at the time of the last failure, as soon as
/// the count of consecutive failures reaches the threshold.
pub proof fn law_threshold_failures_trip(c: BreakerConfig, m: Machine, now: nat)
    requires
        machine_wf(c, m),
        m.state == CircuitState::Closed,
    ensures
        record_failures(
            c,
            m,
            (c.failure_threshold - m.failures) as nat,
            now,
        ).state == CircuitState::Open,
        record_failures(c, m, (c.failure_threshold - m.failures) as nat, now).opened_at
            == Some(now),
{
    let k = (c.failure_threshold - m.failures) as nat;
    law_failures_below_threshold_stay_closed(c, m, (k - 1) as nat, now);
}

/// From a fresh breaker, exactly `failure_threshold` failures in a row trip
/// it; one fewer leaves it closed.
pub proof fn law_fresh_breaker_trips_at_threshold(c: BreakerConfig, now: nat)
    requires
        c.failure_threshold > 0,
        c.half_open_max_calls > 0,
    ensures
        record_failures(c, fresh(), c.failure_threshold, now).state == CircuitState::Open,
        record_failures(c, fresh(), (c.failure_threshold - 1) as nat, now).state
            == CircuitState::Closed,
{
    law_threshold_failures_trip(c, fresh(), now);
    law_failures_below_threshold_stay_closed(
        c,
        fresh(),
        (c.failure_threshold - 1) as nat,
        now,
    );
}

/// An open breaker rejects every call until the cool-down has run out since
/// it opened, without changing its state, and says how much of the
/// cool-down is left.
pub proof fn law_open_rejects_until_cool_down(c: BreakerConfig, m: Machine, now: nat)
    requires
        machine_wf(c, m),
        m.state == CircuitState::Open,
        elapsed_between(m.opened_at->0, now) < c.cool_down,
    ensures
        tick(c, m, now) == m,
        !admits(c, tick(c, m, now)),
        gate(c, m, now) == m,
        retry_after(c, m, now) > 0,
        retry_after(c, m, now) + elapsed_between(m.opened_at->0, now) == c.cool_down,
{
}

/// Once the cool-down has run out, an open breaker moves to half-open with
/// no trial calls counted, and the next call is admitted.
pub proof fn law_cool_down_half_opens(c: BreakerConfig, m: Machine, now: nat)
    requires
        machine_wf(c, m),
        m.state == CircuitState::Open,
        elapsed_between(m.opened_at->0, now) >= c.cool_down,
    ensures
        tick(c, m, now).state == CircuitState::HalfOpen,
        tick(c, m, now).inflight == 0,
        tick(c, m, now).successes == 0,
        admits(c, tick(c, m, now)),
{
}

/// A half-open breaker admits trial calls only while fewer than
/// `half_open_max_calls` are in flight: `k` calls through admission leave
/// `min(inflight + k, half_open_max_calls)` in flight, and the next call is
/// admitted exactly when that is below the cap.
pub proof fn law_half_open_admits_at_most_cap(c: BreakerConfig, m: Machine, k: nat, now: nat)
    requires
        machine_wf(c, m),
        m.state == CircuitState::HalfOpen,
    ensures
        gates(c, m, k, now).state == CircuitState::HalfOpen,
        gates(c, m, k, now).successes == m.successes,
        gates(c, m, k, now).inflight == if m.inflight + k <= c.half_open_max_calls {
            m.inflight + k
        } else {
            c.half_open_max_calls
        },
        admits(c, tick(c, gates(c, m, k, now), now)) <==> m.inflight + k
            < c.half_open_max_calls,
    decreases k,
{
    if k > 0 {
        law_half_open_admits_at_most_cap(c, m, (k - 1) as nat, now);
    }
}

/// Successes recorded while half-open keep it half-open until
/// `half_open_max_calls` trial calls have succeeded, and then close it with
/// nothing counted.
pub proof fn law_half_open_closes_after_all_trials_succeed(
    c: BreakerConfig,
    m: Machine,
    k: nat,
    now: nat,
)
    requires
        machine_wf(c, m),
        m.state == CircuitState::HalfOpen,
        m.successes + k <= c.half_open_max_calls,
    ensures
        m.successes + k < c.half_open_max_calls ==> record_successes(c, m, k, now).state
            == CircuitState::HalfOpen && record_successes(c, m, k, now).successes == m.successes
            + k,
        m.successes + k == c.half_open_max_calls ==> record_successes(c, m, k, now) == fresh(),
    decreases k,
{
    if k > 0 {
        law_half_open_closes_after_all_trials_succeed(c, m, (k - 1) as nat, now);
    }
}

/// A single failure while half-open opens the breaker again, from the time
/// of that failure.
pub proof fn law_half_open_failure_reopens(c: BreakerConfig, m: Machine, now: nat)
    requires
        machine_wf(c, m),
        m.state == CircuitState::HalfOpen,
    ensures
        record(c, m, false, now).state == CircuitState::Open,
        record(c, m, false, now).opened_at == Some(now),
        record(c, m, false, now).inflight == 0,
        record(c, m, false, now).successes == 0,
{
}

/// An outcome recorded while open changes nothing.
pub proof fn law_record_while_open_is_ignored(
    c: BreakerConfig,
    m: Machine,
    succeeded: bool,
    now: nat,
)
    requires
        m.state == CircuitState::Open,
    ensures
        record(c, m, succeeded, now) == m,
{
}

/// A tripped breaker reads as open until the cool-down has run out since
/// the trip, and as half-open from then on, whatever state it was in.
pub proof fn law_trip_opens_until_cool_down(c: BreakerConfig, m: Machine, at: nat, now: nat)
    requires
        machine_wf(c, m),
    ensures
        elapsed_between(at, now) < c.cool_down ==> tick(c, tripped(m, at), now).state
            == CircuitState::Open,
        elapsed_between(at, now) >= c.cool_down ==> tick(c, tripped(m, at), now).state
            == CircuitState::HalfOpen,
{
}

/// A reset breaker reads as closed at any time, whatever state it was in,
/// and admits the next call.
pub proof fn law_reset_closes(c: BreakerConfig, now: nat)
    ensures
        tick(c, fresh(), now) == fresh(),
        admits(c, tick(c, fresh(), now)),
        fresh().state == CircuitState::Closed,
{
}

/// The wait an open breaker reports never exceeds its cool-down.
pub proof fn law_retry_after_within_cool_down(c: BreakerConfig, m: Machine, now: nat)
    ensures
        retry_after(c, m, now) <= c.cool_down,
{
}

/// A closed breaker admits every call, and a rejected call changes nothing
/// beyond the cool-down check.
pub proof fn law_gate_only_counts_admitted_trials(c: BreakerConfig, m: Machine, now: nat)
    requires
        machine_wf(c, m),
    ensures
        tick(c, m, now).state == CircuitState::Closed ==> admits(c, tick(c, m, now)) && gate(
            c,
            m,
            now,
        ) == tick(c, m, now),
        !admits(c, tick(c, m, now)) ==> gate(c, m, now) == tick(c, m, now),
{
}

} // verus!
