//! Circuit breaker.
//!
//! Three states:
//!
//! * **Closed** — calls go through; consecutive failures are counted.
//!   When the count hits `failure_threshold`, the breaker trips to `Open`.
//! * **Open** — calls are rejected with [`ToolkitError::CircuitOpen`] until
//!   `cool_down` has elapsed since the trip. Then the breaker moves to
//!   `HalfOpen`.
//! * **HalfOpen** — only `half_open_max_calls` calls are admitted. If they all
//!   succeed, the breaker returns to `Closed`. A single failure trips it back
//!   to `Open`.
//!
//! A call through the breaker is two steps: [`CircuitBreaker::try_admit`]
//! before the call runs and [`CircuitBreaker::record`] with its outcome after.

use crate::error::ToolkitError;
use crate::time::{elapsed_between, saturating_diff, Clock, ClockModel, Span};
use vstd::prelude::*;

verus! {

/// Current state of the breaker.
#[derive(Clone, Copy, Debug, PartialEq, Eq, Structural)]
pub enum CircuitState {
    /// Calls flow through. Failures are being counted.
    Closed,
    /// Calls are rejected fast. Waiting out the cool-down.
    Open,
    /// Trial state — a limited number of calls are allowed.
    HalfOpen,
}

/// A breaker's configuration as plain values.
pub struct BreakerConfig {
    /// Consecutive failures that trip a closed breaker.
    pub failure_threshold: nat,
    /// Nanoseconds an open breaker waits before admitting trial calls.
    pub cool_down: nat,
    /// Trial calls admitted while half-open.
    pub half_open_max_calls: nat,
}

/// The state machine of a breaker as plain values.
pub struct Machine {
    /// The current state.
    pub state: CircuitState,
    /// Failures recorded in a row while closed.
    pub failures: nat,
    /// When the breaker last opened, if it has opened since it last closed.
    pub opened_at: Option<nat>,
    /// Trial calls admitted and not yet recorded while half-open.
    pub inflight: nat,
    /// Trial calls that succeeded while half-open.
    pub successes: nat,
}

/// A whole breaker as plain values.
pub struct BreakerModel {
    /// What the breaker was built with.
    pub config: BreakerConfig,
    /// Where its state machine stands.
    pub machine: Machine,
    /// The latest time the breaker has acted at, in nanoseconds from its
    /// clock's start.
    pub latest: nat,
    /// What is known of the breaker's clock.
    pub clock: ClockModel,
}

/// The clock as a breaker is built with it: no readings recorded.
pub open spec fn unread_clock() -> ClockModel {
    ClockModel { reads: 0, last: 0 }
}

/// `after` acts at a fresh reading of the clock of `before`: the clock has
/// recorded one more reading, and the breaker's latest time is that reading,
/// or the latest time it acted at before if that was later.
pub open spec fn read_once(before: BreakerModel, after: BreakerModel) -> bool {
    &&& after.config == before.config
    &&& after.clock.reads == (before.clock.reads + 1) % 0x1_0000_0000_0000_0000nat
    &&& after.latest == later_of(before.latest, after.clock.last)
}

/// The configuration a builder starts from: 5 failures, 30 s, 1 trial call.
pub open spec fn default_config() -> BreakerConfig {
    BreakerConfig { failure_threshold: 5, cool_down: 30 * 1_000_000_000, half_open_max_calls: 1 }
}

/// A closed breaker with nothing counted.
pub open spec fn fresh() -> Machine {
    Machine { state: CircuitState::Closed, failures: 0, opened_at: None, inflight: 0, successes: 0 }
}

/// What every reachable breaker satisfies.
pub open spec fn machine_wf(c: BreakerConfig, m: Machine) -> bool {
    &&& c.failure_threshold > 0
    &&& c.half_open_max_calls > 0
    &&& m.failures <= c.failure_threshold
    &&& m.state == CircuitState::Closed ==> m.failures < c.failure_threshold && m.opened_at is None
    &&& m.state != CircuitState::Closed ==> m.opened_at is Some
    &&& m.state != CircuitState::HalfOpen ==> m.inflight == 0 && m.successes == 0
    &&& m.state == CircuitState::HalfOpen ==> m.successes < c.half_open_max_calls
        && m.inflight <= c.half_open_max_calls
}

/// A half-open breaker's cool-down had run out by `latest`, the latest
/// time it acted at.
pub open spec fn settled(c: BreakerConfig, m: Machine, latest: nat) -> bool {
    m.state == CircuitState::HalfOpen ==> m.opened_at is Some && elapsed_between(
        m.opened_at->0,
        latest,
    ) >= c.cool_down
}

/// The larger of two times.
pub open spec fn later_of(a: nat, b: nat) -> nat {
    if a >= b {
        a
    } else {
        b
    }
}

/// The cool-down check: an open breaker whose cool-down has run out by
/// `now` moves to half-open with no trial calls counted.
pub open spec fn tick(c: BreakerConfig, m: Machine, now: nat) -> Machine {
    if m.state == CircuitState::Open && m.opened_at is Some && elapsed_between(
        m.opened_at->0,
        now,
    ) >= c.cool_down {
        Machine { state: CircuitState::HalfOpen, inflight: 0, successes: 0, ..m }
    } else {
        m
    }
}

/// Whether a breaker in `m` (already ticked) lets a call through.
pub open spec fn admits(c: BreakerConfig, m: Machine) -> bool {
    m.state == CircuitState::Closed || (m.state == CircuitState::HalfOpen && m.inflight
        < c.half_open_max_calls)
}

/// The machine after admission at `now`: ticked, and with one more trial
/// call in flight when a half-open breaker admits.
pub open spec fn gate(c: BreakerConfig, m: Machine, now: nat) -> Machine {
    let t = tick(c, m, now);
    if t.state == CircuitState::HalfOpen && t.inflight < c.half_open_max_calls {
        Machine { inflight: t.inflight + 1, ..t }
    } else {
        t
    }
}

/// How long a breaker in `m` expects to stay open, as seen at `now`.
pub open spec fn retry_after(c: BreakerConfig, m: Machine, now: nat) -> nat {
    match m.opened_at {
        Some(t) => saturating_diff(c.cool_down, elapsed_between(t, now)),
        None => 0,
    }
}

/// The machine after the outcome of a call that ran is recorded at `now`.
pub open spec fn record(c: BreakerConfig, m: Machine, succeeded: bool, now: nat) -> Machine {
    match m.state {
        CircuitState::Closed => {
            if succeeded {
                Machine { failures: 0, ..m }
            } else if m.failures + 1 >= c.failure_threshold {
                Machine {
                    state: CircuitState::Open,
                    failures: m.failures + 1,
                    opened_at: Some(now),
                    ..m
                }
            } else {
                Machine { failures: m.failures + 1, ..m }
            }
        },
        CircuitState::HalfOpen => {
            if succeeded {
                if m.successes + 1 >= c.half_open_max_calls {
                    fresh()
                } else {
                    Machine {
                        inflight: saturating_diff(m.inflight, 1),
                        successes: m.successes + 1,
                        ..m
                    }
                }
            } else {
                tripped(m, now)
            }
        },
        CircuitState::Open => m,
    }
}

/// `r` is the rejection of a call by an open breaker that expects to stay
/// open for `wait` nanoseconds.
pub open spec fn rejected_for(r: Result<(), ToolkitError>, wait: nat) -> bool {
    match r {
        Err(ToolkitError::CircuitOpen { retry_after }) => retry_after@ == wait,
        _ => false,
    }
}

/// The machine after it is opened at `now`.
pub open spec fn tripped(m: Machine, now: nat) -> Machine {
    Machine { state: CircuitState::Open, opened_at: Some(now), inflight: 0, successes: 0, ..m }
}

/// Builder for [`CircuitBreaker`].
#[derive(Clone, Copy, Debug)]
pub struct CircuitBreakerBuilder {
    failure_threshold: u32,
    cool_down: Span,
    half_open_max_calls: u32,
}

impl View for CircuitBreakerBuilder {
    type V = BreakerConfig;

    closed spec fn view(&self) -> BreakerConfig {
        BreakerConfig {
            failure_threshold: self.failure_threshold as nat,
            cool_down: self.cool_down@,
            half_open_max_calls: self.half_open_max_calls as nat,
        }
    }
}

impl CircuitBreakerBuilder {
    #[verifier::type_invariant]
    spec fn counts_positive(self) -> bool {
        self.failure_threshold > 0 && self.half_open_max_calls > 0
    }

    /// Number of consecutive failures before the breaker trips. Default: 5.
    pub fn failure_threshold(self, n: u32) -> (r: Self)
        requires
            n > 0,
        ensures
            r@ == (BreakerConfig { failure_threshold: n as nat, ..self@ }),
    {
        proof {
            use_type_invariant(&self);
        }
        CircuitBreakerBuilder { failure_threshold: n, ..self }
    }

    /// How long the breaker stays open before allowing a trial. Default: 30s.
    pub fn cool_down(self, d: Span) -> (r: Self)
        ensures
            r@ == (BreakerConfig { cool_down: d@, ..self@ }),
    {
        proof {
            use_type_invariant(&self);
        }
        CircuitBreakerBuilder { cool_down: d, ..self }
    }

    /// How many calls to admit in `HalfOpen`. Default: 1.
    pub fn half_open_max_calls(self, n: u32) -> (r: Self)
        requires
            n > 0,
        ensures
            r@ == (BreakerConfig { half_open_max_calls: n as nat, ..self@ }),
    {
        proof {
            use_type_invariant(&self);
        }
        CircuitBreakerBuilder { half_open_max_calls: n, ..self }
    }

    /// Finalize the breaker: closed, with nothing counted.
    pub fn build(self) -> (r: CircuitBreaker)
        ensures
            r@ == (BreakerModel { config: self@, machine: fresh(), latest: 0, clock: unread_clock() }),
            machine_wf(r@.config, r@.machine),
    {
        proof {
            use_type_invariant(&self);
        }
        CircuitBreaker {
            cfg: self,
            sm: StateMachine::closed(),
            clock: Clock::start(),
            latest: Span::zero(),
        }
    }
}

impl Default for CircuitBreakerBuilder {
    fn default() -> (r: Self)
        ensures
            r@ == default_config(),
    {
        CircuitBreakerBuilder {
            failure_threshold: 5,
            cool_down: Span::from_secs(30),
            half_open_max_calls: 1,
        }
    }
}

/// The breaker's state machine.
#[derive(Clone, Copy, Debug)]
struct StateMachine {
    state: CircuitState,
    consecutive_failures: u32,
    opened_at: Option<Span>,
    half_open_inflight: u32,
    half_open_successes: u32,
}

impl View for StateMachine {
    type V = Machine;

    closed spec fn view(&self) -> Machine {
        Machine {
            state: self.state,
            failures: self.consecutive_failures as nat,
            opened_at: match self.opened_at {
                Some(t) => Some(t@),
                None => None,
            },
            inflight: self.half_open_inflight as nat,
            successes: self.half_open_successes as nat,
        }
    }
}

impl StateMachine {
    fn closed() -> (r: StateMachine)
        ensures
            r@ == fresh(),
    {
        StateMachine {
            state: CircuitState::Closed,
            consecutive_failures: 0,
            opened_at: None,
            half_open_inflight: 0,
            half_open_successes: 0,
        }
    }
}

/// A circuit breaker.
#[derive(Debug)]
pub struct CircuitBreaker {
    cfg: CircuitBreakerBuilder,
    sm: StateMachine,
    clock: Clock,
    latest: Span,
}

impl View for CircuitBreaker {
    type V = BreakerModel;

    closed spec fn view(&self) -> BreakerModel {
        BreakerModel {
            config: self.cfg@,
            machine: self.sm@,
            latest: self.latest@,
            clock: self.clock@,
        }
    }
}

impl CircuitBreaker {
    #[verifier::type_invariant]
    spec fn reachable(self) -> bool {
        &&& machine_wf(self.cfg@, self.sm@)
        &&& settled(self.cfg@, self.sm@, self.latest@)
    }

    /// Default-configured breaker.
    pub fn new() -> (r: Self)
        ensures
            r@ == (BreakerModel { config: default_config(), machine: fresh(), latest: 0, clock: unread_clock() }),
    {
        Self::builder().build()
    }

    /// Start configuring a new breaker.
    pub fn builder() -> (r: CircuitBreakerBuilder)
        ensures
            r@ == default_config(),
    {
        CircuitBreakerBuilder::default()
    }

    /// The configuration this breaker was built with.
    pub fn config(&self) -> (r: CircuitBreakerBuilder)
        ensures
            r@ == self@.config,
    {
        self.cfg
    }

    /// Move the latest time the breaker acted at up to `now`.
    fn advance_to(&mut self, now: Span)
        ensures
            final(self)@ == (BreakerModel {
                latest: later_of(old(self)@.latest, now@),
                ..old(self)@
            }),
    {
        proof {
            use_type_invariant(&*self);
        }
        if now.nanos > self.latest.nanos {
            self.latest = now;
        }
    }

    /// A reading of the breaker's clock, recorded by the clock, and never
    /// earlier than the latest time the breaker acted at. The clock is
    /// monotonic, so this is its reading.
    fn read_clock(&mut self) -> (r: Span)
        ensures
            final(self)@.config == old(self)@.config,
            final(self)@.machine == old(self)@.machine,
            final(self)@.latest == old(self)@.latest,
            final(self)@.clock.reads == (old(self)@.clock.reads + 1) % 0x1_0000_0000_0000_0000nat,
            r@ == later_of(old(self)@.latest, final(self)@.clock.last),
    {
        proof {
            use_type_invariant(&*self);
        }
        let mut clock = self.clock;
        let t = clock.read();
        self.clock = clock;
        if t.nanos >= self.latest.nanos {
            t
        } else {
            self.latest
        }
    }

    /// Current breaker state as seen at `now`, after the cool-down check.
    pub fn state_at(&mut self, now: Span) -> (r: CircuitState)
        ensures
            final(self)@.config == old(self)@.config,
            final(self)@.clock == old(self)@.clock,
            final(self)@.latest == later_of(old(self)@.latest, now@),
            machine_wf(final(self)@.config, final(self)@.machine),
            final(self)@.machine == tick(old(self)@.config, old(self)@.machine, now@),
            r == final(self)@.machine.state,
    {
        self.advance_to(now);
        proof {
            use_type_invariant(&*self);
        }
        let sm = self.ticked(now);
        self.sm = sm;
        sm.state
    }

    /// Current breaker state, after the cool-down check at the clock's
    /// current reading, which is never earlier than the latest time the
    /// breaker acted at.
    pub fn state(&mut self) -> (r: CircuitState)
        ensures
            final(self)@.config == old(self)@.config,
            read_once(old(self)@, final(self)@),
            final(self)@.machine == tick(old(self)@.config, old(self)@.machine, final(self)@.latest),
            machine_wf(final(self)@.config, final(self)@.machine),
            exists|now: nat|
                {
                    &&& now >= old(self)@.latest
                    &&& final(self)@.latest == now
                    &&& final(self)@.machine == tick(old(self)@.config, old(self)@.machine, now)
                },
            r == final(self)@.machine.state,
    {
        let now = self.read_clock();
        self.state_at(now)
    }

    /// The machine after the cool-down check at `now`.
    fn ticked(&self, now: Span) -> (r: StateMachine)
        requires
            machine_wf(self@.config, self@.machine),
            settled(self@.config, self@.machine, self@.latest),
            now@ <= self@.latest,
        ensures
            r@ == tick(self@.config, self@.machine, now@),
            machine_wf(self@.config, r@),
            settled(self@.config, r@, self@.latest),
    {
        let mut sm = self.sm;
        if sm.state == CircuitState::Open {
            if let Some(t) = sm.opened_at {
                if now.saturating_since(t).nanos >= self.cfg.cool_down.nanos {
                    sm.state = CircuitState::HalfOpen;
                    sm.half_open_inflight = 0;
                    sm.half_open_successes = 0;
                }
            }
        }
        sm
    }

    /// How long the breaker expects to remain open, as seen at `now`.
    pub fn retry_after_at(&self, now: Span) -> (r: Span)
        ensures
            r@ == retry_after(self@.config, self@.machine, now@),
    {
        match self.sm.opened_at {
            Some(t) => {
                let elapsed = now.saturating_since(t);
                if self.cfg.cool_down.nanos >= elapsed.nanos {
                    Span::from_nanos(self.cfg.cool_down.nanos - elapsed.nanos)
                } else {
                    Span::zero()
                }
            },
            None => Span::zero(),
        }
    }

    /// Admission of a call, at `now`: a closed breaker admits; a
    /// half-open one admits while fewer than `half_open_max_calls` trial
    /// calls are in flight; otherwise the call is rejected with how long
    /// the breaker expects to stay open.
    pub fn try_admit_at(&mut self, now: Span) -> (r: Result<(), ToolkitError>)
        ensures
            final(self)@.config == old(self)@.config,
            final(self)@.clock == old(self)@.clock,
            final(self)@.latest == later_of(old(self)@.latest, now@),
            machine_wf(final(self)@.config, final(self)@.machine),
            final(self)@.machine == gate(old(self)@.config, old(self)@.machine, now@),
            admits(old(self)@.config, tick(old(self)@.config, old(self)@.machine, now@))
                ==> r is Ok,
            !admits(old(self)@.config, tick(old(self)@.config, old(self)@.machine, now@))
                ==> rejected_for(r, retry_after(old(self)@.config, old(self)@.machine, now@)),
    {
        self.advance_to(now);
        proof {
            use_type_invariant(&*self);
        }
        let mut sm = self.ticked(now);
        let admitted = match sm.state {
            CircuitState::Closed => true,
            CircuitState::HalfOpen => {
                if sm.half_open_inflight < self.cfg.half_open_max_calls {
                    sm.half_open_inflight = sm.half_open_inflight + 1;
                    true
                } else {
                    false
                }
            },
            CircuitState::Open => false,
        };
        self.sm = sm;
        if admitted {
            Ok(())
        } else {
            Err(ToolkitError::CircuitOpen { retry_after: self.retry_after_at(now) })
        }
    }

    /// Admission of a call, at the clock's current reading, which is never
    /// earlier than the latest time the breaker acted at. A half-open
    /// breaker that rejects a call for having all its trials in flight
    /// expects to stay open for no more time.
    pub fn try_admit(&mut self) -> (r: Result<(), ToolkitError>)
        ensures
            final(self)@.config == old(self)@.config,
            read_once(old(self)@, final(self)@),
            final(self)@.machine == gate(old(self)@.config, old(self)@.machine, final(self)@.latest),
            admits(old(self)@.config, tick(old(self)@.config, old(self)@.machine, final(self)@.latest))
                ==> r is Ok,
            !admits(old(self)@.config, tick(old(self)@.config, old(self)@.machine, final(self)@.latest))
                ==> rejected_for(r, retry_after(old(self)@.config, old(self)@.machine, final(self)@.latest)),
            machine_wf(final(self)@.config, final(self)@.machine),
            exists|now: nat|
                {
                    &&& now >= old(self)@.latest
                    &&& final(self)@.latest == now
                    &&& final(self)@.machine == gate(old(self)@.config, old(self)@.machine, now)
                    &&& admits(old(self)@.config, tick(old(self)@.config, old(self)@.machine, now))
                        ==> r is Ok
                    &&& !admits(
                        old(self)@.config,
                        tick(old(self)@.config, old(self)@.machine, now),
                    ) ==> rejected_for(r, retry_after(old(self)@.config, old(self)@.machine, now))
                },
            r is Err && final(self)@.machine.state == CircuitState::HalfOpen ==> rejected_for(r, 0),
    {
        proof {
            use_type_invariant(&*self);
        }
        let now = self.read_clock();
        let r = self.try_admit_at(now);
        proof {
            let c = old(self)@.config;
            let m = old(self)@.machine;
            if r is Err && self@.machine.state == CircuitState::HalfOpen {
                assert(self@.machine == tick(c, m, now@));
                assert(elapsed_between(m.opened_at->0, now@) >= c.cool_down);
            }
        }
        r
    }

    /// Record, at `now`, the outcome of a call that was admitted.
    pub fn record_at(&mut self, succeeded: bool, now: Span)
        ensures
            final(self)@.config == old(self)@.config,
            final(self)@.clock == old(self)@.clock,
            final(self)@.latest == later_of(old(self)@.latest, now@),
            machine_wf(final(self)@.config, final(self)@.machine),
            final(self)@.machine == record(old(self)@.config, old(self)@.machine, succeeded, now@),
    {
        self.advance_to(now);
        proof {
            use_type_invariant(&*self);
        }
        let mut sm = self.sm;
        match sm.state {
            CircuitState::Closed => {
                if succeeded {
                    sm.consecutive_failures = 0;
                } else {
                    sm.consecutive_failures = sm.consecutive_failures + 1;
                    if sm.consecutive_failures >= self.cfg.failure_threshold {
                        sm.state = CircuitState::Open;
                        sm.opened_at = Some(now);
                    }
                }
            },
            CircuitState::HalfOpen => {
                if succeeded {
                    sm.half_open_inflight = if sm.half_open_inflight > 0 {
                        sm.half_open_inflight - 1
                    } else {
                        0
                    };
                    sm.half_open_successes = sm.half_open_successes + 1;
                    if sm.half_open_successes >= self.cfg.half_open_max_calls {
                        sm = StateMachine::closed();
                    }
                } else {
                    sm = StateMachine::opened(sm, now);
                }
            },
            CircuitState::Open => {},
        }
        self.sm = sm;
    }

    /// Record the outcome of a call that was admitted, at the clock's
    /// current reading, which is never earlier than the latest time the
    /// breaker acted at.
    pub fn record(&mut self, succeeded: bool)
        ensures
            final(self)@.config == old(self)@.config,
            read_once(old(self)@, final(self)@),
            final(self)@.machine == record(old(self)@.config, old(self)@.machine, succeeded, final(self)@.latest),
            machine_wf(final(self)@.config, final(self)@.machine),
            exists|now: nat|
                {
                    &&& now >= old(self)@.latest
                    &&& final(self)@.latest == now
                    &&& final(self)@.machine == record(
                        old(self)@.config,
                        old(self)@.machine,
                        succeeded,
                        now,
                    )
                },
    {
        let now = self.read_clock();
        self.record_at(succeeded, now)
    }

    /// Manually trip the breaker open at `now`.
    pub fn trip_at(&mut self, now: Span)
        ensures
            final(self)@.config == old(self)@.config,
            final(self)@.clock == old(self)@.clock,
            final(self)@.latest == later_of(old(self)@.latest, now@),
            machine_wf(final(self)@.config, final(self)@.machine),
            final(self)@.machine == tripped(old(self)@.machine, now@),
    {
        self.advance_to(now);
        proof {
            use_type_invariant(&*self);
        }
        self.sm = StateMachine::opened(self.sm, now);
    }

    /// Manually trip the breaker open, at the clock's current reading. Useful
    /// for kill-switches.
    pub fn trip(&mut self)
        ensures
            final(self)@.config == old(self)@.config,
            read_once(old(self)@, final(self)@),
            final(self)@.machine == tripped(old(self)@.machine, final(self)@.latest),
            machine_wf(final(self)@.config, final(self)@.machine),
            exists|now: nat|
                {
                    &&& now >= old(self)@.latest
                    &&& final(self)@.latest == now
                    &&& final(self)@.machine == tripped(old(self)@.machine, now)
                },
    {
        let now = self.read_clock();
        self.trip_at(now)
    }

    /// Manually reset the breaker to closed. Useful after a known-good deploy.
    pub fn reset(&mut self)
        ensures
            final(self)@.config == old(self)@.config,
            final(self)@.clock == old(self)@.clock,
            final(self)@.latest == old(self)@.latest,
            machine_wf(final(self)@.config, final(self)@.machine),
            final(self)@.machine == fresh(),
    {
        proof {
            use_type_invariant(&*self);
        }
        self.sm = StateMachine::closed();
    }
}

impl StateMachine {
    fn opened(sm: StateMachine, now: Span) -> (r: StateMachine)
        ensures
            r@ == tripped(sm@, now@),
    {
        StateMachine {
            state: CircuitState::Open,
            opened_at: Some(now),
            half_open_inflight: 0,
            half_open_successes: 0,
            ..sm
        }
    }
}

impl Default for CircuitBreaker {
    fn default() -> (r: Self)
        ensures
            r@ == (BreakerModel { config: default_config(), machine: fresh(), latest: 0, clock: unread_clock() }),
    {
        Self::new()
    }
}

} // verus!
