//! Time spans and the monotonic clock the state machines read.

use vstd::prelude::*;

verus! {

/// Nanoseconds in one second.
pub const NANOS_PER_SEC: u128 = 1_000_000_000;

/// Nanoseconds in one millisecond.
pub const NANOS_PER_MILLI: u128 = 1_000_000;

/// The longest span a `std::time::Duration` can hold, in nanoseconds
/// (`u64::MAX` seconds and 999_999_999 nanoseconds).
pub const MAX_NANOS: u128 = 18_446_744_073_709_551_615_999_999_999;

/// A length of time with nanosecond resolution.
#[derive(Clone, Copy, Debug, PartialEq, Eq, Structural)]
pub struct Span {
    /// Whole nanoseconds.
    pub nanos: u128,
}

impl View for Span {
    type V = nat;

    open spec fn view(&self) -> nat {
        self.nanos as nat
    }
}

/// The span from `earlier` to `later`, or zero when `earlier` is later.
pub open spec fn elapsed_between(earlier: nat, later: nat) -> nat {
    if later >= earlier {
        (later - earlier) as nat
    } else {
        0
    }
}

/// `a - b`, or zero when `b` exceeds `a`.
pub open spec fn saturating_diff(a: nat, b: nat) -> nat {
    if a >= b {
        (a - b) as nat
    } else {
        0
    }
}

impl Span {
    /// The empty span.
    pub fn zero() -> (r: Span)
        ensures
            r@ == 0,
    {
        Span { nanos: 0 }
    }

    /// A span of `secs` whole seconds.
    pub fn from_secs(secs: u64) -> (r: Span)
        ensures
            r@ == secs * NANOS_PER_SEC,
    {
        Span { nanos: secs as u128 * NANOS_PER_SEC }
    }

    /// A span of `millis` milliseconds.
    pub fn from_millis(millis: u64) -> (r: Span)
        ensures
            r@ == millis * NANOS_PER_MILLI,
    {
        Span { nanos: millis as u128 * NANOS_PER_MILLI }
    }

    /// A span of `nanos` nanoseconds.
    pub fn from_nanos(nanos: u128) -> (r: Span)
        ensures
            r@ == nanos,
    {
        Span { nanos }
    }

    /// Whole nanoseconds in the span.
    pub fn as_nanos(&self) -> (r: u128)
        ensures
            r == self@,
    {
        self.nanos
    }

    /// Whole milliseconds in the span, rounded down.
    pub fn as_millis(&self) -> (r: u128)
        ensures
            r == self@ / (NANOS_PER_MILLI as nat),
    {
        self.nanos / NANOS_PER_MILLI
    }

    /// The span from `earlier` to `self`, or zero when `earlier` is later.
    pub fn saturating_since(&self, earlier: Span) -> (r: Span)
        ensures
            r@ == elapsed_between(earlier@, self@),
    {
        if self.nanos >= earlier.nanos {
            Span { nanos: self.nanos - earlier.nanos }
        } else {
            Span { nanos: 0 }
        }
    }
}

/// A declaration that lets tokio's `Instant` stand in fields and signatures.
#[verifier::external_type_specification]
#[verifier::external_body]
pub struct ExTokioInstant(tokio::time::Instant);

/// Calls `tokio::time::Instant::now`. Nothing is stated of the instant it
/// returns: it is the current reading of the monotonic clock.
#[verifier::external_body]
fn instant_now() -> tokio::time::Instant {
    tokio::time::Instant::now()
}

/// Calls `tokio::time::Instant::elapsed` on `origin` and converts the
/// duration to whole nanoseconds. A duration never exceeds `Duration::MAX`;
/// beyond that bound nothing is stated of the result, which depends on the
/// current reading of the clock.
#[verifier::external_body]
fn nanos_since(origin: &tokio::time::Instant) -> (r: u128)
    ensures
        r <= MAX_NANOS,
{
    origin.elapsed().as_nanos()
}

/// What is known of a clock: how many readings it has recorded and the
/// last of them.
pub struct ClockModel {
    /// Readings recorded since the clock started, modulo 2^64.
    pub reads: nat,
    /// The last reading recorded, in nanoseconds from the start (zero before
    /// the first).
    pub last: nat,
}

/// A monotonic clock that measures time from the moment it was started, and
/// keeps a record of the readings taken with [`Clock::read`].
#[derive(Clone, Copy, Debug)]
pub struct Clock {
    origin: tokio::time::Instant,
    reads: u64,
    last: Span,
}

impl View for Clock {
    type V = ClockModel;

    closed spec fn view(&self) -> ClockModel {
        ClockModel { reads: self.reads as nat, last: self.last@ }
    }
}

impl Clock {
    /// Starts a clock at the current instant, with no readings recorded.
    pub fn start() -> (r: Clock)
        ensures
            r@ == (ClockModel { reads: 0, last: 0 }),
    {
        Clock { origin: instant_now(), reads: 0, last: Span::zero() }
    }

    /// Time elapsed since the clock was started, at most the longest
    /// duration. The value comes from the system's monotonic clock, so
    /// nothing more is stated of it.
    pub fn now(&self) -> (r: Span)
        ensures
            r@ <= MAX_NANOS,
    {
        Span { nanos: nanos_since(&self.origin) }
    }

    /// Takes a reading, as [`Clock::now`] does, and records it: one more
    /// reading, and it is the last.
    pub fn read(&mut self) -> (r: Span)
        ensures
            r@ <= MAX_NANOS,
            final(self)@ == (ClockModel {
                reads: (old(self)@.reads + 1) % 0x1_0000_0000_0000_0000nat,
                last: r@,
            }),
    {
        let t = self.now();
        self.reads = self.reads.wrapping_add(1);
        self.last = t;
        t
    }

    /// How many readings have been recorded, modulo 2^64.
    pub fn reads(&self) -> (r: u64)
        ensures
            r == self@.reads,
    {
        self.reads
    }

    /// The last reading recorded.
    pub fn last_reading(&self) -> (r: Span)
        ensures
            r@ == self@.last,
    {
        self.last
    }
}

} // verus!
