//! Exponential backoff with full jitter.
//!
//! A run re-invokes the wrapped operation until either it succeeds or the
//! attempt budget is exhausted. After the failure of attempt `n` (counted
//! from 1) the backoff is `min(max_delay, base_delay * 2^(n - 1))`,
//! with full jitter applied: the delay slept is a pseudo-random whole number
//! of milliseconds between zero and that bound.
//!
//! [`Retry::after_failure`] decides, after each failed attempt, whether the
//! run stops or sleeps and tries again; a caller-supplied check decides
//! whether a given error is worth retrying at all.

use crate::time::{Span, MAX_NANOS, NANOS_PER_MILLI};
use vstd::arithmetic::power2::{lemma2_to64, lemma_pow2_strictly_increases, lemma_pow2_unfold, pow2};
use vstd::prelude::*;

verus! {

/// Configuration for [`Retry`].
#[derive(Clone, Copy, Debug, PartialEq, Eq, Structural)]
pub struct RetryConfig {
    /// Maximum total attempts (including the first). Default: 3.
    pub max_attempts: u32,
    /// Initial backoff. Default: 100ms.
    pub base_delay: Span,
    /// Cap on any single backoff. Default: 5s.
    pub max_delay: Span,
}

impl Default for RetryConfig {
    fn default() -> (r: Self)
        ensures
            r.max_attempts == 3,
            r.base_delay@ == 100 * NANOS_PER_MILLI,
            r.max_delay@ == 5 * 1_000_000_000,
    {
        RetryConfig {
            max_attempts: 3,
            base_delay: Span::from_millis(100),
            max_delay: Span::from_secs(5),
        }
    }
}

/// The seed a generator starts from when the wall clock cannot be read.
pub const FALLBACK_SEED: u64 = 0xdead_beef;

/// The multiplier that scrambles the state of the generator into its output.
pub const SCRAMBLE: u64 = 0x2545_F491_4F6C_DD1D;

/// The state after one xorshift step; a zero state restarts from
/// [`FALLBACK_SEED`].
pub open spec fn xorshift(state: u64) -> u64 {
    let x0: u64 = if state == 0 {
        FALLBACK_SEED
    } else {
        state
    };
    let x1: u64 = x0 ^ (x0 >> 12u64);
    let x2: u64 = x1 ^ (x1 << 25u64);
    x2 ^ (x2 >> 27u64)
}

/// The output of the generator for a given state: the state times
/// [`SCRAMBLE`], modulo 2^64.
pub open spec fn scramble(state: u64) -> u64 {
    ((state as nat * SCRAMBLE as nat) % 0x1_0000_0000_0000_0000nat) as u64
}

/// The initial generator state for a wall-clock reading of `nanos`
/// nanoseconds since the Unix epoch (truncated to 64 bits), or for
/// [`FALLBACK_SEED`] when there is none; plus one, modulo 2^64.
pub open spec fn initial_state(clock_nanos: Option<u128>) -> u64 {
    let seed: u64 = match clock_nanos {
        Some(n) => (n % 0x1_0000_0000_0000_0000u128) as u64,
        None => FALLBACK_SEED,
    };
    ((seed as nat + 1) % 0x1_0000_0000_0000_0000nat) as u64
}

/// The exponent of the backoff after the failure of attempt `attempt`:
/// `attempt - 1`.
pub open spec fn backoff_exponent(attempt: u32) -> nat {
    if attempt == 0 {
        0
    } else {
        (attempt - 1) as nat
    }
}

/// The smaller of two numbers.
pub open spec fn min_nat(a: nat, b: nat) -> nat {
    if a <= b {
        a
    } else {
        b
    }
}

/// The bound of the backoff after the failure of attempt `attempt`, in
/// nanoseconds: `base_delay * 2^exponent`, saturated at the longest
/// duration, and capped at `max_delay`.
pub open spec fn backoff_cap(cfg: RetryConfig, attempt: u32) -> nat {
    min_nat(
        min_nat(cfg.base_delay@ * pow2(backoff_exponent(attempt)), MAX_NANOS as nat),
        cfg.max_delay@,
    )
}

/// The bound of the backoff in whole milliseconds.
pub open spec fn backoff_cap_millis(cfg: RetryConfig, attempt: u32) -> nat {
    backoff_cap(cfg, attempt) / (NANOS_PER_MILLI as nat)
}

/// The jittered backoff drawn from generator state `state`, in
/// nanoseconds: the next output modulo one more than the bound in
/// milliseconds, as whole milliseconds.
pub open spec fn jittered_backoff(cfg: RetryConfig, attempt: u32, state: u64) -> nat {
    (scramble(xorshift(state)) as nat % (backoff_cap_millis(cfg, attempt) + 1)) * (
    NANOS_PER_MILLI as nat)
}

/// Whether a run goes on after the failure of attempt `attempt`, given
/// whether the error is one worth retrying.
pub open spec fn retries_after(cfg: RetryConfig, attempt: nat, retryable: bool) -> bool {
    attempt < cfg.max_attempts && retryable
}

/// A retry helper as plain values.
pub struct RetryModel {
    /// The configuration it was built with.
    pub config: RetryConfig,
    /// The state of its jitter generator.
    pub state: u64,
}

/// Exponential-backoff retry helper.
#[derive(Clone, Copy, Debug)]
pub struct Retry {
    cfg: RetryConfig,
    seed: u64,
}

impl View for Retry {
    type V = RetryModel;

    closed spec fn view(&self) -> RetryModel {
        RetryModel { config: self.cfg, state: self.seed }
    }
}

/// A declaration that lets `std::time::SystemTime` stand in signatures.
#[verifier::external_type_specification]
#[verifier::external_body]
pub struct ExSystemTime(std::time::SystemTime);

/// Calls `std::time::SystemTime::now`. Nothing is stated of the reading: it
/// is the wall clock.
#[verifier::external_body]
fn system_time_now() -> std::time::SystemTime {
    std::time::SystemTime::now()
}

/// Calls `SystemTime::duration_since(UNIX_EPOCH)` and converts the duration
/// to whole nanoseconds; `None` when the time lies before the epoch. Nothing
/// is stated of the value, which comes from the wall clock.
#[verifier::external_body]
fn nanos_since_unix_epoch(t: std::time::SystemTime) -> Option<u128> {
    match t.duration_since(std::time::UNIX_EPOCH) {
        Ok(d) => Some(d.as_nanos()),
        Err(_) => None,
    }
}

impl Retry {
    /// Build a `Retry` with the given config, seeding the jitter generator
    /// from the wall clock.
    pub fn new(cfg: RetryConfig) -> (r: Self)
        ensures
            r@.config == cfg,
            exists|reading: Option<u128>| r@.state == initial_state(reading),
    {
        let reading = nanos_since_unix_epoch(system_time_now());
        Self::seeded(cfg, reading)
    }

    /// Build a `Retry` with the given config, seeding the jitter generator
    /// from a wall-clock reading in nanoseconds since the Unix epoch, or
    /// from [`FALLBACK_SEED`] when there is none.
    pub fn seeded(cfg: RetryConfig, clock_nanos: Option<u128>) -> (r: Self)
        ensures
            r@.config == cfg,
            r@.state == initial_state(clock_nanos),
    {
        let seed: u64 = match clock_nanos {
            Some(n) => n as u64,
            None => FALLBACK_SEED,
        };
        proof {
            if let Some(n) = clock_nanos {
                assert(n as u64 == (n % 0x1_0000_0000_0000_0000u128) as u64) by (bit_vector);
            }
        }
        Retry { cfg, seed: seed.wrapping_add(1) }
    }

    /// The configuration this helper was built with.
    pub fn config(&self) -> (r: RetryConfig)
        ensures
            r == self@.config,
    {
        self.cfg
    }

    /// The next pseudo-random number: one xorshift step of the state, then
    /// scrambled.
    pub fn next_rand(&mut self) -> (r: u64)
        ensures
            final(self)@.config == old(self)@.config,
            final(self)@.state == xorshift(old(self)@.state),
            r == scramble(xorshift(old(self)@.state)),
    {
        let mut x = self.seed;
        if x == 0 {
            x = FALLBACK_SEED;
        }
        x = x ^ (x >> 12u64);
        x = x ^ (x << 25u64);
        x = x ^ (x >> 27u64);
        self.seed = x;
        x.wrapping_mul(SCRAMBLE)
    }

    /// The bound of the backoff after the failure of attempt `attempt`.
    pub fn backoff_cap(&self, attempt: u32) -> (r: Span)
        ensures
            r@ == backoff_cap(self@.config, attempt),
    {
        let exp: u32 = if attempt == 0 {
            0
        } else {
            attempt - 1
        };
        let base: u128 = self.cfg.base_delay.nanos;
        let raw: u128 = if base == 0 {
            0
        } else {
            let mut product: u128 = base;
            let mut i: u32 = 0;
            proof {
                lemma2_to64();
            }
            while i < exp && product <= MAX_NANOS
                invariant
                    i <= exp,
                    product == base * pow2(i as nat),
                decreases exp - i,
            {
                proof {
                    lemma_pow2_unfold((i + 1) as nat);
                    assert(product * 2 == base * pow2((i + 1) as nat)) by (nonlinear_arith)
                        requires
                            product == base * pow2(i as nat),
                            pow2((i + 1) as nat) == 2 * pow2(i as nat),
                    ;
                }
                product = product * 2;
                i = i + 1;
            }
            if product <= MAX_NANOS {
                product
            } else {
                proof {
                    if i < exp {
                        lemma_pow2_strictly_increases(i as nat, exp as nat);
                        assert(base * pow2(i as nat) <= base * pow2(exp as nat)) by (nonlinear_arith)
                            requires
                                pow2(i as nat) < pow2(exp as nat),
                                base >= 1,
                        ;
                    }
                }
                MAX_NANOS
            }
        };
        proof {
            if base == 0 {
                assert(base * pow2(exp as nat) == 0);
            }
        }
        let capped: u128 = if raw <= self.cfg.max_delay.nanos {
            raw
        } else {
            self.cfg.max_delay.nanos
        };
        Span::from_nanos(capped)
    }

    /// Whether the bound of the backoff after the failure of attempt
    /// `attempt`, in whole milliseconds, is below `u64::MAX`, as drawing
    /// the jittered backoff requires.
    pub fn backoff_fits(&self, attempt: u32) -> (r: bool)
        ensures
            r == (backoff_cap_millis(self@.config, attempt) < u64::MAX),
    {
        self.backoff_cap(attempt).as_millis() < 0xffff_ffff_ffff_ffffu128
    }

    /// The jittered backoff after the failure of attempt `attempt`: a
    /// pseudo-random whole number of milliseconds between zero and the
    /// bound. The bound in milliseconds must be below `u64::MAX`.
    pub fn backoff(&mut self, attempt: u32) -> (r: Span)
        requires
            backoff_cap_millis(old(self)@.config, attempt) < u64::MAX,
        ensures
            final(self)@.config == old(self)@.config,
            final(self)@.state == xorshift(old(self)@.state),
            r@ == jittered_backoff(old(self)@.config, attempt, old(self)@.state),
    {
        let cap = self.backoff_cap(attempt);
        let max_ms: u64 = cap.as_millis() as u64;
        let jitter_ms = self.next_rand() % (max_ms + 1);
        Span::from_millis(jitter_ms)
    }

    /// The decision after attempt `attempt` failed: `None` when the run
    /// stops and returns the error, `Some(delay)` when it sleeps for
    /// `delay` and tries again. `retryable` is consulted only while the
    /// attempt budget is not exhausted, and says whether the error is worth
    /// retrying.
    pub fn after_failure<P: FnOnce() -> bool>(&mut self, attempt: u32, retryable: P) -> (r:
        Option<Span>)
        requires
            attempt < old(self)@.config.max_attempts ==> call_requires(retryable, ()),
            attempt < old(self)@.config.max_attempts ==> backoff_cap_millis(
                old(self)@.config,
                attempt,
            ) < u64::MAX,
        ensures
            attempt >= old(self)@.config.max_attempts ==> r is None && final(self)@ == old(
                self,
            )@,
            attempt < old(self)@.config.max_attempts ==> exists|verdict: bool|
                {
                    &&& call_ensures(retryable, (), verdict)
                    &&& !verdict ==> r is None && final(self)@ == old(self)@
                    &&& verdict ==> r is Some && r->0@ == jittered_backoff(
                        old(self)@.config,
                        attempt,
                        old(self)@.state,
                    ) && final(self)@ == (RetryModel {
                        config: old(self)@.config,
                        state: xorshift(old(self)@.state),
                    })
                },
    {
        if attempt >= self.cfg.max_attempts {
            return None;
        }
        let verdict = retryable();
        if !verdict {
            return None;
        }
        Some(self.backoff(attempt))
    }
}

} // verus!
