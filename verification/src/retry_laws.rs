//! Laws of the retry helper: how many attempts a run makes, and how long
//! each backoff can be.

use crate::retry::{
    backoff_cap, backoff_cap_millis, backoff_exponent, jittered_backoff, retries_after,
    RetryConfig,
};
use crate::time::NANOS_PER_MILLI;
use vstd::arithmetic::power2::pow2;
use vstd::prelude::*;

verus! {

/// Whether the error of attempt `attempt` (counted from 1) is worth
/// retrying, by `verdicts[attempt - 1]`; attempts past the end of the
/// verdicts are retryable, as every error is when no check is given.
pub open spec fn verdict_for(verdicts: Seq<bool>, attempt: nat) -> bool {
    if 1 <= attempt <= verdicts.len() {
        verdicts[attempt - 1]
    } else {
        true
    }
}

/// The number of attempts a run makes from attempt `attempt` on when every
/// attempt fails and the errors are judged by `verdicts`: it stops at the
/// first attempt after which [`retries_after`] says no.
pub open spec fn attempts_from(cfg: RetryConfig, verdicts: Seq<bool>, attempt: nat) -> nat
    decreases cfg.max_attempts - attempt,
{
    if attempt >= 1 && retries_after(cfg, attempt, verdict_for(verdicts, attempt)) {
        attempts_from(cfg, verdicts, attempt + 1)
    } else {
        attempt
    }
}

/// The number of attempts a run makes when every attempt fails.
pub open spec fn attempts_made(cfg: RetryConfig, verdicts: Seq<bool>) -> nat {
    attempts_from(cfg, verdicts, 1)
}

/// The larger of 1 and `n`.
pub open spec fn at_least_one(n: nat) -> nat {
    if n == 0 {
        1
    } else {
        n
    }
}

proof fn lemma_attempts_from_bounds(cfg: RetryConfig, verdicts: Seq<bool>, attempt: nat)
    requires
        attempt >= 1,
    ensures
        attempt <= attempts_from(cfg, verdicts, attempt),
        attempts_from(cfg, verdicts, attempt) <= if attempt <= cfg.max_attempts {
            at_least_one(cfg.max_attempts as nat)
        } else {
            attempt
        },
        (forall|i: nat| attempt <= i < cfg.max_attempts ==> #[trigger] verdict_for(verdicts, i))
            ==> attempts_from(cfg, verdicts, attempt) == if attempt <= cfg.max_attempts {
            at_least_one(cfg.max_attempts as nat)
        } else {
            attempt
        },
    decreases cfg.max_attempts - attempt,
{
    if retries_after(cfg, attempt, verdict_for(verdicts, attempt)) {
        lemma_attempts_from_bounds(cfg, verdicts, attempt + 1);
    }
}

/// A run whose every attempt fails makes at least one attempt and at most
/// `max(1, max_attempts)`; when every error is worth retrying it makes
/// exactly that many.
pub proof fn law_attempts_bounded_by_budget(cfg: RetryConfig, verdicts: Seq<bool>)
    ensures
        1 <= attempts_made(cfg, verdicts) <= at_least_one(cfg.max_attempts as nat),
        (forall|i: int| 0 <= i < verdicts.len() ==> #[trigger] verdicts[i]) ==> attempts_made(
            cfg,
            verdicts,
        ) == at_least_one(cfg.max_attempts as nat),
{
    lemma_attempts_from_bounds(cfg, verdicts, 1);
    if forall|i: int| 0 <= i < verdicts.len() ==> #[trigger] verdicts[i] {
        assert forall|i: nat| 1 <= i < cfg.max_attempts implies #[trigger] verdict_for(
            verdicts,
            i,
        ) by {
            if i <= verdicts.len() {
                assert(verdicts[i - 1]);
            }
        }
    }
}

/// An error judged not worth retrying ends the run at the attempt that
/// raised it.
pub proof fn law_unretryable_error_stops_run(cfg: RetryConfig, verdicts: Seq<bool>, k: nat)
    requires
        1 <= k <= verdicts.len(),
        !verdicts[k - 1],
        forall|i: int| 0 <= i < k - 1 ==> #[trigger] verdicts[i],
    ensures
        attempts_made(cfg, verdicts) <= k,
{
    lemma_stops_by(cfg, verdicts, 1, k);
}

proof fn lemma_stops_by(cfg: RetryConfig, verdicts: Seq<bool>, attempt: nat, k: nat)
    requires
        1 <= attempt <= k,
        1 <= k <= verdicts.len(),
        !verdicts[k - 1],
    ensures
        attempts_from(cfg, verdicts, attempt) <= k,
    decreases k - attempt,
{
    if attempt < k && retries_after(cfg, attempt, verdict_for(verdicts, attempt)) {
        lemma_stops_by(cfg, verdicts, attempt + 1, k);
    }
}

/// Every backoff is bounded: the jittered delay is at most the bound, and
/// the bound is at most `max_delay` and at most `base_delay * 2^(attempt - 1)`.
pub proof fn law_backoff_bounded(cfg: RetryConfig, attempt: u32, state: u64)
    ensures
        jittered_backoff(cfg, attempt, state) <= backoff_cap(cfg, attempt),
        backoff_cap(cfg, attempt) <= cfg.max_delay@,
        backoff_cap(cfg, attempt) <= cfg.base_delay@ * pow2(backoff_exponent(attempt)),
        jittered_backoff(cfg, attempt, state) % (NANOS_PER_MILLI as nat) == 0,
{
    let m = NANOS_PER_MILLI as nat;
    let cap_ms = backoff_cap_millis(cfg, attempt);
    let r = crate::retry::scramble(crate::retry::xorshift(state)) as nat % (cap_ms + 1);
    assert(r <= cap_ms);
    assert(r * m <= cap_ms * m) by (nonlinear_arith)
        requires
            r <= cap_ms,
    ;
    assert(cap_ms * m <= backoff_cap(cfg, attempt)) by (nonlinear_arith)
        requires
            cap_ms == backoff_cap(cfg, attempt) / m,
            m > 0,
    ;
    assert((r * m) % m == 0) by (nonlinear_arith)
        requires
            m > 0,
    ;
}

} // verus!
