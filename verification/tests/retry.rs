use reliability_toolkit::retry::{Retry, RetryConfig, FALLBACK_SEED, SCRAMBLE};
use reliability_toolkit::Span;

/// Drives a run synchronously: `outcome(n)` is the result of attempt `n`;
/// returns the result and the delays slept between attempts.
fn run<T>(
    retry: &mut Retry,
    mut outcome: impl FnMut(u32) -> Result<T, bool>,
) -> (Result<T, bool>, Vec<Span>) {
    let mut attempt: u32 = 0;
    let mut slept = Vec::new();
    loop {
        attempt += 1;
        match outcome(attempt) {
            Ok(v) => return (Ok(v), slept),
            Err(retryable) => match retry.after_failure(attempt, || retryable) {
                None => return (Err(retryable), slept),
                Some(d) => slept.push(d),
            },
        }
    }
}

fn quick(max_attempts: u32) -> RetryConfig {
    RetryConfig {
        max_attempts,
        base_delay: Span::from_millis(1),
        max_delay: Span::from_millis(2),
    }
}

#[test]
fn returns_immediately_on_success() {
    let mut retry = Retry::new(RetryConfig::default());
    let mut calls = 0;
    let (result, slept) = run(&mut retry, |_| {
        calls += 1;
        Ok::<u32, bool>(42)
    });
    assert_eq!(result, Ok(42));
    assert_eq!(calls, 1);
    assert!(slept.is_empty());
}

#[test]
fn retries_until_success() {
    let mut retry = Retry::new(quick(5));
    let mut calls = 0;
    let (result, slept) = run(&mut retry, |n| {
        calls += 1;
        if n < 3 {
            Err(true)
        } else {
            Ok(7_u32)
        }
    });
    assert_eq!(result, Ok(7));
    assert_eq!(calls, 3);
    assert_eq!(slept.len(), 2);
}

#[test]
fn gives_up_after_max_attempts() {
    let mut retry = Retry::new(quick(3));
    let mut calls = 0;
    let (result, _) = run(&mut retry, |_| {
        calls += 1;
        Err::<u32, bool>(true)
    });
    assert!(result.is_err());
    assert_eq!(calls, 3);
}

#[test]
fn predicate_can_skip_retries() {
    let mut retry = Retry::new(quick(5));
    let mut calls = 0;
    let (result, slept) = run(&mut retry, |_| {
        calls += 1;
        Err::<u32, bool>(false)
    });
    assert!(result.is_err());
    assert_eq!(calls, 1);
    assert!(slept.is_empty());
}

#[test]
fn backoff_is_bounded_by_max_delay() {
    let mut retry = Retry::new(RetryConfig {
        max_attempts: 4,
        base_delay: Span::from_secs(60),
        max_delay: Span::from_millis(10),
    });
    let (result, slept) = run(&mut retry, |_| Err::<u32, bool>(true));
    assert!(result.is_err());
    assert_eq!(slept.len(), 3);
    for d in slept {
        assert!(d.as_nanos() <= Span::from_millis(10).as_nanos());
    }
}

#[test]
fn zero_attempt_budget_still_runs_once() {
    let mut retry = Retry::new(quick(0));
    let mut calls = 0;
    let (result, _) = run(&mut retry, |_| {
        calls += 1;
        Err::<u32, bool>(true)
    });
    assert!(result.is_err());
    assert_eq!(calls, 1);
}

#[test]
fn predicate_is_not_consulted_once_budget_is_spent() {
    let mut retry = Retry::new(quick(2));
    let mut consulted = 0;
    assert!(retry.after_failure(1, || { consulted += 1; true }).is_some());
    assert!(retry.after_failure(2, || { consulted += 1; true }).is_none());
    assert_eq!(consulted, 1);
}

fn xorshift(mut x: u64) -> u64 {
    if x == 0 {
        x = FALLBACK_SEED;
    }
    x ^= x >> 12;
    x ^= x << 25;
    x ^= x >> 27;
    x
}

#[test]
fn generator_follows_xorshift_star() {
    let mut retry = Retry::seeded(quick(3), Some(41));
    let first = xorshift(42);
    assert_eq!(retry.next_rand(), first.wrapping_mul(SCRAMBLE));
    let second = xorshift(first);
    assert_eq!(retry.next_rand(), second.wrapping_mul(SCRAMBLE));
}

#[test]
fn seed_falls_back_without_a_clock_reading() {
    let mut a = Retry::seeded(quick(3), None);
    let mut b = Retry::seeded(quick(3), Some(u128::from(FALLBACK_SEED)));
    assert_eq!(a.next_rand(), b.next_rand());
    let mut c = Retry::seeded(quick(3), None);
    assert_eq!(
        c.next_rand(),
        xorshift(FALLBACK_SEED + 1).wrapping_mul(SCRAMBLE)
    );
}

#[test]
fn seed_keeps_the_low_64_bits_of_the_reading() {
    let mut a = Retry::seeded(quick(3), Some((1u128 << 64) + 5));
    let mut b = Retry::seeded(quick(3), Some(5));
    assert_eq!(a.next_rand(), b.next_rand());
    // A reading of u64::MAX wraps to a zero state, which restarts from the
    // fallback seed.
    let mut z = Retry::seeded(quick(3), Some(u128::from(u64::MAX)));
    assert_eq!(z.next_rand(), xorshift(0).wrapping_mul(SCRAMBLE));
    assert_eq!(xorshift(0), xorshift(FALLBACK_SEED));
}

#[test]
fn backoff_cap_doubles_then_caps() {
    let retry = Retry::seeded(
        RetryConfig {
            max_attempts: 10,
            base_delay: Span::from_millis(100),
            max_delay: Span::from_secs(5),
        },
        Some(1),
    );
    assert_eq!(retry.backoff_cap(1), Span::from_millis(100));
    assert_eq!(retry.backoff_cap(2), Span::from_millis(200));
    assert_eq!(retry.backoff_cap(3), Span::from_millis(400));
    assert_eq!(retry.backoff_cap(6), Span::from_millis(3_200));
    assert_eq!(retry.backoff_cap(7), Span::from_secs(5));
    assert_eq!(retry.backoff_cap(0), Span::from_millis(100));
}

#[test]
fn backoff_exponent_keeps_doubling() {
    let retry = Retry::seeded(
        RetryConfig {
            max_attempts: 100,
            base_delay: Span::from_nanos(1),
            max_delay: Span::from_secs(5),
        },
        None,
    );
    assert_eq!(retry.backoff_cap(31), Span::from_nanos(1 << 30));
    assert_eq!(retry.backoff_cap(32), Span::from_nanos(1 << 31));
    assert_eq!(retry.backoff_cap(33), Span::from_nanos(1 << 32));
    assert_eq!(retry.backoff_cap(34), Span::from_secs(5));
    assert_eq!(retry.backoff_cap(u32::MAX), Span::from_secs(5));
}

#[test]
fn zero_base_never_backs_off() {
    let retry = Retry::seeded(
        RetryConfig { max_attempts: 5, base_delay: Span::zero(), max_delay: Span::from_secs(5) },
        None,
    );
    assert_eq!(retry.backoff_cap(u32::MAX), Span::zero());
}

#[test]
fn backoff_fits_below_u64_millis() {
    let small = Retry::seeded(quick(3), None);
    assert!(small.backoff_fits(1));
    let huge = Retry::seeded(
        RetryConfig {
            max_attempts: 3,
            base_delay: Span::from_secs(u64::MAX),
            max_delay: Span::from_nanos(u128::MAX),
        },
        None,
    );
    assert!(!huge.backoff_fits(1));
    let edge = Retry::seeded(
        RetryConfig {
            max_attempts: 3,
            base_delay: Span::from_millis(u64::MAX - 1),
            max_delay: Span::from_nanos(u128::MAX),
        },
        None,
    );
    assert!(edge.backoff_fits(1));
    assert!(!edge.backoff_fits(2));
}

#[test]
fn backoff_saturates_at_the_longest_duration() {
    let retry = Retry::seeded(
        RetryConfig {
            max_attempts: 100,
            base_delay: Span::from_secs(u64::MAX),
            max_delay: Span::from_nanos(u128::MAX),
        },
        None,
    );
    assert_eq!(
        retry.backoff_cap(5),
        Span::from_nanos(reliability_toolkit::time::MAX_NANOS)
    );
}

#[test]
fn jittered_backoff_is_whole_millis_within_cap() {
    let mut retry = Retry::seeded(
        RetryConfig {
            max_attempts: 10,
            base_delay: Span::from_millis(100),
            max_delay: Span::from_secs(5),
        },
        Some(12345),
    );
    for attempt in 1..10 {
        let state_before = retry;
        let cap_ms = retry.backoff_cap(attempt).as_millis() as u64;
        let mut probe = state_before;
        let expected = probe.next_rand() % (cap_ms + 1);
        let d = retry.backoff(attempt);
        assert_eq!(d, Span::from_millis(expected));
        assert!(d.as_nanos() <= retry.backoff_cap(attempt).as_nanos());
    }
}

#[test]
fn default_config_values() {
    let c = RetryConfig::default();
    assert_eq!(c.max_attempts, 3);
    assert_eq!(c.base_delay, Span::from_millis(100));
    assert_eq!(c.max_delay, Span::from_secs(5));
    assert_eq!(Retry::new(c).config(), c);
}
