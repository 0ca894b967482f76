# reliability_toolkit

Reliability primitives for Tokio services — a circuit breaker, exponential
backoff with full jitter, a semaphore-backed bulkhead, and audit events for
breaker transitions — whose decision logic is proved against its contracts.

Layout:

- `src/` — the verified library. Operations are synchronous; those with an
  `_at` suffix take the time they act at as a `Span`, the others read tokio's
  monotonic clock.
  - `circuit_breaker.rs` — the breaker's state machine and its plain-value
    model; `breaker_laws.rs` — its laws (threshold trips, cool-down, half-open
    trial cap, reclosing, reset, retry-after bounds, invariant preservation).
  - `retry.rs` — the xorshift64* jitter generator, the backoff bound and the
    decision after a failed attempt; `retry_laws.rs` — attempt budget and
    backoff bounds.
  - `bulkhead.rs` — the concurrency cap over `tokio::sync::Semaphore`.
  - `audit_stream.rs` — which transitions are reported, their names, and the
    audit endpoint.
  - `time.rs`, `error.rs` — spans, the clock, and the error type.
- `app/` — the async surface: shared breakers and retry helpers behind locks,
  awaiting user futures and sleeps, bulkhead acquisition, HTTP delivery of
  audit events, and the floating-point token-bucket rate limiter.
- `tests/` — tests of the library on concrete values.
