//! Reliability primitives: a circuit breaker state machine, exponential
//! backoff with full jitter, a semaphore-backed bulkhead, and the decisions
//! behind audit events for breaker transitions.
//!
//! Every operation here is synchronous and takes the time it acts at as a
//! [`Span`] measured from a monotonic origin, so the state machines can be
//! stated and proved exactly. The functions without the `_at` suffix read
//! tokio's clock themselves.

pub mod audit_stream;
pub mod breaker_laws;
pub mod bulkhead;
pub mod circuit_breaker;
pub mod error;
pub mod retry;
pub mod retry_laws;
pub mod time;

pub use bulkhead::{Bulkhead, BulkheadPermit};
pub use circuit_breaker::{CircuitBreaker, CircuitBreakerBuilder, CircuitState};
pub use error::ToolkitError;
pub use retry::{Retry, RetryConfig};
pub use time::Span;
