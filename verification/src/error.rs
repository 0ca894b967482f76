//! Errors returned by the reliability primitives themselves.

use crate::time::Span;
use vstd::prelude::*;

verus! {

/// Errors that can be returned by reliability primitives themselves
/// (as opposed to errors from the wrapped operation).
#[derive(Clone, Copy, Debug, PartialEq, Eq, Structural)]
pub enum ToolkitError {
    /// The circuit breaker is currently open and rejected the call without invoking it.
    CircuitOpen {
        /// How long the breaker expects to remain open.
        retry_after: Span,
    },
    /// The bulkhead has been closed and is no longer accepting permits.
    BulkheadClosed,
    /// Retry exhausted its attempt budget without a success.
    RetryExhausted {
        /// How many attempts were made before giving up.
        attempts: u32,
    },
}

} // verus!
