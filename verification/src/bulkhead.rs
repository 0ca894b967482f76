//! Bulkhead — semaphore-backed concurrency cap.
//!
//! Wraps `tokio::sync::Semaphore`. Useful for isolating a downstream resource
//! ("at most N in-flight calls to this database") so one runaway caller can't
//! starve the rest of the system.
//!
//! Holding a [`BulkheadPermit`] keeps a slot reserved; dropping it releases.
//! Waiting for a slot is asynchronous: await `acquire_owned` on
//! [`Bulkhead::semaphore`] and hand the outcome to [`Bulkhead::permit_from`].

use crate::error::ToolkitError;
use std::sync::Arc;
use tokio::sync::{AcquireError, OwnedSemaphorePermit, Semaphore};
use vstd::prelude::*;

verus! {

/// The most permits a tokio semaphore can hold (`Semaphore::MAX_PERMITS`).
pub const MAX_PERMITS: usize = usize::MAX >> 3usize;

/// A declaration that lets tokio's `Semaphore` stand in fields and signatures.
#[verifier::external_type_specification]
#[verifier::external_body]
pub struct ExSemaphore(Semaphore);

/// A declaration that lets tokio's `OwnedSemaphorePermit` stand in fields
/// and signatures.
#[verifier::external_type_specification]
#[verifier::external_body]
pub struct ExOwnedSemaphorePermit(OwnedSemaphorePermit);

/// A declaration that lets tokio's `AcquireError` stand in signatures.
#[verifier::external_type_specification]
#[verifier::external_body]
pub struct ExAcquireError(AcquireError);

/// The number of permits a semaphore was created with.
pub uninterp spec fn permits_made_with(s: Semaphore) -> nat;

/// The semaphore a permit was taken from, as `OwnedSemaphorePermit::semaphore`
/// returns it.
pub uninterp spec fn permit_source(p: OwnedSemaphorePermit) -> Arc<Semaphore>;

/// Calls `Semaphore::new`, which panics above `MAX_PERMITS`; the
/// precondition rules that out. The semaphore is created with `permits`
/// permits. Its later count, which holders of permits change, is not stated.
#[verifier::external_body]
fn semaphore_new(permits: usize) -> (r: Semaphore)
    requires
        permits <= MAX_PERMITS,
    ensures
        permits_made_with(r) == permits,
{
    Semaphore::new(permits)
}

/// Calls `Semaphore::try_acquire_owned`, mapping the error to `None`. A
/// permit it returns is taken from `sem` (tokio builds it with `sem` as its
/// semaphore). Whether it returns one is not stated: that depends on the
/// permits other tasks hold and on whether the semaphore was closed.
#[verifier::external_body]
fn semaphore_try_acquire_owned(sem: Arc<Semaphore>) -> (r: Option<OwnedSemaphorePermit>)
    ensures
        r matches Some(p) ==> permit_source(p) == sem,
{
    match sem.try_acquire_owned() {
        Ok(p) => Some(p),
        Err(_) => None,
    }
}

/// Calls `Semaphore::available_permits`. Tokio never lets a semaphore hold
/// more than `MAX_PERMITS`; beyond that bound nothing is stated of the
/// count, which other tasks change.
#[verifier::external_body]
fn semaphore_available_permits(sem: &Arc<Semaphore>) -> (r: usize)
    ensures
        r <= MAX_PERMITS,
{
    sem.available_permits()
}

/// Calls `Semaphore::close`. Nothing is stated: the semaphore is opaque.
#[verifier::external_body]
fn semaphore_close(sem: &Arc<Semaphore>) {
    sem.close()
}

/// Calls `Arc::clone`, which makes another pointer to the same allocation:
/// the handle it returns is to the same semaphore.
#[verifier::external_body]
fn semaphore_handle(sem: &Arc<Semaphore>) -> (r: Arc<Semaphore>)
    ensures
        r == *sem,
{
    Arc::clone(sem)
}

/// A concurrency cap.
#[derive(Clone, Debug)]
pub struct Bulkhead {
    sem: Arc<Semaphore>,
    capacity: usize,
}

/// Active permit. Dropping it releases the slot.
#[derive(Debug)]
pub struct BulkheadPermit(OwnedSemaphorePermit);

impl BulkheadPermit {
    /// The semaphore the permit holds a slot of.
    pub closed spec fn source(&self) -> Arc<Semaphore> {
        permit_source(self.0)
    }
}

impl View for Bulkhead {
    type V = nat;

    /// The capacity the bulkhead was built with.
    closed spec fn view(&self) -> nat {
        self.capacity as nat
    }
}

impl Bulkhead {
    /// The semaphore that holds this bulkhead's slots.
    pub closed spec fn slots(&self) -> Arc<Semaphore> {
        self.sem
    }

    /// Build a bulkhead allowing up to `capacity` concurrent permits.
    pub fn new(capacity: usize) -> (r: Self)
        requires
            0 < capacity <= MAX_PERMITS,
        ensures
            r@ == capacity,
            permits_made_with(*r.slots()) == capacity,
    {
        Bulkhead { sem: Arc::new(semaphore_new(capacity)), capacity }
    }

    /// Try to take a slot without waiting. Returns `None` if all slots are
    /// busy or the bulkhead is closed; a permit it returns holds a slot of
    /// this bulkhead.
    pub fn try_acquire(&self) -> (r: Option<BulkheadPermit>)
        ensures
            r matches Some(p) ==> p.source() == self.slots(),
    {
        match semaphore_try_acquire_owned(semaphore_handle(&self.sem)) {
            Some(p) => Some(BulkheadPermit(p)),
            None => None,
        }
    }

    /// The outcome of waiting for a slot: the permit, or
    /// [`ToolkitError::BulkheadClosed`] when the semaphore was closed.
    pub fn permit_from(outcome: Result<OwnedSemaphorePermit, AcquireError>) -> (r: Result<
        BulkheadPermit,
        ToolkitError,
    >)
        ensures
            outcome is Ok <==> r is Ok,
            r matches Ok(p) ==> p.source() == permit_source(outcome->Ok_0),
            outcome is Err ==> r == Err::<BulkheadPermit, ToolkitError>(
                ToolkitError::BulkheadClosed,
            ),
    {
        match outcome {
            Ok(p) => Ok(BulkheadPermit(p)),
            Err(_) => Err(ToolkitError::BulkheadClosed),
        }
    }

    /// A handle to the semaphore, to wait on for a slot.
    pub fn semaphore(&self) -> (r: Arc<Semaphore>)
        ensures
            r == self.slots(),
    {
        semaphore_handle(&self.sem)
    }

    /// Number of currently free slots.
    pub fn available_permits(&self) -> (r: usize)
        ensures
            r <= MAX_PERMITS,
    {
        semaphore_available_permits(&self.sem)
    }

    /// Total capacity (slots when fully idle).
    pub fn capacity(&self) -> (r: usize)
        ensures
            r == self@,
    {
        self.capacity
    }

    /// Close the bulkhead — pending and later acquires fail with
    /// [`ToolkitError::BulkheadClosed`].
    pub fn close(&self) {
        semaphore_close(&self.sem)
    }
}

} // verus!
