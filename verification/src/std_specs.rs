//! The parts of the standard library that the scheduler stands on and that
//! `vstd` does not describe: wakers, polling contexts, the mutex and the
//! receiving end of a channel.
//!
//! Everything in this file is trusted. The types are opaque to Verus (all but
//! [`Poll`], whose two variants it reads), and most functions promise nothing
//! about their result: what comes out of a lock or a channel depends on what
//! other threads did, so the callers are verified for every outcome.

use std::pin::Pin;
use std::sync::mpsc::Receiver;
use std::sync::{Arc, Mutex, MutexGuard};
use std::task::{Context, Poll, Waker};
use vstd::prelude::*;

verus! {

/// `std::task::Waker`: the handle that makes a task eligible to run again.
#[verifier::external_type_specification]
#[verifier::external_body]
pub struct ExWaker(Waker);

/// `std::task::Context`: what a resumption hands to the computation; it
/// carries the waker.
#[verifier::external_type_specification]
#[verifier::external_body]
pub struct ExContext<'a>(Context<'a>);

/// `std::pin::Pin`: a pointer whose target will not move.
#[verifier::external_type_specification]
#[verifier::external_body]
#[verifier::reject_recursive_types(Ptr)]
pub struct ExPin<Ptr>(Pin<Ptr>);

/// `std::task::Poll`: `Ready(value)` or `Pending`. The variants are public, so
/// Verus reads them from the type itself and nothing about it is assumed.
#[verifier::external_type_specification]
#[verifier::reject_recursive_types(T)]
pub struct ExPoll<T>(Poll<T>);

/// `std::sync::Mutex`.
#[verifier::external_type_specification]
#[verifier::external_body]
#[verifier::reject_recursive_types(T)]
pub struct ExMutex<T: ?Sized>(Mutex<T>);

/// `std::sync::MutexGuard`: exclusive access to what a mutex protects, given
/// up when the guard is dropped.
#[verifier::external_type_specification]
#[verifier::external_body]
#[verifier::reject_recursive_types(T)]
pub struct ExMutexGuard<'a, T: ?Sized + 'a>(MutexGuard<'a, T>);

/// `std::sync::mpsc::Receiver`: the consuming end of a channel.
#[verifier::external_type_specification]
#[verifier::external_body]
#[verifier::reject_recursive_types(T)]
pub struct ExReceiver<T>(Receiver<T>);

/// `Waker::wake` consumes the waker and notifies the task it belongs to.
/// Nothing is claimed of it.
pub assume_specification[ Waker::wake ](waker: Waker)
;

/// `Waker::clone`. Nothing is claimed of the copy; contracts speak of it
/// through `cloned`, which holds of a value only where this call returned it.
pub assume_specification[ <Waker as Clone>::clone ](waker: &Waker) -> (copy: Waker)
;

/// `Context::waker` lends the waker of the current resumption. Nothing is
/// claimed of it.
pub assume_specification<'a>[ Context::<'a>::waker ](cx: &Context<'a>) -> (waker: &'a Waker)
;

/// `Context::from_waker` builds the context of one resumption round a waker.
/// Nothing is claimed of it.
pub assume_specification<'a>[ Context::<'a>::from_waker ](waker: &'a Waker) -> (cx: Context<'a>)
;

/// `Mutex::new` puts a value under a fresh, unlocked mutex. The mutex is
/// opaque, so nothing is claimed of it.
pub assume_specification<T>[ Mutex::<T>::new ](value: T) -> (mutex: Mutex<T>)
;

/// `Arc::clone`: one more pointer to the same allocation, hence to the same
/// value.
#[verifier::external_body]
pub(crate) fn share<T>(handle: &Arc<T>) -> (other: Arc<T>)
    ensures
        other == *handle,
{
    handle.clone()
}

/// `Mutex::lock` blocks until the mutex is free. `Ok` holds the guard of a
/// sound mutex. `Err` holds the guard of a poisoned one, taken out of
/// `PoisonError::into_inner`: a thread panicked while it held this lock.
/// Nothing is claimed of what the guard protects.
///
/// A thread that holds the guard already must not lock again: the standard
/// library then panics or never returns. The library takes each lock once and
/// calls nothing of its own under it but the wake of a waiting waker.
#[verifier::external_body]
pub(crate) fn lock<'a, T>(mutex: &'a Mutex<T>) -> (guard: Result<
    MutexGuard<'a, T>,
    MutexGuard<'a, T>,
>) {
    match mutex.lock() {
        Ok(guard) => Ok(guard),
        Err(poisoned) => Err(poisoned.into_inner()),
    }
}

/// `MutexGuard::deref_mut` lends the protected value for as long as the guard
/// is borrowed. Nothing is claimed of the value: any thread may have written
/// it before the lock was taken.
#[verifier::external_body]
pub(crate) fn guarded<'a, 'b, T>(guard: &'a mut MutexGuard<'b, T>) -> (value: &'a mut T) {
    &mut **guard
}

/// `Receiver::recv` blocks until an item arrives and hands it out, oldest
/// first. `None` stands for its error: the queue is empty and every sender is
/// gone, so no item will ever arrive.
#[verifier::external_body]
pub(crate) fn receive<T>(queue: &Receiver<T>) -> (received: Option<T>) {
    match queue.recv() {
        Ok(item) => Some(item),
        Err(_) => None,
    }
}

} // verus!
