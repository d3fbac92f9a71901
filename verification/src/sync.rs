//! The shared, lock-guarded cell that holds a queue's pending commands.
use std::sync::Arc;
use std::sync::Mutex;
use std::sync::MutexGuard;
use vstd::prelude::*;

verus! {

/// `std::sync::Mutex`, as a type whose inside is not looked into.
#[verifier::external_type_specification]
#[verifier::external_body]
#[verifier::reject_recursive_types(T)]
pub struct ExMutex<T: ?Sized>(Mutex<T>);

/// `std::sync::MutexGuard`, as a type whose inside is not looked into.
#[verifier::external_type_specification]
#[verifier::external_body]
#[verifier::reject_recursive_types(T)]
pub struct ExMutexGuard<'a, T: ?Sized + 'a>(MutexGuard<'a, T>);

/// `Mutex::new` puts a value behind a new lock. Nothing is claimed of the
/// mutex it returns: what a mutex holds is known only under its lock.
pub assume_specification<T>[ Mutex::<T>::new ](t: T) -> (mutex: Mutex<T>);

/// Waits for `mutex` with `Mutex::lock` and returns its guard; the lock is
/// given up when the guard goes out of scope.
///
/// Nothing is claimed of the guard. `Mutex::lock` fails once a thread has
/// panicked with the guard in hand, and this function then panics in turn;
/// it does not return to a thread that holds the guard already. The callers
/// in this crate hold a guard only across verified code that runs nothing
/// of the user's and asks for no lock, so neither comes about through them.
#[verifier::external_body]
pub(crate) fn lock<'a, T>(mutex: &'a Mutex<T>) -> (guard: MutexGuard<'a, T>) {
    mutex.lock().unwrap()
}

/// The value behind a held guard, by the guard's `DerefMut`.
///
/// Nothing is claimed of the value: it is whatever the last holder of the
/// lock left there.
#[verifier::external_body]
pub(crate) fn guarded<'a, 'b, T>(guard: &'a mut MutexGuard<'b, T>) -> (value: &'a mut T) {
    &mut **guard
}

/// A second pointer to the same cell, by `Arc::clone`: the two are one cell,
/// and with it one lock and one value behind it.
#[verifier::external_body]
pub(crate) fn share<T>(cell: &Arc<T>) -> (other: Arc<T>)
    ensures
        other == *cell,
{
    Arc::clone(cell)
}

} // verus!
