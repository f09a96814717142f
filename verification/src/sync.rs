//! The standard library's mutex, as far as the pool uses it.
//!
//! What a mutex holds is shared with every other holder of a reference to it,
//! so nothing is stated of the contents: the functions below only say that the
//! calls come back. They are for the library's own mutexes, none of which a
//! caller of the library can reach.

use std::sync::Mutex;
use std::sync::MutexGuard;
use std::sync::PoisonError;
use vstd::prelude::*;

verus! {

/// `std::sync::Mutex`, carried through as it is.
#[verifier::external_type_specification]
#[verifier::external_body]
#[verifier::reject_recursive_types(T)]
pub struct ExMutex<T: ?Sized>(Mutex<T>);

/// `std::sync::MutexGuard`, carried through as it is.
#[verifier::external_type_specification]
#[verifier::external_body]
#[verifier::reject_recursive_types(T)]
pub struct ExMutexGuard<'a, T: ?Sized + 'a>(MutexGuard<'a, T>);

/// `std::sync::PoisonError`, carried through as it is.
#[verifier::external_type_specification]
#[verifier::external_body]
#[verifier::reject_recursive_types(T)]
pub struct ExPoisonError<T>(PoisonError<T>);

/// `Mutex::new`: a mutex that holds `value`.
#[verifier::external_body]
pub(crate) fn new_lock<T>(value: T) -> (lock: Mutex<T>) {
    Mutex::new(value)
}

/// `Mutex::lock`: waits until the mutex is free and hands out its guard, or
/// the poison error that wraps the guard.
///
/// The standard library lets the call panic, or never return, where the
/// calling thread holds the mutex already; on any other call it returns
/// without unwinding, which is what the contract claims. Every mutex of this
/// library stands in a private field, and each function that asks for one
/// holds no guard of it and gives its own guard up before it returns, so no
/// call here is of the first kind.
#[verifier::external_body]
pub(crate) fn acquire<'a, T>(lock: &'a Mutex<T>) -> (outcome: Result<
    MutexGuard<'a, T>,
    PoisonError<MutexGuard<'a, T>>,
>)
    opens_invariants none
    no_unwind
{
    lock.lock()
}

/// `PoisonError::into_inner`: the guard that a poison error wraps.
#[verifier::external_body]
pub(crate) fn recover<'a, T>(poisoned: PoisonError<MutexGuard<'a, T>>) -> (guard: MutexGuard<
    'a,
    T,
>)
    opens_invariants none
    no_unwind
{
    poisoned.into_inner()
}

/// `DerefMut::deref_mut` of a guard: the value that the mutex holds, for as
/// long as the guard is borrowed.
#[verifier::external_body]
pub(crate) fn held<'a, 'b, T>(guard: &'b mut MutexGuard<'a, T>) -> (value: &'b mut T)
    opens_invariants none
    no_unwind
{
    &mut **guard
}

/// Waits for the mutex and enters it, poisoned or not.
pub(crate) fn enter<'a, T>(lock: &'a Mutex<T>) -> (guard: MutexGuard<'a, T>)
    opens_invariants none
    no_unwind
{
    match acquire(lock) {
        Ok(guard) => guard,
        Err(poisoned) => recover(poisoned),
    }
}

/// `Vec::len`. It does not unwind, which a destructor has to know of every
/// call it makes.
#[verifier::external_body]
pub(crate) fn quiet_len(flags: &Vec<bool>) -> (len: usize)
    ensures
        len == flags@.len(),
    opens_invariants none
    no_unwind
{
    flags.len()
}

/// Indexed assignment into a `Vec`. For an index in range it replaces that
/// one element and does not unwind, which a destructor has to know of every
/// call it makes.
#[verifier::external_body]
pub(crate) fn quiet_store(flags: &mut Vec<bool>, idx: usize, value: bool)
    requires
        idx < old(flags)@.len(),
    ensures
        final(flags)@ == old(flags)@.update(idx as int, value),
    opens_invariants none
    no_unwind
{
    flags[idx] = value;
}

} // verus!
