//! The lock of `std::sync` that guards the shared slot.
//!
//! Verus knows nothing of `std::sync::Mutex`. This module declares its types
//! and says of its functions what their documentation gives. Whether an
//! attempt to lock succeeds depends on the other threads: of that it claims
//! nothing, only that a guard is a guard of the lock that was taken. Of a
//! guard it says that it stands for the slot while it is held.
use std::io::Error;
use std::sync::{LockResult, Mutex, MutexGuard, TryLockResult};
use vstd::prelude::*;

verus! {

/// What the cell holds: `Ok` while no error is recorded, else the error.
pub type Slot = Result<(), Error>;

/// `std::sync::Mutex`, which Verus does not look into. What it guards
/// changes under a shared reference, so no function of a lock names it.
#[verifier::external_type_specification]
#[verifier::external_body]
#[verifier::reject_recursive_types(T)]
pub struct ExMutex<T: ?Sized>(std::sync::Mutex<T>);

/// `std::sync::MutexGuard`, which Verus does not look into. `held` names
/// what it guards.
#[verifier::external_type_specification]
#[verifier::external_body]
#[verifier::reject_recursive_types(T)]
pub struct ExMutexGuard<'a, T: ?Sized + 'a>(std::sync::MutexGuard<'a, T>);

/// `std::sync::PoisonError`, which Verus does not look into.
#[verifier::external_type_specification]
#[verifier::external_body]
#[verifier::reject_recursive_types(T)]
pub struct ExPoisonError<T>(std::sync::PoisonError<T>);

/// `std::sync::TryLockError`, with its two variants.
#[verifier::external_type_specification]
#[verifier::reject_recursive_types(T)]
pub struct ExTryLockError<T>(std::sync::TryLockError<T>);

/// The slot that a lock was made with. It says nothing of what the lock
/// guards later.
pub uninterp spec fn made_with(lock: Mutex<Result<(), std::io::Error>>) -> Result<
    (),
    std::io::Error,
>;

/// The slot as the holder of a guard sees it.
pub uninterp spec fn held(guard: MutexGuard<'_, Result<(), std::io::Error>>) -> Result<
    (),
    std::io::Error,
>;

/// Whether a guard is a guard of this lock: it came from taking this lock,
/// and gives the lock back when it is dropped.
pub uninterp spec fn is_guard_of(
    guard: MutexGuard<'_, Result<(), std::io::Error>>,
    lock: Mutex<Result<(), std::io::Error>>,
) -> bool;

/// Calls `Mutex::try_lock`, which returns at once.
///
/// Trusted: a guard that comes back is a guard of this lock. Whether one
/// comes back depends on the other threads, so nothing is claimed of that.
#[verifier::external_body]
pub(crate) fn try_take<'a>(lock: &'a Mutex<Slot>) -> (attempt: TryLockResult<MutexGuard<'a, Slot>>)
    ensures
        attempt matches Ok(guard) ==> is_guard_of(guard, *lock),
{
    lock.try_lock()
}

/// Calls `Mutex::lock`, which waits until the lock is free.
///
/// Trusted: a guard that comes back is a guard of this lock. Whether the
/// lock is found poisoned depends on the other threads, so nothing is
/// claimed of that. A thread that holds the guard already must not make
/// this call: it would not return.
#[verifier::external_body]
pub(crate) fn take<'a>(lock: &'a Mutex<Slot>) -> (attempt: LockResult<MutexGuard<'a, Slot>>)
    ensures
        attempt matches Ok(guard) ==> is_guard_of(guard, *lock),
{
    lock.lock()
}

/// Calls `Mutex::new`.
///
/// Trusted: the new lock remembers the slot it was made with.
#[verifier::external_body]
pub(crate) fn new_lock(slot: Slot) -> (lock: Mutex<Slot>)
    ensures
        made_with(lock) == slot,
{
    Mutex::new(slot)
}

/// Calls `DerefMut::deref_mut` on the guard.
///
/// Trusted: the reference reaches the slot that the guard stands for, so the
/// guard holds afterwards what was written through the reference.
#[verifier::external_body]
pub(crate) fn slot_of<'g>(guard: &'g mut MutexGuard<'_, Slot>) -> (slot: &'g mut Slot)
    ensures
        *slot == held(*old(guard)),
        held(*final(guard)) == *final(slot),
{
    &mut **guard
}

} // verus!
