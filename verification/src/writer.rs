//! The writer's end: the fuse and the guard that arms it.
use crate::error::{is_broken_pipe, reader_dropped, reader_dropped_error};
use crate::lock::{held, is_guard_of, slot_of, take, Slot};
use std::io::Error;
use std::sync::{Arc, LockResult, Mutex, MutexGuard};
use vstd::prelude::*;

verus! {

/// Fuse that can be armed.
#[derive(Debug)]
pub struct Fuse(Arc<Mutex<Slot>>);

/// Armed fuse that if dropped due to panic will signal reader to fail with
/// `BrokenPipe` error.
#[derive(Debug)]
pub struct FuseGuard<'a>(MutexGuard<'a, Slot>);

/// Whether `result` is what arming returns for what taking the lock gave:
/// the guard that it gave, or a broken pipe where the lock is poisoned.
pub open spec fn arm_outcome(
    attempt: LockResult<MutexGuard<'_, Slot>>,
    result: Result<FuseGuard<'_>, Error>,
) -> bool {
    match attempt {
        Ok(guard) => result matches Ok(fuse_guard) && fuse_guard.guard() == guard,
        Err(_) => result matches Err(error) && is_broken_pipe(error, reader_dropped()),
    }
}

impl Fuse {
    /// The lock that this fuse shares with its reader.
    pub closed spec fn lock(&self) -> Mutex<Slot> {
        *self.0
    }

    /// The fuse of a lock.
    pub(crate) fn new(lock: Arc<Mutex<Slot>>) -> (fuse: Fuse)
        ensures
            fuse.lock() == *lock,
    {
        Fuse(lock)
    }

    /// Arms the fuse.
    ///
    /// Waits until no other guard is held. Returns a `BrokenPipe` error if
    /// the lock is poisoned, that is if an earlier guard was lost to a panic.
    /// The message of that error names the reader's end, though it is a
    /// writer whose panic poisons the lock.
    ///
    /// A thread that holds a guard of this fuse must not arm it again: the
    /// call would not return. What is returned is decided by
    /// [`FuseGuard::of_attempt`] from what taking the lock of this fuse
    /// gave: a guard of this lock, or the error. Which of the two depends
    /// on the other threads.
    pub fn arm(&self) -> (result: Result<FuseGuard<'_>, Error>)
        ensures
            result matches Ok(guard) ==> guard.is_of(self.lock()),
            result matches Err(error) ==> is_broken_pipe(error, reader_dropped()),
    {
        FuseGuard::of_attempt(take(&self.0))
    }
}

impl<'a> FuseGuard<'a> {
    /// The guard of the lock that this guard holds.
    pub closed spec fn guard(&self) -> MutexGuard<'a, Slot> {
        self.0
    }

    /// The slot as the holder of this guard sees it.
    pub open spec fn slot(&self) -> Slot {
        held(self.guard())
    }

    /// Whether this is a guard of the given lock.
    pub open spec fn is_of(&self, lock: Mutex<Slot>) -> bool {
        is_guard_of(self.guard(), lock)
    }

    /// Decides what arming returns from what taking the lock gave.
    pub fn of_attempt(attempt: LockResult<MutexGuard<'a, Slot>>) -> (result: Result<
        FuseGuard<'a>,
        Error,
    >)
        ensures
            arm_outcome(attempt, result),
    {
        match attempt {
            Ok(guard) => Ok(FuseGuard(guard)),
            Err(_) => Err(reader_dropped_error()),
        }
    }

    /// Puts the error into the slot.
    fn record(&mut self, err: Error)
        ensures
            final(self).slot() == Err::<(), Error>(err),
    {
        let slot = slot_of(&mut self.0);
        *slot = Err(err);
    }

    /// Blows the fuse with given error.
    ///
    /// The reader end will fail with this error after reaching EOF.
    ///
    /// The error replaces what the slot held, and the guard is dropped with
    /// it, which frees the lock. The guard is gone after the call, so the
    /// contract of `record` states what the slot holds when it goes.
    pub fn blow(self, err: Error) {
        let mut guard = self;
        guard.record(err);
    }
}

} // verus!
