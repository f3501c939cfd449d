//! What a look at the fuse reports, and what the report means at the end of
//! the stream.
use crate::error::{is_broken_pipe, writer_dropped, writer_dropped_error};
use crate::lock::{held, is_guard_of, slot_of, Slot};
use std::io::Error;
use std::sync::{Mutex, MutexGuard, TryLockError, TryLockResult};
use vstd::prelude::*;

verus! {

/// Status of the fuse.
#[derive(Debug)]
pub enum FuseStatus {
    /// Fuse was not armed or guard got dropped.
    Unarmed,
    /// Fuse armed.
    Armed,
    /// Fuse blown with error.
    Blown(Error),
    /// Fuse blown by unwind.
    Poisoned,
}

/// The status of a cell that nobody holds, by its slot.
pub open spec fn slot_status(slot: Slot) -> FuseStatus {
    match slot {
        Ok(_) => FuseStatus::Unarmed,
        Err(error) => FuseStatus::Blown(error),
    }
}

/// Whether an attempt to take a cell without waiting was made on this lock:
/// where it got a guard, the guard is one of this lock.
pub open spec fn is_attempt_on(
    attempt: TryLockResult<MutexGuard<'_, Slot>>,
    lock: Mutex<Slot>,
) -> bool {
    attempt matches Ok(guard) ==> is_guard_of(guard, lock)
}

/// The status that an attempt to take the cell without waiting stands for:
/// got it, would have had to wait, or found the lock poisoned.
pub open spec fn attempt_status(attempt: TryLockResult<MutexGuard<'_, Slot>>) -> FuseStatus {
    match attempt {
        Ok(guard) => slot_status(held(guard)),
        Err(TryLockError::WouldBlock) => FuseStatus::Armed,
        Err(TryLockError::Poisoned(_)) => FuseStatus::Poisoned,
    }
}

/// Whether `result` is what a read returns when the stream has ended and the
/// fuse reports `status`.
///
/// A blown fuse gives its error, a poisoned one a broken pipe, and the end
/// of the stream stands otherwise. An armed fuse counts as no error: the
/// writer is still at work, but the stream has no more bytes.
pub open spec fn end_of_stream(status: FuseStatus, result: Result<usize, Error>) -> bool {
    match status {
        FuseStatus::Blown(error) => result == Err::<usize, Error>(error),
        FuseStatus::Poisoned => result matches Err(error) && is_broken_pipe(
            error,
            writer_dropped(),
        ),
        FuseStatus::Unarmed | FuseStatus::Armed => result == Ok::<usize, Error>(0),
    }
}

impl FuseStatus {
    /// Takes the recorded error out of a slot, if there is one, and reports
    /// the status that the slot stood for. The slot is empty afterwards, so
    /// an error is reported once.
    pub fn drain(slot: &mut Slot) -> (status: FuseStatus)
        ensures
            status == slot_status(*old(slot)),
            *final(slot) is Ok,
    {
        if slot.is_err() {
            let mut res: Slot = Ok(());
            std::mem::swap(slot, &mut res);
            FuseStatus::Blown(res.unwrap_err())
        } else {
            FuseStatus::Unarmed
        }
    }

    /// Decides the status from an attempt to take the cell without waiting.
    /// Where the attempt got the cell, the error is taken out of its slot
    /// and the cell is given back.
    pub fn of_attempt(attempt: TryLockResult<MutexGuard<'_, Slot>>) -> (status: FuseStatus)
        ensures
            status == attempt_status(attempt),
    {
        match attempt {
            Err(TryLockError::Poisoned(_)) => FuseStatus::Poisoned,
            Ok(mut guard) => FuseStatus::drain(slot_of(&mut guard)),
            Err(TryLockError::WouldBlock) => FuseStatus::Armed,
        }
    }

    /// What a read returns when the stream has ended and the fuse reported
    /// this status.
    pub fn at_end_of_stream(self) -> (result: Result<usize, Error>)
        ensures
            end_of_stream(self, result),
    {
        match self {
            FuseStatus::Blown(err) => Err(err),
            FuseStatus::Poisoned => Err(writer_dropped_error()),
            FuseStatus::Unarmed | FuseStatus::Armed => Ok(0),
        }
    }
}

} // verus!
