//! The life of the shared cell as a state machine, and what holds of every
//! run of it.
//!
//! A cell is a slot and the state of its lock. The writer arms, and then
//! releases, blows or abandons (its thread panics with the guard in hand);
//! the reader probes. The handles cannot know the state of the cell, since
//! other threads change it, so their contracts speak of what one call found.
//! This module follows the cell itself through any order of events.
//!
//! It takes two things from the lock: whoever asks for a lock that is taken
//! waits, and a guard that is dropped by a panic leaves the lock poisoned
//! for good. A poisoned lock is still a lock: an arm takes it, finds the
//! poison and gives it back, and a probe that falls into that moment finds
//! the lock taken, as if the fuse were armed.
//! [`sees`] and [`lock_sees`] say when a call on the lock found the cell as
//! it is; under them the decisions of the handles are those of the machine.
use crate::error::{is_broken_pipe, reader_dropped, writer_dropped};
use crate::lock::{held, made_with, Slot};
use crate::reader::read_outcome;
use crate::status::{attempt_status, slot_status, FuseStatus};
use crate::writer::{arm_outcome, FuseGuard};
use std::io::Error;
use std::sync::{LockResult, Mutex, MutexGuard, TryLockError, TryLockResult};
use vstd::prelude::*;

verus! {

/// Who has the cell.
pub enum Possession {
    /// Nobody: the next arm or probe gets it.
    Free,
    /// A live guard.
    Held,
    /// Nobody, and a guard was lost to a panic.
    Poisoned,
    /// An arm that has taken the poisoned lock and is about to fail.
    Refused,
}

/// The shared cell.
pub struct Cell {
    pub possession: Possession,
    pub slot: Slot,
}

/// What can happen to a cell.
pub enum Event {
    /// The writer takes the lock to get a guard.
    Arm,
    /// The holder lets go of the lock: a guard is dropped in the ordinary
    /// way, or an arm that found the lock poisoned gives it back and fails.
    Release,
    /// The guard is given up with an error.
    Blow(Error),
    /// The guard is dropped by a panic.
    Abandon,
    /// The reader looks at the fuse, by `check_fuse` or by a read that has
    /// come to the end of the stream.
    Probe,
}

impl Cell {
    /// The cell of a lock that nobody has touched yet.
    pub open spec fn of_new_lock(lock: Mutex<Slot>) -> Cell {
        Cell { possession: Possession::Free, slot: made_with(lock) }
    }

    /// No guard of this cell was lost to a panic.
    pub open spec fn is_sound(self) -> bool {
        self.possession is Free || self.possession is Held
    }

    /// What a probe of this cell reports.
    pub open spec fn status(self) -> FuseStatus {
        match self.possession {
            Possession::Free => slot_status(self.slot),
            Possession::Held | Possession::Refused => FuseStatus::Armed,
            Possession::Poisoned => FuseStatus::Poisoned,
        }
    }

    /// The number of live guards.
    pub open spec fn guards(self) -> nat {
        if self.possession is Held {
            1
        } else {
            0
        }
    }

    /// The cell after an event.
    ///
    /// An event that cannot happen in a state leaves it as it is: an arm on
    /// a lock that is taken waits, only a held cell has a guard to blow or
    /// abandon, and a probe changes nothing unless it gets the cell, in
    /// which case it empties the slot.
    pub open spec fn step(self, event: Event) -> Cell {
        match (self.possession, event) {
            (Possession::Free, Event::Arm) => Cell { possession: Possession::Held, slot: self.slot },
            (Possession::Poisoned, Event::Arm) => Cell {
                possession: Possession::Refused,
                slot: self.slot,
            },
            (Possession::Held, Event::Release) => Cell {
                possession: Possession::Free,
                slot: self.slot,
            },
            (Possession::Refused, Event::Release) => Cell {
                possession: Possession::Poisoned,
                slot: self.slot,
            },
            (Possession::Held, Event::Blow(error)) => Cell {
                possession: Possession::Free,
                slot: Err(error),
            },
            (Possession::Held, Event::Abandon) => Cell {
                possession: Possession::Poisoned,
                slot: self.slot,
            },
            (Possession::Free, Event::Probe) => Cell { possession: Possession::Free, slot: Ok(()) },
            _ => self,
        }
    }

    /// The cell after a run of events.
    pub open spec fn after(self, events: Seq<Event>) -> Cell
        decreases events.len(),
    {
        if events.len() == 0 {
            self
        } else {
            self.after(events.drop_last()).step(events.last())
        }
    }
}

/// No error is recorded and no guard is abandoned in the run.
pub open spec fn is_quiet(events: Seq<Event>) -> bool {
    forall|i: int| 0 <= i < events.len() ==> !(events[i] is Blow) && !(events[i] is Abandon)
}

/// No error is recorded in the run.
pub open spec fn has_no_blow(events: Seq<Event>) -> bool {
    forall|i: int| 0 <= i < events.len() ==> !(events[i] is Blow)
}

/// No error is recorded in the run and the reader does not look.
pub open spec fn keeps_slot(events: Seq<Event>) -> bool {
    forall|i: int| 0 <= i < events.len() ==> !(events[i] is Blow) && !(events[i] is Probe)
}

/// Nobody arms in the run.
pub open spec fn has_no_arm(events: Seq<Event>) -> bool {
    forall|i: int| 0 <= i < events.len() ==> !(events[i] is Arm)
}

/// Whether the event hands out a guard in this state.
pub open spec fn grants(cell: Cell, event: Event) -> bool {
    cell.possession is Free && event is Arm
}

/// Whether the event ends the life of a guard in this state.
pub open spec fn ends(cell: Cell, event: Event) -> bool {
    cell.possession is Held && (event is Release || event is Blow || event is Abandon)
}

/// The guards handed out in a run less those that ended in it.
pub open spec fn guards_made(cell: Cell, events: Seq<Event>) -> int
    decreases events.len(),
{
    if events.len() == 0 {
        0
    } else {
        let before = cell.after(events.drop_last());
        guards_made(cell, events.drop_last()) + if grants(before, events.last()) {
            1int
        } else if ends(before, events.last()) {
            -1int
        } else {
            0int
        }
    }
}

/// Whether an attempt to take the cell without waiting found it as `cell` is.
pub open spec fn sees(attempt: TryLockResult<MutexGuard<'_, Slot>>, cell: Cell) -> bool {
    match attempt {
        Ok(guard) => cell.possession is Free && held(guard) == cell.slot,
        Err(TryLockError::WouldBlock) => cell.possession is Held || cell.possession is Refused,
        Err(TryLockError::Poisoned(_)) => cell.possession is Poisoned,
    }
}

/// Whether taking the lock, once nobody had it, found it as `cell` is.
pub open spec fn lock_sees(attempt: LockResult<MutexGuard<'_, Slot>>, cell: Cell) -> bool {
    match attempt {
        Ok(guard) => cell.possession is Free && held(guard) == cell.slot,
        Err(_) => cell.possession is Poisoned,
    }
}

/// A probe reports the status of the cell: an attempt that finds the cell as
/// it is makes `FuseStatus::of_attempt` return `cell.status()`.
pub proof fn attempt_reports_status(attempt: TryLockResult<MutexGuard<'_, Slot>>, cell: Cell)
    requires
        sees(attempt, cell),
    ensures
        attempt_status(attempt) == cell.status(),
{
}

/// Arming follows the cell: where taking the lock finds the cell as it is,
/// `FuseGuard::of_attempt` returns a guard over the slot of the cell exactly
/// when the machine hands one out, and the broken pipe of `arm` when the
/// lock is poisoned.
pub proof fn arm_follows_cell(
    attempt: LockResult<MutexGuard<'_, Slot>>,
    cell: Cell,
    result: Result<FuseGuard<'_>, Error>,
)
    requires
        lock_sees(attempt, cell),
        arm_outcome(attempt, result),
    ensures
        result is Ok <==> grants(cell, Event::Arm),
        result matches Ok(guard) ==> guard.slot() == cell.slot,
        result matches Err(error) ==> is_broken_pipe(error, reader_dropped()),
{
}

/// Transparency: while no error is recorded and no guard is abandoned, the
/// fuse reports `Unarmed` or `Armed` at every point, and a read returns what
/// the wrapped reader returned, the end of the stream included.
pub proof fn quiet_run_is_transparent(
    cell: Cell,
    events: Seq<Event>,
    inner: Result<usize, Error>,
    result: Result<usize, Error>,
)
    requires
        cell.slot is Ok,
        cell.is_sound(),
        is_quiet(events),
        read_outcome(inner, cell.after(events).status(), result),
    ensures
        cell.after(events).status() is Unarmed || cell.after(events).status() is Armed,
        result == inner,
{
    lemma_quiet_run(cell, events);
}

/// No false alarm: after `fuse`, a writer that arms and lets go of its guard
/// in the ordinary way, any number of times, leaves a stream whose bytes
/// pass and which ends without an error, whenever the reader gets there.
pub proof fn clean_release_ends_cleanly(
    lock: Mutex<Slot>,
    events: Seq<Event>,
    inner: Result<usize, Error>,
    result: Result<usize, Error>,
)
    requires
        made_with(lock) is Ok,
        is_quiet(events),
        read_outcome(inner, Cell::of_new_lock(lock).after(events).status(), result),
    ensures
        result == inner,
        inner == Ok::<usize, Error>(0) ==> result == Ok::<usize, Error>(0),
{
    lemma_quiet_run(Cell::of_new_lock(lock), events);
}

/// A panic propagates: once a guard is abandoned, the lock stays poisoned
/// whatever happens next, and the fuse reports `Poisoned` to every probe
/// that finds the lock free, which is every probe if nobody arms again.
/// Bytes still pass, and the end of the stream is then a broken pipe.
pub proof fn panic_propagates(
    cell: Cell,
    events: Seq<Event>,
    inner: Result<usize, Error>,
    result: Result<usize, Error>,
)
    requires
        cell.possession is Held,
        read_outcome(inner, cell.step(Event::Abandon).after(events).status(), result),
    ensures
        cell.step(Event::Abandon).after(events).possession is Poisoned || cell.step(
            Event::Abandon,
        ).after(events).possession is Refused,
        has_no_arm(events) ==> cell.step(Event::Abandon).after(events).possession is Poisoned,
        inner != Ok::<usize, Error>(0) ==> result == inner,
        cell.step(Event::Abandon).after(events).possession is Poisoned ==> {
            &&& cell.step(Event::Abandon).after(events).status() is Poisoned
            &&& inner == Ok::<usize, Error>(0) ==> (result matches Err(error) && is_broken_pipe(
                error,
                writer_dropped(),
            ))
        },
{
    lemma_poison_stays(cell.step(Event::Abandon), events);
}

/// A blow propagates: the error stays in the slot while the reader does not
/// look, and a probe that then gets the cell reports `Blown` with this
/// error. Bytes still pass, and the end of the stream is this error.
pub proof fn blow_propagates(
    cell: Cell,
    error: Error,
    events: Seq<Event>,
    inner: Result<usize, Error>,
    result: Result<usize, Error>,
)
    requires
        cell.possession is Held,
        keeps_slot(events),
        cell.step(Event::Blow(error)).after(events).possession is Free,
        read_outcome(inner, cell.step(Event::Blow(error)).after(events).status(), result),
    ensures
        cell.step(Event::Blow(error)).after(events).status() == FuseStatus::Blown(error),
        inner != Ok::<usize, Error>(0) ==> result == inner,
        inner == Ok::<usize, Error>(0) ==> result == Err::<usize, Error>(error),
{
    lemma_slot_is_kept(cell.step(Event::Blow(error)), events);
}

/// Single delivery: the probe that reports `Blown` empties the slot, so the
/// next probe reports `Unarmed`, and no later one reports `Blown` until an
/// error is recorded again.
pub proof fn blown_is_reported_once(cell: Cell, events: Seq<Event>)
    requires
        cell.status() is Blown,
        has_no_blow(events),
    ensures
        cell.step(Event::Probe).status() is Unarmed,
        !(cell.step(Event::Probe).after(events).status() is Blown),
{
    lemma_empty_slot_stays(cell.step(Event::Probe), events);
}

/// Mutual exclusion: at every point of every run at most one guard is live,
/// and a guard is handed out only when none is: the second of two arms gets
/// its guard after the first guard has ended.
pub proof fn one_guard_at_a_time(cell: Cell, events: Seq<Event>)
    ensures
        cell.guards() + guards_made(cell, events) == cell.after(events).guards(),
        cell.after(events).guards() <= 1,
        events.len() > 0 && grants(cell.after(events.drop_last()), events.last())
            ==> cell.guards() + guards_made(cell, events.drop_last()) == 0,
    decreases events.len(),
{
    if events.len() > 0 {
        one_guard_at_a_time(cell, events.drop_last());
    }
}

/// A quiet run leaves the slot empty and the lock sound.
proof fn lemma_quiet_run(cell: Cell, events: Seq<Event>)
    requires
        cell.slot is Ok,
        cell.is_sound(),
        is_quiet(events),
    ensures
        cell.after(events).slot is Ok,
        cell.after(events).is_sound(),
    decreases events.len(),
{
    if events.len() > 0 {
        lemma_quiet_run(cell, events.drop_last());
    }
}

/// A poisoned lock stays poisoned, and only an arm takes it.
proof fn lemma_poison_stays(cell: Cell, events: Seq<Event>)
    requires
        !cell.is_sound(),
    ensures
        !cell.after(events).is_sound(),
        cell.possession is Poisoned && has_no_arm(events) ==> cell.after(events).possession
            is Poisoned,
    decreases events.len(),
{
    if events.len() > 0 {
        lemma_poison_stays(cell, events.drop_last());
    }
}

/// The slot changes only by a blow or by a probe.
proof fn lemma_slot_is_kept(cell: Cell, events: Seq<Event>)
    requires
        keeps_slot(events),
    ensures
        cell.after(events).slot == cell.slot,
    decreases events.len(),
{
    if events.len() > 0 {
        lemma_slot_is_kept(cell, events.drop_last());
    }
}

/// An empty slot stays empty while no error is recorded.
proof fn lemma_empty_slot_stays(cell: Cell, events: Seq<Event>)
    requires
        cell.slot is Ok,
        has_no_blow(events),
    ensures
        cell.after(events).slot is Ok,
    decreases events.len(),
{
    if events.len() > 0 {
        lemma_empty_slot_stays(cell, events.drop_last());
    }
}

} // verus!
