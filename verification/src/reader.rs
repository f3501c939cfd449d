//! The reader's end: a reader that asks the fuse when the stream ends.
use crate::lock::{made_with, new_lock, try_take, Slot};
use crate::status::{attempt_status, end_of_stream, is_attempt_on, FuseStatus};
use crate::writer::Fuse;
use std::io::{Error, Read};
use std::sync::{Arc, Mutex, MutexGuard, TryLockResult};
use vstd::prelude::*;

verus! {

/// Reader that will fail with I/O error if fuse was blown.
#[derive(Debug)]
pub struct FusedReader<R> {
    reader: R,
    fuse: Arc<Mutex<Slot>>,
}

/// Whether `result` is what a fused read returns when the wrapped reader
/// returned `inner` and the fuse, asked at the end of the stream, reported
/// `status`. The fuse is asked only when the wrapped reader returns zero bytes.
pub open spec fn read_outcome(
    inner: Result<usize, Error>,
    status: FuseStatus,
    result: Result<usize, Error>,
) -> bool {
    if inner == Ok::<usize, Error>(0) {
        end_of_stream(status, result)
    } else {
        result == inner
    }
}

/// Fuses reader so that if writer thread dies while holding armed fuse the
/// reader will get `BrokenPipe` error.
///
/// Both handles share one new lock, whose slot holds no error.
pub fn fuse<R>(reader: R) -> (pair: (FusedReader<R>, Fuse))
    ensures
        pair.0.inner() == reader,
        pair.0.lock() == pair.1.lock(),
        made_with(pair.0.lock()) is Ok,
{
    let reader_fuse = Arc::new(new_lock(Ok(())));
    let writer_fuse = reader_fuse.clone();
    (FusedReader { reader, fuse: reader_fuse }, Fuse::new(writer_fuse))
}

/// Calls `Read::read` on the wrapped reader.
///
/// Trusted: the buffer keeps its length. Nothing is claimed of the result or
/// of the bytes: they are what the stream gives.
#[verifier::external_body]
fn read_from<R: Read>(reader: &mut R, buf: &mut [u8]) -> (result: Result<usize, Error>)
    ensures
        final(buf)@.len() == old(buf)@.len(),
{
    reader.read(buf)
}

impl<R> FusedReader<R> {
    /// The wrapped reader.
    pub closed spec fn inner(&self) -> R {
        self.reader
    }

    /// The lock that this reader shares with its fuse.
    pub closed spec fn lock(&self) -> Mutex<Slot> {
        *self.fuse
    }

    /// Checks status of the fuse.
    ///
    /// Note that the variant `FuseStatus::Blown` is provided only once and
    /// following calls will return `FuseStatus::Unarmed` instead.
    ///
    /// Never waits. The status is the one that [`FuseStatus::of_attempt`]
    /// decides from an attempt to take the lock of this reader: `Armed` if
    /// the attempt would have had to wait, `Poisoned` if it found the lock
    /// poisoned, and else the status of the slot that it got. What the
    /// attempt finds depends on the other threads.
    pub fn check_fuse(&mut self) -> (status: FuseStatus)
        ensures
            final(self).inner() == old(self).inner(),
            final(self).lock() == old(self).lock(),
            exists|attempt: TryLockResult<MutexGuard<'_, Slot>>|
                #[trigger] is_attempt_on(attempt, old(self).lock()) && status == attempt_status(
                    attempt,
                ),
    {
        let attempt = try_take(&self.fuse);
        let ghost found = attempt;
        let status = FuseStatus::of_attempt(attempt);
        assert(is_attempt_on(found, self.lock()) && status == attempt_status(found));
        status
    }

    /// Returns inner reader.
    pub fn into_inner(self) -> (reader: R)
        ensures
            reader == self.inner(),
    {
        self.reader
    }

    /// Decides what a read returns from what the wrapped reader returned.
    ///
    /// Bytes and errors of the wrapped reader pass unchanged. Only at the
    /// end of the stream the fuse is asked, once, and its status decides.
    pub fn finish_read(&mut self, inner: Result<usize, Error>) -> (result: Result<usize, Error>)
        ensures
            final(self).inner() == old(self).inner(),
            final(self).lock() == old(self).lock(),
            exists|status: FuseStatus| #[trigger] read_outcome(inner, status, result),
    {
        match inner {
            Ok(bytes) => if bytes == 0 {
                let status = self.check_fuse();
                let result = status.at_end_of_stream();
                assert(read_outcome(inner, status, result));
                result
            } else {
                // The fuse was not asked: any status bears witness.
                assert(read_outcome(inner, FuseStatus::Unarmed, inner));
                Ok(bytes)
            },
            Err(err) => {
                assert(read_outcome(inner, FuseStatus::Unarmed, inner));
                Err(err)
            },
        }
    }
}

impl<R: Read> Read for FusedReader<R> {
    /// Reads from the wrapped reader, and asks the fuse only once the
    /// wrapped reader has come to the end of the stream.
    ///
    /// What is returned is decided by [`FusedReader::finish_read`] from what
    /// the wrapped reader returned.
    fn read(&mut self, buf: &mut [u8]) -> (result: Result<usize, Error>)
        ensures
            final(self).lock() == old(self).lock(),
            final(buf)@.len() == old(buf)@.len(),
    {
        let inner = read_from(&mut self.reader, buf);
        self.finish_read(inner)
    }
}

} // verus!
