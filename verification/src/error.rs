//! The errors that the fuse makes itself, and what contracts can say of an
//! `std::io::Error`.
use std::io::{Error, ErrorKind};
use vstd::prelude::*;

verus! {

/// `std::io::Error`, which Verus does not look into: errors are carried, and
/// told apart by `kind_of` and `message_of`.
#[verifier::external_type_specification]
#[verifier::external_body]
pub struct ExError(std::io::Error);

/// `std::io::ErrorKind`, with its variants.
#[verifier::external_type_specification]
pub struct ExErrorKind(std::io::ErrorKind);

/// The kind of an error: what `std::io::Error::kind` returns for it.
pub uninterp spec fn kind_of(error: std::io::Error) -> std::io::ErrorKind;

/// The text of the payload that an error carries, for an error that was made
/// from a string.
pub uninterp spec fn message_of(error: std::io::Error) -> Seq<char>;

/// The message of the error that the reader gets when the guard was lost to
/// a panic.
pub open spec fn writer_dropped() -> Seq<char> {
    "writer end dropped due to panic"@
}

/// The message of the error that `arm` gets when the lock is poisoned.
pub open spec fn reader_dropped() -> Seq<char> {
    "reader end dropped due to panic"@
}

/// A broken pipe with the given message.
pub open spec fn is_broken_pipe(error: Error, message: Seq<char>) -> bool {
    &&& kind_of(error) == ErrorKind::BrokenPipe
    &&& message_of(error) == message
}

/// Calls `std::io::Error::new` with a string as the payload.
///
/// Trusted: the error has the kind it was made with, and its payload is the
/// string.
#[verifier::external_body]
fn new_error(kind: ErrorKind, message: &str) -> (error: Error)
    ensures
        kind_of(error) == kind,
        message_of(error) == message@,
{
    Error::new(kind, message)
}

/// The error that stands for a writer that panicked while the fuse was armed.
pub fn writer_dropped_error() -> (error: Error)
    ensures
        is_broken_pipe(error, writer_dropped()),
{
    new_error(ErrorKind::BrokenPipe, "writer end dropped due to panic")
}

/// The error that `arm` returns when the lock is poisoned.
pub fn reader_dropped_error() -> (error: Error)
    ensures
        is_broken_pipe(error, reader_dropped()),
{
    new_error(ErrorKind::BrokenPipe, "reader end dropped due to panic")
}

} // verus!
