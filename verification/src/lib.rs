//! A fuse between the two ends of a byte stream.
//!
//! A reader that reaches the end of a pipe cannot tell a writer that finished
//! from one that died on the way. [`fuse`] pairs a reader with a [`Fuse`]: the
//! writing thread arms the fuse before it produces bytes and holds the
//! [`FuseGuard`] while it does. When the stream ends, the [`FusedReader`] looks
//! at the fuse and turns the end of the stream into an error if the guard was
//! lost to a panic or the writer blew the fuse with an error of its own.
//!
//! The two handles reach one cell through a lock, and another thread may change
//! the cell between any two calls. No contract of a handle can therefore name
//! the state of the cell: a handle says on which lock its call was made, and
//! that the result is the one decided from what the call found. Each function
//! that looks at the cell is split in two: the call that looks, and a function
//! that decides from what the call found, whose contract is exact.
//! [`protocol`] states what these decisions add up to over every order of
//! events.
pub mod error;
pub mod lock;
pub mod protocol;
pub mod reader;
pub mod status;
pub mod writer;

pub use reader::{fuse, FusedReader};
pub use status::FuseStatus;
pub use writer::{Fuse, FuseGuard};
