//! A small Unix-oriented networking toolkit: a length-delimited file-transfer
//! protocol (framing, message codec, and the server/client state machines),
//! a typed front end for POSIX name resolution, and the bookkeeping logic of
//! a worker pool and a fork-per-connection supervisor.
//!
//! The operating-system edges (sockets, processes, threads, the resolver
//! calls themselves) live outside this crate; everything here is pure logic
//! over plain values, stated in contracts and verified.

use vstd::prelude::*;

pub mod bytes;
pub mod codec;
pub mod endpoint;
pub mod fork;
pub mod frame;
pub mod messages;
pub mod pool;
pub mod protocol;
pub mod resolver;
pub mod service;

verus! {

/// The semantic error classes that the toolkit reports.
#[derive(Clone, Copy, Debug, PartialEq, Eq, Structural)]
pub enum ErrorKind {
    /// A required argument is missing or an input is malformed.
    InvalidInput,
    /// A requested file is absent.
    NotFound,
    /// A protocol version or an address family that the peer cannot handle.
    Unsupported,
    /// A framed message that does not decode.
    InvalidData,
    /// A stream that ended in the middle of a message.
    UnexpectedEof,
    /// An operating-system error reported by errno.
    Io,
    /// A resolver error that only has an OS textual explanation.
    Other,
}

} // verus!
