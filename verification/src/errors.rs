//! The closed set of failure kinds the rest of the crate reports.

use vstd::prelude::*;

verus! {

/// One distinct boundary failure. Every I/O and protocol failure is turned
/// into one of these kinds at its point of occurrence; none carries a retry
/// hint, and all are terminal for the calling operation.
#[derive(Debug, Clone, Copy, PartialEq, Eq, Structural)]
pub enum ErrorKind {
    /// The TCP connect failed, or the greeting line did not begin with the
    /// expected greeting token.
    ConnectToServer,
    /// The outbound message could not be fully written.
    WriteToStream,
    /// A response line could not be read (stream closed, I/O error).
    ReadStream,
    /// A command was attempted while its preconditions were violated:
    /// starting a mode on a connection whose mode is already set.
    RunCommand,
    /// A command's own decode step rejected the raw response text.
    WrongResponse,
}

/// A failure reported by a connection or command operation.
#[derive(Debug, Clone, Copy, PartialEq, Eq, Structural)]
pub struct Error {
    /// Which boundary failed.
    pub kind: ErrorKind,
}

impl Error {
    /// Wraps a failure kind.
    pub fn new(kind: ErrorKind) -> (e: Error)
        ensures
            e == (Error { kind }),
    {
        Error { kind }
    }
}

} // verus!
