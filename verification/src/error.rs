//! Errors surfaced by header processing and deserialization.

use vstd::prelude::*;

verus! {

/// The kind of failure. A MAC mismatch and an unrecognized flag byte are
/// reported under the same kind, so a caller cannot tell which check
/// rejected the header.
#[derive(Clone, Copy, Debug, PartialEq, Eq, Structural)]
pub enum ErrorKind {
    /// Serialized input has the wrong length, MAC verification failed, or
    /// the unwrapped flag byte is unrecognized.
    InvalidHeader,
    /// Internal inconsistency while unwrapping routing information. The
    /// fixed-size representation leaves no such state to reach, so this
    /// kind is reserved for callers that wrap these errors.
    MalformedRoutingInfo,
}

/// An error returned by header operations.
#[derive(Clone, Copy, Debug, PartialEq, Eq, Structural)]
pub struct Error {
    pub kind: ErrorKind,
}

impl Error {
    /// Builds an error of the given kind.
    pub fn new(kind: ErrorKind) -> (r: Error)
        ensures
            r.kind == kind,
    {
        Error { kind }
    }

    /// The kind of this error.
    pub fn kind(&self) -> (r: ErrorKind)
        ensures
            r == self.kind,
    {
        self.kind
    }
}

} // verus!
