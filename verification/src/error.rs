//! The ways in which serving a connection can fail.

use vstd::prelude::*;

verus! {

/// What went wrong while a connection was served.
///
/// The first three are found by the parser in the bytes of a request. The
/// last two are reported by whoever performs the file and socket operations.
#[derive(Clone, Copy, Debug, PartialEq, Eq, Structural)]
pub enum ErrorKind {
    /// The start line or the end of the header block was not found.
    MalformedRequest,
    /// The method token is not one that the server recognizes.
    UnsupportedMethod,
    /// The bytes received are not valid UTF-8.
    InvalidEncoding,
    /// A file could not be opened, read or written.
    StorageFailure,
    /// The socket could not be read or written.
    SocketFailure,
}

} // verus!
