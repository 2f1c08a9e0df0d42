//! The errors of the secure channel.

use vstd::prelude::*;

verus! {

/// The kind of an I/O failure that a channel operation reports.
#[derive(PartialEq, Eq, Structural, Clone, Copy, Debug)]
pub enum IoErrorKind {
    /// The transport was closed in the middle of a frame.
    UnexpectedEof,
    /// The transport accepted no byte of a frame that had to be written.
    WriteZero,
    /// The session rejected a frame, or could not produce one.
    InvalidData,
    /// An event was handed in that does not answer the action asked for.
    InvalidInput,
    /// Any other failure, as the transport reported it.
    Other,
}

/// The errors of a handshake.
#[derive(PartialEq, Eq, Structural, Clone, Copy, Debug)]
pub enum NoiseError {
    /// An I/O failure.
    Io(IoErrorKind),
    /// The session reported a cryptographic failure.
    CryptoError,
    /// The handshake ended without a static key of the remote.
    InvalidKey,
}

} // verus!
