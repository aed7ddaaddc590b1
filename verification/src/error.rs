//! Why a buffer was rejected, and why no controller could be made.

use vstd::prelude::*;

verus! {

/// The two ways a decoder rejects a buffer. A rejected buffer yields no event,
/// not even in part.
#[derive(Clone, Copy, Debug, PartialEq, Eq, Structural)]
pub enum DecodeError {
    /// The buffer holds fewer bytes than the message's fixed layout needs.
    Truncated {
        /// The least length the message kind accepts.
        expected: usize,
        /// The length of the buffer that was given.
        actual: usize,
    },
    /// The kind byte of a capability announcement names no known controller kind.
    UnrecognizedKind {
        /// The offending byte.
        code: u8,
    },
}

/// Why a controller handle could not be made.
#[derive(Clone, Copy, Debug, PartialEq, Eq, Structural)]
pub enum GamepadError {
    /// No controller backend is present. This is a state of its own, reported
    /// once when a handle is asked for; it is not a fault to retry.
    Unavailable,
}

/// The rejection of a buffer of `actual` bytes by a message kind that needs
/// `expected`.
pub open spec fn truncated(expected: usize, actual: nat) -> DecodeError {
    DecodeError::Truncated { expected, actual: actual as usize }
}

} // verus!
