//! Error taxonomy of the receiver layer.

use vstd::prelude::*;

verus! {

/// Which of the two channels of a receiver instance an error concerns.
#[derive(Clone, Copy, PartialEq, Eq, Structural, Debug)]
pub enum ChannelKind {
    /// The control channel (orchestrator to receiver).
    Control,
    /// The data channel (receiver to the next pipeline stage).
    Data,
}

/// Errors surfaced by the receiver layer.
#[derive(Debug)]
pub enum Error {
    /// The counterpart half of a channel is gone: sending or receiving can
    /// no longer succeed. Recoverable for the caller; a receiver observing
    /// this on its control channel should treat it as an implicit shutdown.
    ChannelClosed {
        /// The channel the failure was observed on.
        kind: ChannelKind,
    },
    /// A receiver failed to acquire an external resource (for example a
    /// listening socket); fatal for that receiver instance.
    ResourceFailure {
        /// Name of the receiver instance that failed.
        receiver: String,
        /// Description of the failure.
        detail: String,
    },
    /// An unrecoverable error reported by the receiver implementation
    /// itself, propagated unchanged through the wrapper's start operation.
    ReceiverError {
        /// Name of the receiver instance that failed.
        receiver: String,
        /// Description of the failure.
        detail: String,
    },
}

impl Error {
    /// True exactly on the closed-channel error.
    pub fn is_channel_closed(&self) -> (r: bool)
        ensures
            r == (self is ChannelClosed),
    {
        match self {
            Error::ChannelClosed { .. } => true,
            _ => false,
        }
    }

    /// Builds the closed-channel error for the given channel.
    pub fn closed(kind: ChannelKind) -> (e: Error)
        ensures
            e == (Error::ChannelClosed { kind }),
    {
        Error::ChannelClosed { kind }
    }
}

} // verus!
