//! Error taxonomy of the relay core: every failure a caller can see is one of
//! these typed values; nothing in the core panics or aborts a session handler.

use vstd::prelude::*;

verus! {

/// A payload that could not be decoded as a frame, or a frame that is not
/// acceptable where it arrived. An ordinary connection handler drops the
/// frame and carries on; during the handshake it ends the attempt.
#[derive(Clone, Copy, Debug, PartialEq, Eq, Structural)]
pub enum ProtocolError {
    /// The payload is not the encoding of any frame: truncated, an unknown
    /// discriminant, or non-ASCII bytes in a text field.
    Malformed,
    /// The frame decoded, but is not the kind this point of the protocol
    /// accepts (a first frame that is not a registration).
    UnexpectedFrame,
}

/// Why a forwarded request could not even be handed to a client session.
#[derive(Clone, Copy, Debug, PartialEq, Eq, Structural)]
pub enum DispatchError {
    /// No session is registered under the given client id.
    UnknownClient,
    /// The session's outbound channel is at capacity; the client is not
    /// keeping up, and the request is refused rather than queued unboundedly.
    ChannelFull,
}

} // verus!
