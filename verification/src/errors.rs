//! Error taxonomy for the protocol engine.
//!
//! Setup and validation failures are fatal for the current session; transport
//! and malformed-packet failures are recoverable at the wait loop; a
//! gateway-initiated DISCONNECT ends the session.

use vstd::prelude::*;

verus! {

/// Everything that a protocol operation can report instead of succeeding.
#[derive(Debug, Clone, Copy, PartialEq, Eq, Structural)]
pub enum SnError {
    /// The transport could not be set up at all; the session never starts.
    TransportSetupError,
    /// A send or receive failed or timed out at the transport; the wait loop
    /// treats it as "no data this attempt".
    IoError,
    /// Inbound bytes did not decode as any supported packet; recoverable.
    MalformedPacket,
    /// An inbound packet broke a protocol rule, such as a bare packet arriving
    /// while forwarder encapsulation is required; recoverable.
    ProtocolViolation,
    /// The gateway ended the session with a DISCONNECT while a reply was
    /// awaited; fatal for the session.
    UnexpectedDisconnect,
    /// A field handed to the engine is over its size limit; rejected before
    /// anything is transmitted.
    ValidationError,
    /// The overall wait deadline passed without the expected reply.
    Timeout,
}

} // verus!
