//! Error taxonomy of the control plane: handshake failures, SASL failures
//! and post-handshake protocol errors are kept distinct so the embedding
//! application can tell them apart.

use vstd::prelude::*;
use crate::types::{Frame, ProtocolId};

verus! {

/// Failure of the SASL exchange, distinct from transport errors so that
/// authentication failures can be logged and audited separately.
#[derive(Clone, Copy, Debug, PartialEq, Eq, Structural)]
pub enum SaslError {
    /// Peer selected a mechanism the server did not offer.
    UnsupportedMechanism(u64),
    /// The authentication callback rejected the credentials.
    Rejected,
    /// Peer sent a frame that has no place at the current point of the
    /// exchange.
    UnexpectedFrame,
}

/// Failure of the handshake. No variant ever accompanies a `Connection`:
/// a failed handshake produces only the classified error.
#[derive(Clone, Copy, Debug, PartialEq, Eq, Structural)]
pub enum HandshakeError {
    /// Peer closed the transport before completing the current step.
    Disconnected,
    /// Peer declared a protocol identifier other than the one this stage
    /// accepts.
    UnexpectedProtocol { exp: ProtocolId, got: ProtocolId },
    /// The first post-negotiation frame was not `Open`.
    Unexpected(Frame),
    /// The SASL exchange failed.
    Sasl(SaslError),
    /// The application factory failed to produce state and a link service.
    Service,
}

/// A semantic violation detected while dispatching frames on a live
/// connection. Always connection-fatal.
#[derive(Clone, Copy, Debug, PartialEq, Eq, Structural)]
pub enum AmqpProtocolError {
    /// Peer closed the transport without a `Close` frame.
    Disconnected,
    /// A frame arrived for a channel with no open session.
    UnknownSession(u16),
    /// A link frame named a handle that is not attached.
    UnattachedHandle(u32),
    /// An `Attach` reused a handle that is already attached.
    HandleInUse(u32),
    /// A frame that has no place on a live connection, such as a second
    /// `Open` or a `Begin` on a channel whose session is already open.
    UnexpectedFrame,
}

} // verus!
