//! Typed frames and connection parameters: the plain-value model of what the
//! wire codec delivers to and accepts from the control plane.

use vstd::prelude::*;

verus! {

/// The three protocol identifiers a peer may declare in its first frame.
#[derive(Clone, Copy, Debug, PartialEq, Eq, Structural)]
pub enum ProtocolId {
    Amqp,
    AmqpSasl,
    AmqpTls,
}

/// Connection-level parameters a peer declares in its `Open` frame.
/// Beyond being stored and echoed they are opaque to the control plane.
#[derive(Clone, Copy, Debug, PartialEq, Eq, Structural)]
pub struct Open {
    pub max_frame_size: u32,
    pub channel_max: u16,
    pub idle_timeout_ms: u32,
}

/// Local configuration from which our own `Open` frame is built.
#[derive(Clone, Copy, Debug, PartialEq, Eq, Structural)]
pub struct Configuration {
    pub max_frame_size: u32,
    pub channel_max: u16,
    pub idle_timeout_ms: u32,
}

impl Configuration {
    /// The `Open` frame this side declares, as a mathematical value.
    pub open spec fn spec_to_open(self) -> Open {
        Open {
            max_frame_size: self.max_frame_size,
            channel_max: self.channel_max,
            idle_timeout_ms: self.idle_timeout_ms,
        }
    }

    /// The `Open` frame this side declares, built from its configuration.
    pub fn to_open(&self) -> (o: Open)
        ensures
            o == self.spec_to_open(),
    {
        Open {
            max_frame_size: self.max_frame_size,
            channel_max: self.channel_max,
            idle_timeout_ms: self.idle_timeout_ms,
        }
    }
}

/// Parameters of an `Attach` frame: the peer asks to establish a link.
/// `peer_sender` is the peer's role: when the peer sends, this side receives.
#[derive(Clone, Copy, Debug, PartialEq, Eq, Structural)]
pub struct Attach {
    pub name: u64,
    pub handle: u32,
    pub peer_sender: bool,
}

/// Parameters of a `Flow` frame: a credit update for an existing link.
#[derive(Clone, Copy, Debug, PartialEq, Eq, Structural)]
pub struct Flow {
    pub handle: u32,
    pub link_credit: u32,
}

/// Parameters of a `Detach` frame: link teardown, requested or confirmed.
#[derive(Clone, Copy, Debug, PartialEq, Eq, Structural)]
pub struct Detach {
    pub handle: u32,
    pub closed: bool,
}

/// One decoded AMQP performative, as the frame codec hands it over.
#[derive(Clone, Copy, Debug, PartialEq, Eq, Structural)]
pub enum Frame {
    Open(Open),
    Begin,
    Attach(Attach),
    Flow(Flow),
    Detach(Detach),
    End,
    Close,
}

/// One framed performative together with the channel it arrived on.
#[derive(Clone, Copy, Debug, PartialEq, Eq, Structural)]
pub struct AmqpFrame {
    pub channel: u16,
    pub performative: Frame,
}

impl AmqpFrame {
    /// Frame a performative for transmission on a channel.
    pub fn new(channel: u16, performative: Frame) -> (f: AmqpFrame)
        ensures
            f == (AmqpFrame { channel, performative }),
    {
        AmqpFrame { channel, performative }
    }
}

/// One SASL-framing performative, exchanged only while the transport runs
/// the SASL codec.
#[derive(Debug, PartialEq, Eq)]
pub enum SaslFrame {
    /// Server announces the mechanisms it offers.
    Mechanisms(Vec<u64>),
    /// Peer selects a mechanism and sends its initial response.
    Init { mechanism: u64, response: Vec<u8> },
    /// Server challenges the peer.
    Challenge(Vec<u8>),
    /// Peer answers a challenge.
    Response(Vec<u8>),
    /// Final verdict of the exchange.
    Outcome(bool),
}

/// Credentials produced by a successful SASL exchange, handed to the
/// application factory.
#[derive(Clone, Copy, Debug, PartialEq, Eq, Structural)]
pub struct SaslAuth {
    pub mechanism: u64,
}

/// A live connection: the negotiated parameters of both sides, produced by a
/// completed handshake and by nothing else.
#[derive(Clone, Copy, Debug, PartialEq, Eq, Structural)]
pub struct Connection {
    pub local: Open,
    pub remote: Open,
}

} // verus!
