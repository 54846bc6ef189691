//! The connection service: protocol-identifier negotiation, the `Open`
//! exchange, and the lifecycle of one accepted transport from negotiation to
//! the disconnect hook.
//!
//! The asynchronous shell around this machine reads and writes frames; every
//! decision it takes — what to echo, when to fail, which phase comes next,
//! what the caller finally observes — is made and proved here.

use vstd::prelude::*;
use crate::error::{AmqpProtocolError, HandshakeError};
use crate::types::{AmqpFrame, Configuration, Connection, Frame, ProtocolId, SaslAuth};

verus! {

/// Outcome of the first protocol-identifier frame. `Amqp` and `AmqpSasl`
/// are accepted and must be echoed; `AmqpTls` is always rejected because
/// TLS is established below this layer, never negotiated here; a missing
/// frame means the peer closed before negotiating.
pub open spec fn negotiation_outcome(received: Option<ProtocolId>) -> Result<
    ProtocolId,
    HandshakeError,
> {
    match received {
        None => Err(HandshakeError::Disconnected),
        Some(ProtocolId::Amqp) => Ok(ProtocolId::Amqp),
        Some(ProtocolId::AmqpSasl) => Ok(ProtocolId::AmqpSasl),
        Some(ProtocolId::AmqpTls) => Err(
            HandshakeError::UnexpectedProtocol {
                exp: ProtocolId::Amqp,
                got: ProtocolId::AmqpTls,
            },
        ),
    }
}

/// Outcome of the repeated protocol-identifier frame after SASL: only the
/// bare `Amqp` identifier confirms the outer protocol.
pub open spec fn confirmation_outcome(received: Option<ProtocolId>) -> Result<
    ProtocolId,
    HandshakeError,
> {
    match received {
        None => Err(HandshakeError::Disconnected),
        Some(ProtocolId::Amqp) => Ok(ProtocolId::Amqp),
        Some(p) => Err(HandshakeError::UnexpectedProtocol { exp: ProtocolId::Amqp, got: p }),
    }
}

/// Outcome of the `Open` exchange: the peer's first post-negotiation frame
/// must be `Open`. On success the result pairs the live connection with the
/// local `Open` frame to send back on channel 0.
pub open spec fn open_outcome(cfg: Configuration, frame: Option<AmqpFrame>) -> Result<
    (Connection, AmqpFrame),
    HandshakeError,
> {
    match frame {
        None => Err(HandshakeError::Disconnected),
        Some(f) => match f.performative {
            Frame::Open(remote) => Ok(
                (
                    Connection { local: cfg.spec_to_open(), remote },
                    AmqpFrame { channel: 0, performative: Frame::Open(cfg.spec_to_open()) },
                ),
            ),
            _ => Err(HandshakeError::Unexpected(f.performative)),
        },
    }
}

/// Classify the first protocol-identifier frame of a fresh transport. On
/// `Ok(p)`, `p` is exactly the identifier the peer sent and the identifier
/// the caller must echo before proceeding.
pub fn negotiate_protocol_id(received: Option<ProtocolId>) -> (r: Result<
    ProtocolId,
    HandshakeError,
>)
    ensures
        r == negotiation_outcome(received),
{
    match received {
        None => Err(HandshakeError::Disconnected),
        Some(ProtocolId::Amqp) => Ok(ProtocolId::Amqp),
        Some(ProtocolId::AmqpSasl) => Ok(ProtocolId::AmqpSasl),
        Some(ProtocolId::AmqpTls) => Err(
            HandshakeError::UnexpectedProtocol {
                exp: ProtocolId::Amqp,
                got: ProtocolId::AmqpTls,
            },
        ),
    }
}

/// The post-SASL protocol confirmation: the peer must re-send `Amqp`, which
/// is then echoed, before the `Open` exchange may begin.
pub fn handshake(received: Option<ProtocolId>) -> (r: Result<ProtocolId, HandshakeError>)
    ensures
        r == confirmation_outcome(received),
{
    match received {
        None => Err(HandshakeError::Disconnected),
        Some(ProtocolId::Amqp) => Ok(ProtocolId::Amqp),
        Some(p) => Err(HandshakeError::UnexpectedProtocol { exp: ProtocolId::Amqp, got: p }),
    }
}

/// The `Open` exchange: require the peer's first frame to be `Open`, build
/// the local `Open` from configuration, and combine both into the
/// connection. No failure ever yields a connection.
pub fn open_connection(cfg: &Configuration, frame: Option<AmqpFrame>) -> (r: Result<
    (Connection, AmqpFrame),
    HandshakeError,
>)
    ensures
        r == open_outcome(*cfg, frame),
{
    match frame {
        None => Err(HandshakeError::Disconnected),
        Some(f) => match f.performative {
            Frame::Open(remote) => {
                let local = cfg.to_open();
                Ok(
                    (
                        Connection { local, remote },
                        AmqpFrame { channel: 0, performative: Frame::Open(local) },
                    ),
                )
            },
            _ => Err(HandshakeError::Unexpected(f.performative)),
        },
    }
}

/// Each of the four possible first frames reaches its documented outcome
/// and no other: `Amqp` proceeds to the `Open` exchange, `AmqpSasl`
/// proceeds to SASL, `AmqpTls` is rejected, end-of-stream is a disconnect.
pub proof fn lemma_protocol_id_exhaustive(received: Option<ProtocolId>)
    ensures
        received == Some(ProtocolId::Amqp) ==> negotiation_outcome(received) == Ok::<
            ProtocolId,
            HandshakeError,
        >(ProtocolId::Amqp),
        received == Some(ProtocolId::AmqpSasl) ==> negotiation_outcome(received) == Ok::<
            ProtocolId,
            HandshakeError,
        >(ProtocolId::AmqpSasl),
        received == Some(ProtocolId::AmqpTls) ==> negotiation_outcome(received) == Err::<
            ProtocolId,
            HandshakeError,
        >(
            HandshakeError::UnexpectedProtocol { exp: ProtocolId::Amqp, got: ProtocolId::AmqpTls },
        ),
        received is None ==> negotiation_outcome(received) == Err::<
            ProtocolId,
            HandshakeError,
        >(HandshakeError::Disconnected),
{
}

/// Whenever protocol-identifier negotiation succeeds — at the first frame
/// or at the post-SASL confirmation — the identifier it yields for echoing
/// is exactly the identifier that was received.
pub proof fn lemma_echo_symmetry(received: Option<ProtocolId>)
    ensures
        forall|p: ProtocolId|
            negotiation_outcome(received) == Ok::<ProtocolId, HandshakeError>(p) ==> received
                == Some(p),
        forall|p: ProtocolId|
            confirmation_outcome(received) == Ok::<ProtocolId, HandshakeError>(p) ==> received
                == Some(p),
{
}

/// A post-negotiation first frame that is not `Open` always yields
/// `Unexpected` with that very frame, and a connection is constructed only
/// from an `Open` frame.
pub proof fn lemma_open_frame_gating(cfg: Configuration, frame: Option<AmqpFrame>)
    ensures
        frame matches Some(f) ==> (!(f.performative is Open) ==> open_outcome(cfg, frame) == Err::<
            (Connection, AmqpFrame),
            HandshakeError,
        >(HandshakeError::Unexpected(f.performative))),
        open_outcome(cfg, frame) is Ok ==> (frame matches Some(f)
            && f.performative matches Frame::Open(remote)
            && open_outcome(cfg, frame) == Ok::<(Connection, AmqpFrame), HandshakeError>(
            (
                Connection { local: cfg.spec_to_open(), remote },
                AmqpFrame { channel: 0, performative: Frame::Open(cfg.spec_to_open()) },
            ),
        )),
{
}

/// The strictly forward-moving phases of one accepted transport. `Closing`
/// is reached from `Dispatching` when a disconnect hook must still run;
/// every path ends in `Closed` and no transition leads back.
#[derive(Clone, Copy, Debug, PartialEq, Eq, Structural)]
pub enum ConnPhase {
    /// Awaiting the peer's first protocol identifier.
    Negotiating,
    /// The transport runs the SASL codec; the SASL negotiator is in charge.
    SaslExchange,
    /// After SASL: awaiting the repeated protocol identifier.
    Confirming,
    /// Awaiting the peer's `Open` frame.
    Opening,
    /// Connection established; the application factory is being invoked.
    Open,
    /// The frame dispatch loop is running.
    Dispatching,
    /// Terminated; the registered disconnect hook is running.
    Closing,
    /// Final.
    Closed,
}

/// The lifecycle of one accepted transport. The surrounding shell feeds in
/// what it read — a protocol identifier, a SASL verdict, an `Open` frame,
/// the dispatch loop's result, the hook's result — and this machine decides
/// every transition and every value the shell sends or returns.
#[derive(Clone, Copy, Debug)]
pub struct ConnectionHandler {
    pub config: Configuration,
    pub disconnect_registered: bool,
    pub phase: ConnPhase,
    pub sasl_auth: Option<SaslAuth>,
    pub connection: Option<Connection>,
    pub outcome: Option<Result<(), AmqpProtocolError>>,
    pub hook_runs: u32,
}

impl ConnectionHandler {
    /// Phase-indexed invariant. In particular: the disconnect hook has run
    /// exactly once when and only when a dispatched connection terminated
    /// with a hook registered, and a connection value exists from the
    /// `Open` exchange onward — never earlier.
    pub open spec fn wf(self) -> bool {
        &&& match self.phase {
            ConnPhase::Closing => self.hook_runs == 1 && self.disconnect_registered
                && self.outcome is Some && self.connection is Some,
            ConnPhase::Closed => self.hook_runs == (
                if self.disconnect_registered && self.outcome is Some {
                    1u32
                } else {
                    0u32
                }
            ),
            _ => self.hook_runs == 0 && self.outcome is None,
        }
        &&& (self.phase == ConnPhase::Open || self.phase == ConnPhase::Dispatching)
            ==> self.connection is Some
        &&& (self.phase == ConnPhase::Negotiating || self.phase == ConnPhase::SaslExchange
            || self.phase == ConnPhase::Confirming || self.phase == ConnPhase::Opening)
            ==> self.connection is None
        &&& (self.phase == ConnPhase::Closed && self.outcome is None) ==> self.connection is None
    }

    /// A fresh machine for one just-accepted transport.
    pub fn new(config: Configuration, disconnect_registered: bool) -> (h: ConnectionHandler)
        ensures
            h.wf(),
            h.phase == ConnPhase::Negotiating,
            h.config == config,
            h.disconnect_registered == disconnect_registered,
            h.sasl_auth is None,
            h.connection is None,
            h.outcome is None,
            h.hook_runs == 0,
    {
        ConnectionHandler {
            config,
            disconnect_registered,
            phase: ConnPhase::Negotiating,
            sasl_auth: None,
            connection: None,
            outcome: None,
            hook_runs: 0,
        }
    }

    /// Feed the first protocol-identifier frame. `Ok(p)` is the identifier
    /// to echo; `Amqp` proceeds to the `Open` exchange, `AmqpSasl` to the
    /// SASL exchange, and any failure ends the handshake with no
    /// connection.
    pub fn on_protocol_id(&mut self, received: Option<ProtocolId>) -> (r: Result<
        ProtocolId,
        HandshakeError,
    >)
        requires
            old(self).wf(),
            old(self).phase == ConnPhase::Negotiating,
        ensures
            final(self).wf(),
            r == negotiation_outcome(received),
            r == Ok::<ProtocolId, HandshakeError>(ProtocolId::Amqp) ==> final(self).phase
                == ConnPhase::Opening,
            r == Ok::<ProtocolId, HandshakeError>(ProtocolId::AmqpSasl) ==> final(self).phase
                == ConnPhase::SaslExchange,
            r is Err ==> final(self).phase == ConnPhase::Closed,
            final(self).connection is None,
            final(self).config == old(self).config,
            final(self).disconnect_registered == old(self).disconnect_registered,
            final(self).sasl_auth == old(self).sasl_auth,
            final(self).outcome is None,
            final(self).hook_runs == 0,
    {
        let r = negotiate_protocol_id(received);
        match r {
            Ok(ProtocolId::Amqp) => {
                self.phase = ConnPhase::Opening;
            },
            Ok(ProtocolId::AmqpSasl) => {
                self.phase = ConnPhase::SaslExchange;
            },
            _ => {
                self.phase = ConnPhase::Closed;
            },
        }
        r
    }

    /// Feed the verdict of the SASL exchange. Success stores the
    /// credentials for the application factory and awaits the repeated
    /// protocol identifier; failure ends the handshake.
    pub fn on_sasl_outcome(&mut self, outcome: Result<SaslAuth, HandshakeError>) -> (r: Result<
        (),
        HandshakeError,
    >)
        requires
            old(self).wf(),
            old(self).phase == ConnPhase::SaslExchange,
        ensures
            final(self).wf(),
            outcome matches Ok(auth) ==> (r == Ok::<(), HandshakeError>(()) && final(self).phase
                == ConnPhase::Confirming && final(self).sasl_auth == Some(auth)),
            outcome matches Err(e) ==> (r == Err::<(), HandshakeError>(e) && final(self).phase
                == ConnPhase::Closed),
            final(self).connection is None,
            final(self).config == old(self).config,
            final(self).disconnect_registered == old(self).disconnect_registered,
            final(self).outcome is None,
            final(self).hook_runs == 0,
    {
        match outcome {
            Ok(auth) => {
                self.sasl_auth = Some(auth);
                self.phase = ConnPhase::Confirming;
                Ok(())
            },
            Err(e) => {
                self.phase = ConnPhase::Closed;
                Err(e)
            },
        }
    }

    /// Feed the repeated protocol identifier after SASL. Only `Amqp`
    /// confirms; `Ok(p)` is again the identifier to echo.
    pub fn on_confirmation(&mut self, received: Option<ProtocolId>) -> (r: Result<
        ProtocolId,
        HandshakeError,
    >)
        requires
            old(self).wf(),
            old(self).phase == ConnPhase::Confirming,
        ensures
            final(self).wf(),
            r == confirmation_outcome(received),
            r is Ok ==> final(self).phase == ConnPhase::Opening,
            r is Err ==> final(self).phase == ConnPhase::Closed,
            final(self).connection is None,
            final(self).config == old(self).config,
            final(self).disconnect_registered == old(self).disconnect_registered,
            final(self).sasl_auth == old(self).sasl_auth,
            final(self).outcome is None,
            final(self).hook_runs == 0,
    {
        let r = handshake(received);
        match r {
            Ok(_) => {
                self.phase = ConnPhase::Opening;
            },
            Err(_) => {
                self.phase = ConnPhase::Closed;
            },
        }
        r
    }

    /// Feed the peer's first AMQP frame. If it is `Open`, the connection is
    /// established and `Ok` carries the local `Open` frame to send on
    /// channel 0; anything else ends the handshake with no connection.
    pub fn on_open_frame(&mut self, frame: Option<AmqpFrame>) -> (r: Result<
        AmqpFrame,
        HandshakeError,
    >)
        requires
            old(self).wf(),
            old(self).phase == ConnPhase::Opening,
        ensures
            final(self).wf(),
            open_outcome(old(self).config, frame) matches Ok(pair) ==> (r == Ok::<
                AmqpFrame,
                HandshakeError,
            >(pair.1) && final(self).phase == ConnPhase::Open && final(self).connection == Some(
                pair.0,
            )),
            open_outcome(old(self).config, frame) matches Err(e) ==> (r == Err::<
                AmqpFrame,
                HandshakeError,
            >(e) && final(self).phase == ConnPhase::Closed && final(self).connection is None),
            final(self).config == old(self).config,
            final(self).disconnect_registered == old(self).disconnect_registered,
            final(self).sasl_auth == old(self).sasl_auth,
            final(self).outcome is None,
            final(self).hook_runs == 0,
    {
        match open_connection(&self.config, frame) {
            Ok((conn, local)) => {
                self.connection = Some(conn);
                self.phase = ConnPhase::Open;
                Ok(local)
            },
            Err(e) => {
                self.phase = ConnPhase::Closed;
                Err(e)
            },
        }
    }

    /// Feed the application factory's verdict, invoked exactly once per
    /// connection with the stored SASL credentials. Success starts the
    /// dispatch loop; failure is a `Service` handshake error.
    pub fn on_factory_result(&mut self, ok: bool) -> (r: Result<(), HandshakeError>)
        requires
            old(self).wf(),
            old(self).phase == ConnPhase::Open,
        ensures
            final(self).wf(),
            ok ==> (r == Ok::<(), HandshakeError>(()) && final(self).phase
                == ConnPhase::Dispatching),
            !ok ==> (r == Err::<(), HandshakeError>(HandshakeError::Service) && final(self).phase
                == ConnPhase::Closed && final(self).connection is None),
            ok ==> final(self).connection == old(self).connection,
            final(self).config == old(self).config,
            final(self).disconnect_registered == old(self).disconnect_registered,
            final(self).sasl_auth == old(self).sasl_auth,
            final(self).outcome is None,
            final(self).hook_runs == 0,
    {
        if ok {
            self.phase = ConnPhase::Dispatching;
            Ok(())
        } else {
            self.phase = ConnPhase::Closed;
            self.connection = None;
            Err(HandshakeError::Service)
        }
    }

    /// Feed the dispatch loop's result, whatever the termination cause:
    /// graceful close (`Ok`), protocol error or transport closure (`Err`).
    /// Returns whether the disconnect hook must now be invoked — true
    /// exactly when one was registered, and then exactly once, since no
    /// transition re-enters `Dispatching`.
    pub fn terminate(&mut self, result: Result<(), AmqpProtocolError>) -> (invoke_hook: bool)
        requires
            old(self).wf(),
            old(self).phase == ConnPhase::Dispatching,
        ensures
            final(self).wf(),
            invoke_hook == old(self).disconnect_registered,
            final(self).outcome == Some(result),
            invoke_hook ==> final(self).phase == ConnPhase::Closing && final(self).hook_runs == 1,
            !invoke_hook ==> final(self).phase == ConnPhase::Closed && final(self).hook_runs == 0,
            final(self).connection == old(self).connection,
            final(self).config == old(self).config,
            final(self).disconnect_registered == old(self).disconnect_registered,
            final(self).sasl_auth == old(self).sasl_auth,
    {
        self.outcome = Some(result);
        if self.disconnect_registered {
            self.hook_runs = 1;
            self.phase = ConnPhase::Closing;
            true
        } else {
            self.phase = ConnPhase::Closed;
            false
        }
    }

    /// Feed the disconnect hook's own result. Whatever it was, the value
    /// returned — what the caller of the service finally observes — is the
    /// original termination result, unchanged: the hook's failure masks
    /// nothing.
    pub fn hook_done(&mut self, hook_result: Result<(), ()>) -> (r: Result<
        (),
        AmqpProtocolError,
    >)
        requires
            old(self).wf(),
            old(self).phase == ConnPhase::Closing,
        ensures
            final(self).wf(),
            final(self).phase == ConnPhase::Closed,
            old(self).outcome matches Some(res) ==> r == res,
            final(self).outcome == old(self).outcome,
            final(self).hook_runs == 1,
            final(self).connection == old(self).connection,
            final(self).config == old(self).config,
            final(self).disconnect_registered == old(self).disconnect_registered,
            final(self).sasl_auth == old(self).sasl_auth,
    {
        let _ = hook_result;
        self.phase = ConnPhase::Closed;
        match self.outcome {
            Some(res) => res,
            None => {
                proof {
                    assert(false);
                }
                Ok(())
            },
        }
    }
}

/// Whatever the termination cause was: once a dispatched connection has
/// terminated — `outcome` is recorded from `Closing` onward — the
/// disconnect hook has been started exactly once when one was registered,
/// and never otherwise. That the hook's own result masks nothing is part
/// of `hook_done`'s contract: the value it returns is the recorded
/// termination result, whatever the hook reported.
pub proof fn lemma_disconnect_hook_runs_once(h: ConnectionHandler)
    requires
        h.wf(),
        h.outcome is Some,
    ensures
        h.disconnect_registered ==> h.hook_runs == 1,
        !h.disconnect_registered ==> h.hook_runs == 0,
{
}

/// Server dispatcher factory: the configuration every accepted transport
/// is handled with, and whether a disconnect hook is registered. The hook
/// itself, like the application factory, lives with the embedding
/// application; this machine decides when each is invoked.
#[derive(Clone, Copy, Debug, PartialEq, Eq, Structural)]
pub struct Server {
    pub config: Configuration,
    pub disconnect_registered: bool,
}

impl Server {
    /// Create a server dispatcher factory.
    pub fn new(config: Configuration) -> (s: Server)
        ensures
            s.config == config,
            !s.disconnect_registered,
    {
        Server { config, disconnect_registered: false }
    }

    /// Register a service to call on disconnect.
    pub fn disconnect(self) -> (s: Server)
        ensures
            s.config == self.config,
            s.disconnect_registered,
    {
        Server { config: self.config, disconnect_registered: true }
    }

    /// Produce the per-transport service.
    pub fn new_service(&self) -> (s: ServerService)
        ensures
            s.config == self.config,
            s.disconnect_registered == self.disconnect_registered,
    {
        ServerService { config: self.config, disconnect_registered: self.disconnect_registered }
    }
}

/// Server dispatcher: accepts one transport per call and hands back the
/// machine that governs that transport's whole lifetime.
#[derive(Clone, Copy, Debug, PartialEq, Eq, Structural)]
pub struct ServerService {
    pub config: Configuration,
    pub disconnect_registered: bool,
}

impl ServerService {
    /// Accept one transport: begin its lifecycle at protocol-identifier
    /// negotiation.
    pub fn call(&self) -> (h: ConnectionHandler)
        ensures
            h.wf(),
            h.phase == ConnPhase::Negotiating,
            h.config == self.config,
            h.disconnect_registered == self.disconnect_registered,
            h.sasl_auth is None,
            h.connection is None,
            h.outcome is None,
            h.hook_runs == 0,
    {
        ConnectionHandler::new(self.config, self.disconnect_registered)
    }
}

} // verus!

