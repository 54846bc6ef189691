use amqp_control::error::{HandshakeError, SaslError};
use amqp_control::factory::{
    handshake, negotiate_protocol_id, open_connection, ConnPhase, ConnectionHandler, Server,
};
use amqp_control::sasl::{AuthVerdict, SaslNegotiator, SaslProgress};
use amqp_control::types::{
    AmqpFrame, Configuration, Connection, Frame, Open, ProtocolId, SaslFrame,
};

fn config() -> Configuration {
    Configuration { max_frame_size: 65536, channel_max: 255, idle_timeout_ms: 30000 }
}

#[test]
fn protocol_id_amqp_proceeds() {
    assert_eq!(negotiate_protocol_id(Some(ProtocolId::Amqp)), Ok(ProtocolId::Amqp));
}

#[test]
fn protocol_id_sasl_proceeds() {
    assert_eq!(negotiate_protocol_id(Some(ProtocolId::AmqpSasl)), Ok(ProtocolId::AmqpSasl));
}

#[test]
fn protocol_id_tls_rejected() {
    assert_eq!(
        negotiate_protocol_id(Some(ProtocolId::AmqpTls)),
        Err(HandshakeError::UnexpectedProtocol {
            exp: ProtocolId::Amqp,
            got: ProtocolId::AmqpTls
        })
    );
}

#[test]
fn protocol_id_end_of_stream_disconnects() {
    assert_eq!(negotiate_protocol_id(None), Err(HandshakeError::Disconnected));
}

#[test]
fn echo_is_what_was_received() {
    for p in [ProtocolId::Amqp, ProtocolId::AmqpSasl] {
        assert_eq!(negotiate_protocol_id(Some(p)), Ok(p));
    }
    assert_eq!(handshake(Some(ProtocolId::Amqp)), Ok(ProtocolId::Amqp));
}

#[test]
fn confirmation_accepts_only_amqp() {
    assert_eq!(handshake(Some(ProtocolId::Amqp)), Ok(ProtocolId::Amqp));
    assert_eq!(
        handshake(Some(ProtocolId::AmqpSasl)),
        Err(HandshakeError::UnexpectedProtocol {
            exp: ProtocolId::Amqp,
            got: ProtocolId::AmqpSasl
        })
    );
    assert_eq!(
        handshake(Some(ProtocolId::AmqpTls)),
        Err(HandshakeError::UnexpectedProtocol {
            exp: ProtocolId::Amqp,
            got: ProtocolId::AmqpTls
        })
    );
    assert_eq!(handshake(None), Err(HandshakeError::Disconnected));
}

#[test]
fn open_exchange_builds_connection() {
    let cfg = config();
    let peer = Open { max_frame_size: 1024, channel_max: 7, idle_timeout_ms: 1000 };
    let frame = AmqpFrame { channel: 0, performative: Frame::Open(peer) };
    let (conn, local) = open_connection(&cfg, Some(frame)).unwrap();
    assert_eq!(conn.remote, peer);
    assert_eq!(
        conn.local,
        Open { max_frame_size: 65536, channel_max: 255, idle_timeout_ms: 30000 }
    );
    assert_eq!(local.channel, 0);
    assert_eq!(local.performative, Frame::Open(conn.local));
}

#[test]
fn open_exchange_rejects_other_frames() {
    let cfg = config();
    let frame = AmqpFrame { channel: 0, performative: Frame::Begin };
    assert_eq!(
        open_connection(&cfg, Some(frame)),
        Err(HandshakeError::Unexpected(Frame::Begin))
    );
    assert_eq!(open_connection(&cfg, None), Err(HandshakeError::Disconnected));
}

#[test]
fn bare_amqp_path_reaches_open() {
    let service = Server::new(config()).new_service();
    let mut h = service.call();
    assert_eq!(h.phase, ConnPhase::Negotiating);
    let echo = h.on_protocol_id(Some(ProtocolId::Amqp)).unwrap();
    assert_eq!(echo, ProtocolId::Amqp);
    assert_eq!(h.phase, ConnPhase::Opening);
    let peer = Open { max_frame_size: 512, channel_max: 1, idle_timeout_ms: 0 };
    let local = h
        .on_open_frame(Some(AmqpFrame { channel: 0, performative: Frame::Open(peer) }))
        .unwrap();
    assert_eq!(local.performative, Frame::Open(config().to_open()));
    assert_eq!(h.phase, ConnPhase::Open);
    assert_eq!(h.connection, Some(Connection { local: config().to_open(), remote: peer }));
    h.on_factory_result(true).unwrap();
    assert_eq!(h.phase, ConnPhase::Dispatching);
}

#[test]
fn tls_first_frame_fails_immediately() {
    let service = Server::new(config()).new_service();
    let mut h = service.call();
    let r = h.on_protocol_id(Some(ProtocolId::AmqpTls));
    assert_eq!(
        r,
        Err(HandshakeError::UnexpectedProtocol {
            exp: ProtocolId::Amqp,
            got: ProtocolId::AmqpTls
        })
    );
    assert_eq!(h.phase, ConnPhase::Closed);
    assert_eq!(h.connection, None);
}

#[test]
fn sasl_plain_round_trip_scenario() {
    // Client selects SASL, authenticates with PLAIN, re-confirms AMQP,
    // then opens; the connection exposes the client's declared fields.
    let plain: u64 = 1;
    let service = Server::new(config()).new_service();
    let mut h = service.call();
    let echo = h.on_protocol_id(Some(ProtocolId::AmqpSasl)).unwrap();
    assert_eq!(echo, ProtocolId::AmqpSasl);
    assert_eq!(h.phase, ConnPhase::SaslExchange);

    let mut neg = SaslNegotiator::new(vec![plain]);
    assert_eq!(neg.announcement(), SaslFrame::Mechanisms(vec![plain]));
    let (mech, response) = neg
        .on_init(Some(SaslFrame::Init { mechanism: plain, response: vec![0, 97, 0, 98] }))
        .unwrap();
    assert_eq!(mech, plain);
    assert_eq!(response, vec![0, 97, 0, 98]);
    let progress = neg.on_auth_result(AuthVerdict::Accepted);
    let auth = match progress {
        SaslProgress::Accepted(frame, auth) => {
            assert_eq!(frame, SaslFrame::Outcome(true));
            auth
        }
        other => panic!("unexpected progress: {:?}", other),
    };
    assert_eq!(auth.mechanism, plain);

    h.on_sasl_outcome(Ok(auth)).unwrap();
    assert_eq!(h.phase, ConnPhase::Confirming);
    let echo = h.on_confirmation(Some(ProtocolId::Amqp)).unwrap();
    assert_eq!(echo, ProtocolId::Amqp);
    let peer = Open { max_frame_size: 2048, channel_max: 3, idle_timeout_ms: 500 };
    let local = h
        .on_open_frame(Some(AmqpFrame { channel: 0, performative: Frame::Open(peer) }))
        .unwrap();
    assert_eq!(local.channel, 0);
    assert_eq!(h.connection.unwrap().remote, peer);
    assert_eq!(h.sasl_auth, Some(auth));
}

#[test]
fn sasl_failure_closes_handshake() {
    let service = Server::new(config()).new_service();
    let mut h = service.call();
    h.on_protocol_id(Some(ProtocolId::AmqpSasl)).unwrap();
    let r = h.on_sasl_outcome(Err(HandshakeError::Sasl(SaslError::Rejected)));
    assert_eq!(r, Err(HandshakeError::Sasl(SaslError::Rejected)));
    assert_eq!(h.phase, ConnPhase::Closed);
}

#[test]
fn factory_failure_is_service_error() {
    let service = Server::new(config()).new_service();
    let mut h = service.call();
    h.on_protocol_id(Some(ProtocolId::Amqp)).unwrap();
    let peer = Open { max_frame_size: 512, channel_max: 1, idle_timeout_ms: 0 };
    h.on_open_frame(Some(AmqpFrame { channel: 0, performative: Frame::Open(peer) }))
        .unwrap();
    assert_eq!(h.on_factory_result(false), Err(HandshakeError::Service));
    assert_eq!(h.phase, ConnPhase::Closed);
}

#[test]
fn disconnect_hook_runs_once_and_masks_nothing() {
    let mut h = ConnectionHandler::new(config(), true);
    h.on_protocol_id(Some(ProtocolId::Amqp)).unwrap();
    let peer = Open { max_frame_size: 512, channel_max: 1, idle_timeout_ms: 0 };
    h.on_open_frame(Some(AmqpFrame { channel: 0, performative: Frame::Open(peer) }))
        .unwrap();
    h.on_factory_result(true).unwrap();
    let cause = Err(amqp_control::error::AmqpProtocolError::UnexpectedFrame);
    let invoke = h.terminate(cause);
    assert!(invoke);
    assert_eq!(h.phase, ConnPhase::Closing);
    assert_eq!(h.hook_runs, 1);
    // The hook itself fails; the caller still observes the original cause.
    let observed = h.hook_done(Err(()));
    assert_eq!(observed, cause);
    assert_eq!(h.phase, ConnPhase::Closed);
    assert_eq!(h.hook_runs, 1);
}

#[test]
fn no_hook_registered_means_no_invocation() {
    let mut h = ConnectionHandler::new(config(), false);
    h.on_protocol_id(Some(ProtocolId::Amqp)).unwrap();
    let peer = Open { max_frame_size: 512, channel_max: 1, idle_timeout_ms: 0 };
    h.on_open_frame(Some(AmqpFrame { channel: 0, performative: Frame::Open(peer) }))
        .unwrap();
    h.on_factory_result(true).unwrap();
    let invoke = h.terminate(Ok(()));
    assert!(!invoke);
    assert_eq!(h.phase, ConnPhase::Closed);
    assert_eq!(h.hook_runs, 0);
}

#[test]
fn server_registers_disconnect_hook() {
    let server = Server::new(config());
    assert!(!server.disconnect_registered);
    let server = server.disconnect();
    assert!(server.disconnect_registered);
    let service = server.new_service();
    assert!(service.disconnect_registered);
    assert_eq!(service.config, config());
    let h = service.call();
    assert!(h.disconnect_registered);
}
