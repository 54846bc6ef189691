use amqp_control::error::{HandshakeError, SaslError};
use amqp_control::sasl::{AuthVerdict, SaslNegotiator, SaslProgress, SaslStage};
use amqp_control::types::SaslFrame;

#[test]
fn announcement_lists_offered_mechanisms() {
    let neg = SaslNegotiator::new(vec![1, 2, 3]);
    assert_eq!(neg.announcement(), SaslFrame::Mechanisms(vec![1, 2, 3]));
}

#[test]
fn unsupported_mechanism_fails_negotiation() {
    let mut neg = SaslNegotiator::new(vec![1]);
    let r = neg.on_init(Some(SaslFrame::Init { mechanism: 9, response: vec![] }));
    assert_eq!(r, Err(HandshakeError::Sasl(SaslError::UnsupportedMechanism(9))));
    assert_eq!(neg.stage, SaslStage::Failed);
}

#[test]
fn disconnect_mid_exchange_fails_as_disconnect() {
    let mut neg = SaslNegotiator::new(vec![1]);
    assert_eq!(neg.on_init(None), Err(HandshakeError::Disconnected));
    let mut neg2 = SaslNegotiator::new(vec![1]);
    neg2.on_init(Some(SaslFrame::Init { mechanism: 1, response: vec![] })).unwrap();
    neg2.on_auth_result(AuthVerdict::Challenge(vec![5]));
    assert_eq!(neg2.on_response(None), Err(HandshakeError::Disconnected));
}

#[test]
fn misplaced_frame_fails_exchange() {
    let mut neg = SaslNegotiator::new(vec![1]);
    let r = neg.on_init(Some(SaslFrame::Response(vec![1])));
    assert_eq!(r, Err(HandshakeError::Sasl(SaslError::UnexpectedFrame)));
}

#[test]
fn challenge_round_trip_then_acceptance() {
    let mut neg = SaslNegotiator::new(vec![4]);
    let (mech, first) = neg
        .on_init(Some(SaslFrame::Init { mechanism: 4, response: vec![10] }))
        .unwrap();
    assert_eq!((mech, first), (4, vec![10]));
    let progress = neg.on_auth_result(AuthVerdict::Challenge(vec![20]));
    assert_eq!(progress, SaslProgress::Challenged(SaslFrame::Challenge(vec![20])));
    assert_eq!(neg.stage, SaslStage::AwaitResponse);
    let (mech, second) = neg.on_response(Some(SaslFrame::Response(vec![30]))).unwrap();
    assert_eq!((mech, second), (4, vec![30]));
    let progress = neg.on_auth_result(AuthVerdict::Accepted);
    match progress {
        SaslProgress::Accepted(frame, auth) => {
            assert_eq!(frame, SaslFrame::Outcome(true));
            assert_eq!(auth.mechanism, 4);
        }
        other => panic!("unexpected progress: {:?}", other),
    }
    assert_eq!(neg.stage, SaslStage::Done);
}

#[test]
fn rejection_is_an_authentication_error() {
    let mut neg = SaslNegotiator::new(vec![1]);
    neg.on_init(Some(SaslFrame::Init { mechanism: 1, response: vec![] })).unwrap();
    let progress = neg.on_auth_result(AuthVerdict::Rejected);
    assert_eq!(
        progress,
        SaslProgress::Rejected(
            SaslFrame::Outcome(false),
            HandshakeError::Sasl(SaslError::Rejected)
        )
    );
    assert_eq!(neg.stage, SaslStage::Failed);
}
