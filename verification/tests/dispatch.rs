use amqp_control::control::{ControlFrame, ControlFrameKind, ReceiverLink, SenderLink};
use amqp_control::dispatcher::{DispatchAction, Dispatcher};
use amqp_control::error::AmqpProtocolError;
use amqp_control::types::{AmqpFrame, Attach, Detach, Flow, Frame, Open};

fn frame(channel: u16, performative: Frame) -> Option<AmqpFrame> {
    Some(AmqpFrame { channel, performative })
}

fn forwarded(a: DispatchAction) -> ControlFrame {
    match a {
        DispatchAction::Forward(cf) => cf,
        DispatchAction::Consumed => panic!("expected a forwarded control frame"),
    }
}

#[test]
fn begin_then_attach_receiver() {
    let mut d = Dispatcher::new();
    let a = d.handle_frame(frame(5, Frame::Begin));
    assert_eq!(a, DispatchAction::Consumed);
    let at = Attach { name: 7, handle: 9, peer_sender: true };
    let cf = forwarded(d.handle_frame(frame(5, Frame::Attach(at))));
    assert_eq!(
        *cf.frame(),
        ControlFrameKind::AttachReceiver(ReceiverLink { channel: 5, handle: 9 })
    );
    assert_eq!(cf.session(), 5);
    assert!(d.in_flight);
    d.service_done();
    assert!(!d.in_flight);
}

#[test]
fn sender_link_lifecycle_in_order() {
    let mut d = Dispatcher::new();
    assert_eq!(d.handle_frame(frame(0, Frame::Begin)), DispatchAction::Consumed);
    let at = Attach { name: 1, handle: 4, peer_sender: false };
    let cf1 = forwarded(d.handle_frame(frame(0, Frame::Attach(at))));
    assert_eq!(
        *cf1.frame(),
        ControlFrameKind::AttachSender(at, SenderLink { channel: 0, handle: 4 })
    );
    d.service_done();
    let fl = Flow { handle: 4, link_credit: 100 };
    let cf2 = forwarded(d.handle_frame(frame(0, Frame::Flow(fl))));
    assert_eq!(
        *cf2.frame(),
        ControlFrameKind::Flow(fl, SenderLink { channel: 0, handle: 4 })
    );
    d.service_done();
    let dt = Detach { handle: 4, closed: true };
    let cf3 = forwarded(d.handle_frame(frame(0, Frame::Detach(dt))));
    assert_eq!(
        *cf3.frame(),
        ControlFrameKind::DetachSender(dt, SenderLink { channel: 0, handle: 4 })
    );
    d.service_done();
    assert!(d.running);
}

#[test]
fn receiver_flow_is_internal_bookkeeping() {
    let mut d = Dispatcher::new();
    d.handle_frame(frame(2, Frame::Begin));
    let at = Attach { name: 3, handle: 1, peer_sender: true };
    forwarded(d.handle_frame(frame(2, Frame::Attach(at))));
    d.service_done();
    let fl = Flow { handle: 1, link_credit: 10 };
    assert_eq!(d.handle_frame(frame(2, Frame::Flow(fl))), DispatchAction::Consumed);
    let dt = Detach { handle: 1, closed: false };
    let cf = forwarded(d.handle_frame(frame(2, Frame::Detach(dt))));
    assert_eq!(
        *cf.frame(),
        ControlFrameKind::DetachReceiver(dt, ReceiverLink { channel: 2, handle: 1 })
    );
}

#[test]
fn attach_without_session_is_fatal() {
    let mut d = Dispatcher::new();
    let at = Attach { name: 0, handle: 0, peer_sender: true };
    let cf = forwarded(d.handle_frame(frame(3, Frame::Attach(at))));
    assert_eq!(
        *cf.frame(),
        ControlFrameKind::ProtocolError(AmqpProtocolError::UnknownSession(3))
    );
    assert!(!d.running);
    d.service_done();
    assert_eq!(d.result(), Err(AmqpProtocolError::UnknownSession(3)));
}

#[test]
fn flow_on_unattached_handle_is_fatal() {
    let mut d = Dispatcher::new();
    d.handle_frame(frame(0, Frame::Begin));
    let fl = Flow { handle: 8, link_credit: 1 };
    let cf = forwarded(d.handle_frame(frame(0, Frame::Flow(fl))));
    assert_eq!(
        *cf.frame(),
        ControlFrameKind::ProtocolError(AmqpProtocolError::UnattachedHandle(8))
    );
    d.service_done();
    assert_eq!(d.result(), Err(AmqpProtocolError::UnattachedHandle(8)));
}

#[test]
fn double_begin_is_fatal() {
    let mut d = Dispatcher::new();
    d.handle_frame(frame(1, Frame::Begin));
    let cf = forwarded(d.handle_frame(frame(1, Frame::Begin)));
    assert_eq!(
        *cf.frame(),
        ControlFrameKind::ProtocolError(AmqpProtocolError::UnexpectedFrame)
    );
}

#[test]
fn double_attach_same_handle_is_fatal() {
    let mut d = Dispatcher::new();
    d.handle_frame(frame(0, Frame::Begin));
    let at = Attach { name: 1, handle: 2, peer_sender: false };
    forwarded(d.handle_frame(frame(0, Frame::Attach(at))));
    d.service_done();
    let cf = forwarded(d.handle_frame(frame(0, Frame::Attach(at))));
    assert_eq!(
        *cf.frame(),
        ControlFrameKind::ProtocolError(AmqpProtocolError::HandleInUse(2))
    );
}

#[test]
fn detached_handle_can_reattach() {
    let mut d = Dispatcher::new();
    d.handle_frame(frame(0, Frame::Begin));
    let at = Attach { name: 1, handle: 2, peer_sender: false };
    forwarded(d.handle_frame(frame(0, Frame::Attach(at))));
    d.service_done();
    let dt = Detach { handle: 2, closed: false };
    forwarded(d.handle_frame(frame(0, Frame::Detach(dt))));
    d.service_done();
    let cf = forwarded(d.handle_frame(frame(0, Frame::Attach(at))));
    assert_eq!(
        *cf.frame(),
        ControlFrameKind::AttachSender(at, SenderLink { channel: 0, handle: 2 })
    );
}

#[test]
fn end_without_session_is_fatal() {
    let mut d = Dispatcher::new();
    let cf = forwarded(d.handle_frame(frame(9, Frame::End)));
    assert_eq!(
        *cf.frame(),
        ControlFrameKind::ProtocolError(AmqpProtocolError::UnknownSession(9))
    );
}

#[test]
fn end_tears_down_session() {
    let mut d = Dispatcher::new();
    d.handle_frame(frame(0, Frame::Begin));
    assert_eq!(d.handle_frame(frame(0, Frame::End)), DispatchAction::Consumed);
    // The channel is free again after End.
    assert_eq!(d.handle_frame(frame(0, Frame::Begin)), DispatchAction::Consumed);
}

#[test]
fn second_open_is_fatal() {
    let mut d = Dispatcher::new();
    let open = Open { max_frame_size: 1, channel_max: 1, idle_timeout_ms: 1 };
    let cf = forwarded(d.handle_frame(frame(0, Frame::Open(open))));
    assert_eq!(
        *cf.frame(),
        ControlFrameKind::ProtocolError(AmqpProtocolError::UnexpectedFrame)
    );
    d.service_done();
    assert_eq!(d.result(), Err(AmqpProtocolError::UnexpectedFrame));
}

#[test]
fn close_ends_gracefully() {
    let mut d = Dispatcher::new();
    let cf = forwarded(d.handle_frame(frame(0, Frame::Close)));
    assert_eq!(*cf.frame(), ControlFrameKind::Closed(true));
    assert!(!d.running);
    d.service_done();
    assert_eq!(d.result(), Ok(()));
}

#[test]
fn transport_closure_is_abrupt() {
    let mut d = Dispatcher::new();
    let cf = forwarded(d.handle_frame(None));
    assert_eq!(*cf.frame(), ControlFrameKind::Closed(false));
    d.service_done();
    assert_eq!(d.result(), Err(AmqpProtocolError::Disconnected));
}

#[test]
fn events_for_one_link_keep_their_order() {
    // Three wire events for the same link; the forwarded control frames
    // appear in exactly that order.
    let mut d = Dispatcher::new();
    d.handle_frame(frame(0, Frame::Begin));
    let at = Attach { name: 1, handle: 6, peer_sender: false };
    let mut observed: Vec<ControlFrameKind> = Vec::new();
    observed.push(*forwarded(d.handle_frame(frame(0, Frame::Attach(at)))).frame());
    d.service_done();
    let fl = Flow { handle: 6, link_credit: 42 };
    observed.push(*forwarded(d.handle_frame(frame(0, Frame::Flow(fl)))).frame());
    d.service_done();
    let dt = Detach { handle: 6, closed: true };
    observed.push(*forwarded(d.handle_frame(frame(0, Frame::Detach(dt)))).frame());
    d.service_done();
    let link = SenderLink { channel: 0, handle: 6 };
    assert_eq!(
        observed,
        vec![
            ControlFrameKind::AttachSender(at, link),
            ControlFrameKind::Flow(fl, link),
            ControlFrameKind::DetachSender(dt, link),
        ]
    );
}

#[test]
fn backpressure_flag_tracks_outstanding_invocation() {
    let mut d = Dispatcher::new();
    d.handle_frame(frame(0, Frame::Begin));
    assert!(!d.in_flight);
    let at = Attach { name: 1, handle: 0, peer_sender: true };
    forwarded(d.handle_frame(frame(0, Frame::Attach(at))));
    assert!(d.in_flight, "a forwarded frame leaves an invocation outstanding");
    d.service_done();
    assert!(!d.in_flight, "completion clears the outstanding invocation");
}

#[test]
fn link_scoped_frames_carry_session_reference() {
    let link = SenderLink { channel: 3, handle: 1 };
    let fl = Flow { handle: 1, link_credit: 5 };
    let f = ControlFrame::new(3, ControlFrameKind::Flow(fl, link));
    assert_eq!(f.session(), 3);
    let closed = ControlFrame::new_kind(ControlFrameKind::Closed(true));
    assert_eq!(*closed.frame(), ControlFrameKind::Closed(true));
    let pe = ControlFrame::new_kind(ControlFrameKind::ProtocolError(
        AmqpProtocolError::UnexpectedFrame,
    ));
    assert_eq!(
        *pe.frame(),
        ControlFrameKind::ProtocolError(AmqpProtocolError::UnexpectedFrame)
    );
}
