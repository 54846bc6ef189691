//! Control frames: the envelope in which one session- or link-lifecycle
//! event travels from the dispatcher to the application-level link service.
//!
//! A link handle is a weak back-reference into its session: it carries the
//! session's channel number and the link's handle number, never ownership,
//! so a link handle may outlive nothing and identify its link independently
//! of the session object's lifetime. A session reference inside a control
//! frame is likewise the session's channel number.

use vstd::prelude::*;
use crate::error::AmqpProtocolError;
use crate::types::{Attach, Detach, Flow};

verus! {

/// Identifies one attached link this side sends on: the owning session's
/// channel and the link's handle number.
#[derive(Clone, Copy, Debug, PartialEq, Eq, Structural)]
pub struct SenderLink {
    pub channel: u16,
    pub handle: u32,
}

/// Identifies one attached link this side receives from.
#[derive(Clone, Copy, Debug, PartialEq, Eq, Structural)]
pub struct ReceiverLink {
    pub channel: u16,
    pub handle: u32,
}

/// The closed set of lifecycle events. Every consumer matches on it
/// exhaustively, so a new kind of event must be added here and nowhere else.
#[derive(Clone, Copy, Debug, PartialEq, Eq, Structural)]
pub enum ControlFrameKind {
    /// Peer attached a link this side receives from.
    AttachReceiver(ReceiverLink),
    /// Peer requested a sending link; the parameters are retained for the
    /// application to accept or reject.
    AttachSender(Attach, SenderLink),
    /// Credit update for an existing sender.
    Flow(Flow, SenderLink),
    /// Sender link teardown requested or confirmed.
    DetachSender(Detach, SenderLink),
    /// Receiver link teardown requested or confirmed.
    DetachReceiver(Detach, ReceiverLink),
    /// Connection-fatal protocol violation.
    ProtocolError(AmqpProtocolError),
    /// The connection has terminated; `true` means gracefully.
    Closed(bool),
}

impl ControlFrameKind {
    /// Whether the event is scoped to a link and therefore to a session.
    pub open spec fn is_link_scoped(self) -> bool {
        match self {
            ControlFrameKind::AttachReceiver(_) => true,
            ControlFrameKind::AttachSender(_, _) => true,
            ControlFrameKind::Flow(_, _) => true,
            ControlFrameKind::DetachSender(_, _) => true,
            ControlFrameKind::DetachReceiver(_, _) => true,
            ControlFrameKind::ProtocolError(_) => false,
            ControlFrameKind::Closed(_) => false,
        }
    }

    /// The link an event concerns, as the session's channel and the
    /// link's handle; connection-scoped events concern none.
    pub open spec fn link_of(self) -> Option<(u16, u32)> {
        match self {
            ControlFrameKind::AttachReceiver(r) => Some((r.channel, r.handle)),
            ControlFrameKind::AttachSender(_, s) => Some((s.channel, s.handle)),
            ControlFrameKind::Flow(_, s) => Some((s.channel, s.handle)),
            ControlFrameKind::DetachSender(_, s) => Some((s.channel, s.handle)),
            ControlFrameKind::DetachReceiver(_, r) => Some((r.channel, r.handle)),
            ControlFrameKind::ProtocolError(_) => None,
            ControlFrameKind::Closed(_) => None,
        }
    }
}

/// An immutable envelope around one lifecycle event, together with a
/// reference (the channel number) to the session that produced it. The
/// reference is absent only for connection-scoped events, which may precede
/// or outlive any session.
#[derive(Clone, Copy, Debug, PartialEq, Eq, Structural)]
pub struct ControlFrame {
    kind: ControlFrameKind,
    session: Option<u16>,
}

impl ControlFrame {
    pub closed spec fn kind_spec(self) -> ControlFrameKind {
        self.kind
    }

    pub closed spec fn session_spec(self) -> Option<u16> {
        self.session
    }

    /// A link-scoped control frame always carries a session reference. This
    /// holds by construction: both constructors establish it and the frame
    /// is never mutated.
    pub closed spec fn wf(self) -> bool {
        self.kind.is_link_scoped() ==> self.session is Some
    }

    /// Envelope a session-scoped event.
    pub fn new(session: u16, kind: ControlFrameKind) -> (f: ControlFrame)
        ensures
            f.kind_spec() == kind,
            f.session_spec() == Some(session),
            f.wf(),
    {
        ControlFrame { kind, session: Some(session) }
    }

    /// Envelope a connection-scoped event, one that no session produced.
    /// Requiring a kind that is not link-scoped is what makes `wf` hold by
    /// construction rather than by runtime check.
    pub fn new_kind(kind: ControlFrameKind) -> (f: ControlFrame)
        requires
            !kind.is_link_scoped(),
        ensures
            f.kind_spec() == kind,
            f.session_spec() == None::<u16>,
            f.wf(),
    {
        ControlFrame { kind, session: None }
    }

    /// The channel of the session that produced the event. Asking this of a
    /// session-less frame is a programming error, ruled out here by the
    /// precondition instead of a runtime `unwrap`.
    pub fn session(&self) -> (c: u16)
        requires
            self.session_spec() is Some,
        ensures
            Some(c) == self.session_spec(),
    {
        match self.session {
            Some(c) => c,
            None => {
                proof {
                    assert(false);
                }
                0
            }
        }
    }

    /// The lifecycle event this frame carries.
    pub fn frame(&self) -> (k: &ControlFrameKind)
        ensures
            *k == self.kind_spec(),
    {
        &self.kind
    }
}

/// Every control frame of a link-scoped kind carries a present session
/// reference; `ProtocolError` and `Closed` frames may or may not. The
/// constructors are the only way to build a frame, so well-formedness is a
/// property of every frame in the system.
pub proof fn lemma_link_scoped_frames_carry_session(f: ControlFrame)
    requires
        f.wf(),
        f.kind_spec().is_link_scoped(),
    ensures
        f.session_spec() is Some,
{
}

} // verus!
