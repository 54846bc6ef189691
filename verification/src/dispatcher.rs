//! The frame dispatch loop's decision core. The surrounding shell reads one
//! wire frame at a time and performs the returned action; this machine owns
//! the session arena, classifies every frame, emits the control frames the
//! link service observes, and stops the loop on `Close`, protocol error or
//! transport closure.
//!
//! Two ghost histories accompany the state: `log`, the control frames
//! forwarded to the link service paired with the index of the wire event
//! that triggered each, and `trace`, the alternation of forwardings and
//! service completions. The first carries the ordering guarantee, the
//! second the backpressure guarantee.

use vstd::prelude::*;
use crate::control::{ControlFrame, ControlFrameKind, ReceiverLink, SenderLink};
use crate::error::AmqpProtocolError;
use crate::session::{
    attach_entry, credited, detached, has_attached, has_handle, LinkEntry, SessionInner,
};
use crate::types::{AmqpFrame, Attach, Detach, Flow, Frame};

verus! {

/// What the shell must do with one processed wire event.
#[derive(Clone, Copy, Debug, PartialEq, Eq, Structural)]
pub enum DispatchAction {
    /// The event was handled inside the dispatcher; read the next frame.
    Consumed,
    /// Forward this control frame to the link service and await its answer
    /// before reading further frames.
    Forward(ControlFrame),
}

/// One step of the link service's view of a connection: a control frame
/// was forwarded to it, one of its invocations completed, or the
/// dispatcher worked internally.
#[derive(Clone, Copy, Debug, PartialEq, Eq, Structural)]
pub enum ServiceStep {
    Forwarded,
    Completed,
    Internal,
}

/// Which steps the dispatcher may take while an invocation is (not)
/// outstanding: a forwarding requires the service to be idle, a completion
/// requires one to be outstanding.
pub open spec fn step_allowed(in_flight: bool, s: ServiceStep) -> bool {
    match s {
        ServiceStep::Forwarded => !in_flight,
        ServiceStep::Completed => in_flight,
        ServiceStep::Internal => true,
    }
}

/// Whether an invocation is outstanding after taking one step.
pub open spec fn after_step(in_flight: bool, s: ServiceStep) -> bool {
    match s {
        ServiceStep::Forwarded => true,
        ServiceStep::Completed => false,
        ServiceStep::Internal => in_flight,
    }
}

/// Whether an invocation is outstanding just before step `k` of a trace
/// that starts idle.
pub open spec fn in_flight_at(t: Seq<ServiceStep>, k: int) -> bool
    decreases k,
{
    if k <= 0 {
        false
    } else {
        after_step(in_flight_at(t, k - 1), t[k - 1])
    }
}

/// A trace every step of which was allowed when it was taken.
pub open spec fn valid_service_trace(t: Seq<ServiceStep>) -> bool {
    forall|k: int| 0 <= k < t.len() ==> step_allowed(in_flight_at(t, k), #[trigger] t[k])
}

proof fn lemma_in_flight_at_push(t: Seq<ServiceStep>, s: ServiceStep, k: int)
    requires
        0 <= k <= t.len(),
    ensures
        in_flight_at(t.push(s), k) == in_flight_at(t, k),
    decreases k,
{
    if k > 0 {
        lemma_in_flight_at_push(t, s, k - 1);
        assert(t.push(s)[k - 1] == t[k - 1]);
    }
}

proof fn lemma_valid_trace_push(t: Seq<ServiceStep>, s: ServiceStep)
    requires
        valid_service_trace(t),
        step_allowed(in_flight_at(t, t.len() as int), s),
    ensures
        valid_service_trace(t.push(s)),
        in_flight_at(t.push(s), t.len() as int + 1) == after_step(in_flight_at(t, t.len() as int), s),
{
    let t2 = t.push(s);
    assert forall|k: int| 0 <= k < t2.len() implies step_allowed(
        in_flight_at(t2, k),
        #[trigger] t2[k],
    ) by {
        lemma_in_flight_at_push(t, s, k);
        if k < t.len() {
            assert(t2[k] == t[k]);
        } else {
            assert(t2[k] == s);
        }
    }
    lemma_in_flight_at_push(t, s, t.len() as int);
}

proof fn lemma_in_flight_persists(t: Seq<ServiceStep>, i: int, j: int)
    requires
        0 <= i <= j <= t.len(),
        in_flight_at(t, i),
        forall|k: int| i <= k < j ==> !((#[trigger] t[k]) is Completed),
    ensures
        in_flight_at(t, j),
    decreases j - i,
{
    if j > i {
        lemma_in_flight_persists(t, i, j - 1);
    }
}

/// No second control frame is forwarded to the link service while a prior
/// invocation is still outstanding: between any two forwardings of a valid
/// trace lies a completion.
pub proof fn lemma_backpressure(t: Seq<ServiceStep>, i: int, j: int)
    requires
        valid_service_trace(t),
        0 <= i < j < t.len(),
        t[i] is Forwarded,
        t[j] is Forwarded,
    ensures
        exists|k: int| i < k < j && (#[trigger] t[k]) is Completed,
{
    if !(exists|k: int| i < k < j && (#[trigger] t[k]) is Completed) {
        assert(step_allowed(in_flight_at(t, i), t[i]));
        assert(in_flight_at(t, i + 1));
        assert(forall|k: int| i + 1 <= k < j ==> !((#[trigger] t[k]) is Completed));
        lemma_in_flight_persists(t, i + 1, j);
        assert(step_allowed(in_flight_at(t, j), t[j]));
        assert(false);
    }
}

/// The forwarded control frames carry strictly increasing wire-event
/// indices, each below the number of events seen.
pub open spec fn log_ordered(log: Seq<(nat, ControlFrame)>, n: nat) -> bool {
    &&& forall|i: int, j: int|
        0 <= i < j < log.len() ==> (#[trigger] log[i]).0 < (#[trigger] log[j]).0
    &&& forall|i: int| 0 <= i < log.len() ==> (#[trigger] log[i]).0 < n
}

/// The dispatcher of one live connection: the session arena indexed by
/// channel number, whether a link-service invocation is outstanding,
/// whether the loop still runs, and its result once it stopped.
pub struct Dispatcher {
    pub sessions: Vec<Option<SessionInner>>,
    pub in_flight: bool,
    pub running: bool,
    pub last_result: Option<Result<(), AmqpProtocolError>>,
    /// Number of wire events processed so far.
    pub events: Ghost<nat>,
    /// The control frames forwarded to the link service, in order, each
    /// paired with the index of the wire event that triggered it.
    pub log: Ghost<Seq<(nat, ControlFrame)>>,
    /// The service's view of this connection so far.
    pub trace: Ghost<Seq<ServiceStep>>,
}

impl Dispatcher {
    /// The session on a channel, if one is open.
    pub open spec fn session_at(self, c: u16) -> Option<SessionInner> {
        if (c as int) < self.sessions@.len() {
            self.sessions@[c as int]
        } else {
            None
        }
    }

    /// The link slots of the session on a channel, if one is open.
    pub open spec fn links_at(self, c: u16) -> Option<Seq<LinkEntry>> {
        match self.session_at(c) {
            Some(s) => Some(s.links_spec()),
            None => None,
        }
    }

    pub open spec fn sessions_unchanged(self, d0: Dispatcher) -> bool {
        forall|c: u16| #[trigger] self.links_at(c) == d0.links_at(c)
    }

    pub open spec fn sessions_unchanged_except(self, d0: Dispatcher, c: u16) -> bool {
        forall|c2: u16| c2 != c ==> #[trigger] self.links_at(c2) == d0.links_at(c2)
    }

    pub open spec fn wf(self) -> bool {
        &&& self.sessions@.len() <= 0x10000
        &&& forall|c: int|
            0 <= c < self.sessions@.len() ==> ((#[trigger] self.sessions@[c]) matches Some(s)
                ==> s.wf() && s.channel_spec() as int == c)
        &&& log_ordered(self.log@, self.events@)
        &&& forall|k: int| 0 <= k < self.log@.len() ==> (#[trigger] self.log@[k]).1.wf()
        &&& valid_service_trace(self.trace@)
        &&& self.in_flight == in_flight_at(self.trace@, self.trace@.len() as int)
        &&& (self.running ==> self.last_result is None)
        &&& (!self.running ==> self.last_result is Some)
    }

    /// A dispatcher for a freshly opened connection: no sessions, loop
    /// running, service idle.
    pub fn new() -> (d: Dispatcher)
        ensures
            d.wf(),
            d.running,
            !d.in_flight,
            d.sessions@.len() == 0,
            d.events@ == 0,
            d.log@.len() == 0,
            d.trace@.len() == 0,
    {
        Dispatcher {
            sessions: Vec::new(),
            in_flight: false,
            running: true,
            last_result: None,
            events: Ghost(0),
            log: Ghost(Seq::empty()),
            trace: Ghost(Seq::empty()),
        }
    }

    /// The outstanding link-service invocation completed; reading may
    /// resume.
    pub fn service_done(&mut self)
        requires
            old(self).wf(),
            old(self).in_flight,
        ensures
            final(self).wf(),
            !final(self).in_flight,
            final(self).trace@ == old(self).trace@.push(ServiceStep::Completed),
            final(self).sessions@ == old(self).sessions@,
            final(self).log@ == old(self).log@,
            final(self).events@ == old(self).events@,
            final(self).running == old(self).running,
            final(self).last_result == old(self).last_result,
    {
        proof {
            lemma_valid_trace_push(self.trace@, ServiceStep::Completed);
        }
        self.trace = Ghost(self.trace@.push(ServiceStep::Completed));
        self.in_flight = false;
    }

    /// The loop's result once it stopped: `Ok` for a graceful close, the
    /// protocol error otherwise.
    pub fn result(&self) -> (r: Result<(), AmqpProtocolError>)
        requires
            self.wf(),
            !self.running,
        ensures
            Some(r) == self.last_result,
    {
        match self.last_result {
            Some(r) => r,
            None => {
                proof {
                    assert(false);
                }
                Ok(())
            },
        }
    }

    /// Whether a session is open on this channel.
    fn session_present(&self, c: u16) -> (b: bool)
        ensures
            b == (self.session_at(c) is Some),
    {
        let ci = c as usize;
        if ci < self.sessions.len() {
            match &self.sessions[ci] {
                Some(_) => true,
                None => false,
            }
        } else {
            false
        }
    }

    /// An event handled without involving the link service.
    fn consume(&mut self) -> (a: DispatchAction)
        requires
            valid_service_trace(old(self).trace@),
            old(self).in_flight == in_flight_at(old(self).trace@, old(self).trace@.len() as int),
            !old(self).in_flight,
        ensures
            a == DispatchAction::Consumed,
            valid_service_trace(final(self).trace@),
            final(self).in_flight == in_flight_at(
                final(self).trace@,
                final(self).trace@.len() as int,
            ),
            !final(self).in_flight,
            final(self).trace@ == old(self).trace@.push(ServiceStep::Internal),
            final(self).events@ == old(self).events@ + 1,
            final(self).sessions@ == old(self).sessions@,
            final(self).log@ == old(self).log@,
            final(self).running == old(self).running,
            final(self).last_result == old(self).last_result,
    {
        proof {
            lemma_valid_trace_push(self.trace@, ServiceStep::Internal);
        }
        self.trace = Ghost(self.trace@.push(ServiceStep::Internal));
        self.events = Ghost(self.events@ + 1);
        DispatchAction::Consumed
    }

    /// Forward a connection-scoped control frame and stop the loop with
    /// this result.
    fn finish_connection(&mut self, kind: ControlFrameKind, result: Result<
        (),
        AmqpProtocolError,
    >) -> (a: DispatchAction)
        requires
            old(self).wf(),
            old(self).running,
            !old(self).in_flight,
            !kind.is_link_scoped(),
        ensures
            final(self).wf(),
            connection_end_step(*old(self), *final(self), a, kind, result),
            (a matches DispatchAction::Forward(cf) && cf.wf()),
            final(self).trace@ == old(self).trace@.push(ServiceStep::Forwarded),
            final(self).events@ == old(self).events@ + 1,
    {
        let cf = ControlFrame::new_kind(kind);
        proof {
            lemma_valid_trace_push(self.trace@, ServiceStep::Forwarded);
        }
        self.trace = Ghost(self.trace@.push(ServiceStep::Forwarded));
        self.in_flight = true;
        self.running = false;
        self.last_result = Some(result);
        self.log = Ghost(self.log@.push((self.events@, cf)));
        self.events = Ghost(self.events@ + 1);
        DispatchAction::Forward(cf)
    }

    /// Forward a link-scoped control frame; the loop keeps running.
    fn emit_link_event(&mut self, channel: u16, kind: ControlFrameKind) -> (a: DispatchAction)
        requires
            old(self).wf(),
            old(self).running,
            !old(self).in_flight,
            kind.is_link_scoped(),
        ensures
            final(self).wf(),
            (a matches DispatchAction::Forward(cf) && cf.kind_spec() == kind && cf.session_spec()
                == Some(channel) && cf.wf() && final(self).log@ == old(self).log@.push(
                (old(self).events@, cf),
            )),
            final(self).in_flight,
            final(self).running,
            final(self).last_result is None,
            final(self).sessions@ == old(self).sessions@,
            final(self).trace@ == old(self).trace@.push(ServiceStep::Forwarded),
            final(self).events@ == old(self).events@ + 1,
    {
        let cf = ControlFrame::new(channel, kind);
        proof {
            lemma_valid_trace_push(self.trace@, ServiceStep::Forwarded);
        }
        self.trace = Ghost(self.trace@.push(ServiceStep::Forwarded));
        self.in_flight = true;
        self.log = Ghost(self.log@.push((self.events@, cf)));
        self.events = Ghost(self.events@ + 1);
        DispatchAction::Forward(cf)
    }

    fn on_begin(&mut self, c: u16) -> (a: DispatchAction)
        requires
            old(self).wf(),
            old(self).running,
            !old(self).in_flight,
        ensures
            final(self).wf(),
            begin_step(*old(self), *final(self), a, c),
            final(self).trace@ == old(self).trace@.push(
                if a is Consumed {
                    ServiceStep::Internal
                } else {
                    ServiceStep::Forwarded
                },
            ),
            final(self).events@ == old(self).events@ + 1,
    {
        if self.session_present(c) {
            self.finish_connection(
                ControlFrameKind::ProtocolError(AmqpProtocolError::UnexpectedFrame),
                Err(AmqpProtocolError::UnexpectedFrame),
            )
        } else {
            let ghost d0 = *self;
            let ci = c as usize;
            while self.sessions.len() <= ci
                invariant
                    ci == c as usize,
                    d0.sessions@.len() <= self.sessions@.len(),
                    self.sessions@.len() == d0.sessions@.len() || self.sessions@.len() <= ci + 1,
                    forall|k: int|
                        0 <= k < d0.sessions@.len() ==> self.sessions@[k] == d0.sessions@[k],
                    forall|k: int|
                        d0.sessions@.len() <= k < self.sessions@.len() ==> (
                        #[trigger] self.sessions@[k]) is None,
                    self.in_flight == d0.in_flight,
                    self.running == d0.running,
                    self.last_result == d0.last_result,
                    self.log@ == d0.log@,
                    self.trace@ == d0.trace@,
                    self.events@ == d0.events@,
                decreases ci + 1 - self.sessions@.len(),
            {
                self.sessions.push(None);
            }
            let s = SessionInner::new(c);
            self.sessions[ci] = Some(s);
            proof {
                assert(s.links_spec() =~= Seq::<LinkEntry>::empty());
                assert(self.links_at(c) == Some(Seq::<LinkEntry>::empty()));
                assert(self.sessions@.len() <= 0x10000);
                assert forall|k: int|
                    0 <= k < self.sessions@.len() implies ((#[trigger] self.sessions@[k]) matches
                Some(ss) ==> ss.wf() && ss.channel_spec() as int == k) by {
                    if k != ci as int {
                        if k < d0.sessions@.len() {
                            assert(self.sessions@[k] == d0.sessions@[k]);
                        } else {
                            assert(self.sessions@[k] is None);
                        }
                    }
                }
                assert forall|c2: u16| c2 != c implies self.links_at(c2) == d0.links_at(c2) by {
                    if (c2 as int) < d0.sessions@.len() {
                        assert(self.sessions@[c2 as int] == d0.sessions@[c2 as int]);
                    }
                }
            }
            self.consume()
        }
    }

    fn on_end(&mut self, c: u16) -> (a: DispatchAction)
        requires
            old(self).wf(),
            old(self).running,
            !old(self).in_flight,
        ensures
            final(self).wf(),
            end_step(*old(self), *final(self), a, c),
            final(self).trace@ == old(self).trace@.push(
                if a is Consumed {
                    ServiceStep::Internal
                } else {
                    ServiceStep::Forwarded
                },
            ),
            final(self).events@ == old(self).events@ + 1,
    {
        if !self.session_present(c) {
            self.finish_connection(
                ControlFrameKind::ProtocolError(AmqpProtocolError::UnknownSession(c)),
                Err(AmqpProtocolError::UnknownSession(c)),
            )
        } else {
            let ghost d0 = *self;
            let ci = c as usize;
            self.sessions[ci] = None;
            proof {
                assert forall|c2: u16| c2 != c implies self.links_at(c2) == d0.links_at(c2) by {}
            }
            self.consume()
        }
    }

    fn on_attach(&mut self, c: u16, at: Attach) -> (a: DispatchAction)
        requires
            old(self).wf(),
            old(self).running,
            !old(self).in_flight,
        ensures
            final(self).wf(),
            attach_step(*old(self), *final(self), a, c, at),
            final(self).trace@ == old(self).trace@.push(
                if a is Consumed {
                    ServiceStep::Internal
                } else {
                    ServiceStep::Forwarded
                },
            ),
            final(self).events@ == old(self).events@ + 1,
    {
        if !self.session_present(c) {
            return self.finish_connection(
                ControlFrameKind::ProtocolError(AmqpProtocolError::UnknownSession(c)),
                Err(AmqpProtocolError::UnknownSession(c)),
            );
        }
        let ghost d0 = *self;
        let ghost l0 = self.session_at(c).unwrap().links_spec();
        let ci = c as usize;
        let info = match &self.sessions[ci] {
            Some(s) => s.link_info(at.handle),
            None => None,
        };
        match info {
            Some(e) => {
                proof {
                    crate::session::lemma_slot_decides(l0, e, at.handle);
                }
                if e.attached {
                    return self.finish_connection(
                        ControlFrameKind::ProtocolError(AmqpProtocolError::HandleInUse(at.handle)),
                        Err(AmqpProtocolError::HandleInUse(at.handle)),
                    );
                }
            },
            None => {
                proof {
                    if has_attached(l0, at.handle) {
                        let j = choose|j: int|
                            0 <= j < l0.len() && l0[j].handle == at.handle && l0[j].attached;
                        assert(has_handle(l0, at.handle));
                        assert(false);
                    }
                }
            },
        }
        match &mut self.sessions[ci] {
            Some(s) => {
                let r = s.attach(at);
                proof {
                    assert(r is Ok);
                }
            },
            None => {
                proof {
                    assert(false);
                }
            },
        }
        proof {
            assert forall|c2: u16| c2 != c implies self.links_at(c2) == d0.links_at(c2) by {
                assert(self.sessions@[c2 as int] == d0.sessions@.update(
                    ci as int,
                    self.sessions@[ci as int],
                )[c2 as int]) by {}
            }
        }
        let kind = if at.peer_sender {
            ControlFrameKind::AttachReceiver(ReceiverLink { channel: c, handle: at.handle })
        } else {
            ControlFrameKind::AttachSender(at, SenderLink { channel: c, handle: at.handle })
        };
        self.emit_link_event(c, kind)
    }

    fn on_flow(&mut self, c: u16, fl: Flow) -> (a: DispatchAction)
        requires
            old(self).wf(),
            old(self).running,
            !old(self).in_flight,
        ensures
            final(self).wf(),
            flow_step(*old(self), *final(self), a, c, fl),
            final(self).trace@ == old(self).trace@.push(
                if a is Consumed {
                    ServiceStep::Internal
                } else {
                    ServiceStep::Forwarded
                },
            ),
            final(self).events@ == old(self).events@ + 1,
    {
        if !self.session_present(c) {
            return self.finish_connection(
                ControlFrameKind::ProtocolError(AmqpProtocolError::UnknownSession(c)),
                Err(AmqpProtocolError::UnknownSession(c)),
            );
        }
        let ghost d0 = *self;
        let ghost l0 = self.session_at(c).unwrap().links_spec();
        let ci = c as usize;
        let info = match &self.sessions[ci] {
            Some(s) => s.link_info(fl.handle),
            None => None,
        };
        let e = match info {
            Some(e) => {
                proof {
                    crate::session::lemma_slot_decides(l0, e, fl.handle);
                }
                if !e.attached {
                    return self.finish_connection(
                        ControlFrameKind::ProtocolError(
                            AmqpProtocolError::UnattachedHandle(fl.handle),
                        ),
                        Err(AmqpProtocolError::UnattachedHandle(fl.handle)),
                    );
                }
                e
            },
            None => {
                proof {
                    if has_attached(l0, fl.handle) {
                        let j = choose|j: int|
                            0 <= j < l0.len() && l0[j].handle == fl.handle && l0[j].attached;
                        assert(has_handle(l0, fl.handle));
                        assert(false);
                    }
                }
                return self.finish_connection(
                    ControlFrameKind::ProtocolError(
                        AmqpProtocolError::UnattachedHandle(fl.handle),
                    ),
                    Err(AmqpProtocolError::UnattachedHandle(fl.handle)),
                );
            },
        };
        if e.receiver {
            return self.consume();
        }
        match &mut self.sessions[ci] {
            Some(s) => {
                s.update_credit(fl.handle, fl.link_credit);
            },
            None => {
                proof {
                    assert(false);
                }
            },
        }
        proof {
            assert forall|c2: u16| c2 != c implies self.links_at(c2) == d0.links_at(c2) by {}
        }
        self.emit_link_event(
            c,
            ControlFrameKind::Flow(fl, SenderLink { channel: c, handle: fl.handle }),
        )
    }

    fn on_detach(&mut self, c: u16, dt: Detach) -> (a: DispatchAction)
        requires
            old(self).wf(),
            old(self).running,
            !old(self).in_flight,
        ensures
            final(self).wf(),
            detach_step(*old(self), *final(self), a, c, dt),
            final(self).trace@ == old(self).trace@.push(
                if a is Consumed {
                    ServiceStep::Internal
                } else {
                    ServiceStep::Forwarded
                },
            ),
            final(self).events@ == old(self).events@ + 1,
    {
        if !self.session_present(c) {
            return self.finish_connection(
                ControlFrameKind::ProtocolError(AmqpProtocolError::UnknownSession(c)),
                Err(AmqpProtocolError::UnknownSession(c)),
            );
        }
        let ghost d0 = *self;
        let ghost l0 = self.session_at(c).unwrap().links_spec();
        let ci = c as usize;
        let info = match &self.sessions[ci] {
            Some(s) => s.link_info(dt.handle),
            None => None,
        };
        let e = match info {
            Some(e) => {
                proof {
                    crate::session::lemma_slot_decides(l0, e, dt.handle);
                }
                if !e.attached {
                    return self.finish_connection(
                        ControlFrameKind::ProtocolError(
                            AmqpProtocolError::UnattachedHandle(dt.handle),
                        ),
                        Err(AmqpProtocolError::UnattachedHandle(dt.handle)),
                    );
                }
                e
            },
            None => {
                proof {
                    if has_attached(l0, dt.handle) {
                        let j = choose|j: int|
                            0 <= j < l0.len() && l0[j].handle == dt.handle && l0[j].attached;
                        assert(has_handle(l0, dt.handle));
                        assert(false);
                    }
                }
                return self.finish_connection(
                    ControlFrameKind::ProtocolError(
                        AmqpProtocolError::UnattachedHandle(dt.handle),
                    ),
                    Err(AmqpProtocolError::UnattachedHandle(dt.handle)),
                );
            },
        };
        match &mut self.sessions[ci] {
            Some(s) => {
                s.detach(dt.handle);
            },
            None => {
                proof {
                    assert(false);
                }
            },
        }
        proof {
            assert forall|c2: u16| c2 != c implies self.links_at(c2) == d0.links_at(c2) by {}
        }
        let kind = if e.receiver {
            ControlFrameKind::DetachReceiver(dt, ReceiverLink { channel: c, handle: dt.handle })
        } else {
            ControlFrameKind::DetachSender(dt, SenderLink { channel: c, handle: dt.handle })
        };
        self.emit_link_event(c, kind)
    }

    /// Process one wire event: the next decoded frame, or `None` when the
    /// transport closed. Frames are handled strictly in arrival order, one
    /// at a time, and only while no link-service invocation is
    /// outstanding — the shell must not read further frames until
    /// `service_done` acknowledges a forwarded one.
    pub fn handle_frame(&mut self, frame: Option<AmqpFrame>) -> (a: DispatchAction)
        requires
            old(self).wf(),
            old(self).running,
            !old(self).in_flight,
        ensures
            final(self).wf(),
            dispatch_step(*old(self), *final(self), frame, a),
            final(self).events@ == old(self).events@ + 1,
            final(self).trace@ == old(self).trace@.push(
                if a is Consumed {
                    ServiceStep::Internal
                } else {
                    ServiceStep::Forwarded
                },
            ),
            a matches DispatchAction::Forward(cf) ==> cf.wf() && final(self).in_flight,
            a is Consumed ==> !final(self).in_flight,
    {
        match frame {
            None => self.finish_connection(
                ControlFrameKind::Closed(false),
                Err(AmqpProtocolError::Disconnected),
            ),
            Some(f) => match f.performative {
                Frame::Open(_) => self.finish_connection(
                    ControlFrameKind::ProtocolError(AmqpProtocolError::UnexpectedFrame),
                    Err(AmqpProtocolError::UnexpectedFrame),
                ),
                Frame::Begin => self.on_begin(f.channel),
                Frame::End => self.on_end(f.channel),
                Frame::Attach(at) => self.on_attach(f.channel, at),
                Frame::Flow(fl) => self.on_flow(f.channel, fl),
                Frame::Detach(dt) => self.on_detach(f.channel, dt),
                Frame::Close => self.finish_connection(
                    ControlFrameKind::Closed(true),
                    Ok(()),
                ),
            },
        }
    }
}

/// Control frames are observed by the link service in the order of the
/// wire events that triggered them: a later entry of the dispatch log
/// always stems from a later wire event. In particular, the control
/// frames for the events of any one link keep those events' relative
/// order.
pub proof fn lemma_ordering(d: Dispatcher, i: int, j: int)
    requires
        d.wf(),
        0 <= i < j < d.log@.len(),
    ensures
        d.log@[i].0 < d.log@[j].0,
{
}

/// For the wire events destined for one and the same link, the link
/// service observes the corresponding control frames in those events'
/// relative order.
pub proof fn lemma_link_ordering(d: Dispatcher, link: (u16, u32), i: int, j: int)
    requires
        d.wf(),
        0 <= i < j < d.log@.len(),
        d.log@[i].1.kind_spec().link_of() == Some(link),
        d.log@[j].1.kind_spec().link_of() == Some(link),
    ensures
        d.log@[i].0 < d.log@[j].0,
{
}

/// Shape of a step that ends the connection: one final connection-scoped
/// control frame is forwarded and the loop stops with this result.
pub open spec fn connection_end_step(
    d0: Dispatcher,
    d1: Dispatcher,
    a: DispatchAction,
    kind: ControlFrameKind,
    result: Result<(), AmqpProtocolError>,
) -> bool {
    &&& (a matches DispatchAction::Forward(cf) && cf.kind_spec() == kind && cf.session_spec()
        is None && cf.wf() && d1.log@ == d0.log@.push((d0.events@, cf)))
    &&& d1.in_flight
    &&& !d1.running
    &&& d1.last_result == Some(result)
    &&& d1.sessions@ == d0.sessions@
}

/// Shape of a step that fails the connection with a protocol error: the
/// error is surfaced to the link service like any other lifecycle event,
/// then the loop stops with it.
pub open spec fn failure_step(
    d0: Dispatcher,
    d1: Dispatcher,
    a: DispatchAction,
    e: AmqpProtocolError,
) -> bool {
    connection_end_step(
        d0,
        d1,
        a,
        ControlFrameKind::ProtocolError(e),
        Err::<(), AmqpProtocolError>(e),
    )
}

/// Shape of a step that forwards one link-scoped event and keeps running.
pub open spec fn forward_step(
    d0: Dispatcher,
    d1: Dispatcher,
    a: DispatchAction,
    channel: u16,
    kind: ControlFrameKind,
) -> bool {
    &&& (a matches DispatchAction::Forward(cf) && cf.kind_spec() == kind && cf.session_spec()
        == Some(channel) && cf.wf() && d1.log@ == d0.log@.push((d0.events@, cf)))
    &&& d1.in_flight
    &&& d1.running
    &&& d1.last_result is None
}

/// Shape of a step handled entirely inside the dispatcher.
pub open spec fn internal_step(d0: Dispatcher, d1: Dispatcher, a: DispatchAction) -> bool {
    &&& a == DispatchAction::Consumed
    &&& !d1.in_flight
    &&& d1.running
    &&& d1.last_result is None
    &&& d1.log@ == d0.log@
}

/// The control frame an accepted `Attach` gives rise to: the peer sending
/// means this side receives.
pub open spec fn attach_kind(c: u16, at: Attach) -> ControlFrameKind {
    if at.peer_sender {
        ControlFrameKind::AttachReceiver(ReceiverLink { channel: c, handle: at.handle })
    } else {
        ControlFrameKind::AttachSender(at, SenderLink { channel: c, handle: at.handle })
    }
}

/// `Begin` opens a session on a free channel; a channel whose session is
/// already open is a protocol error.
pub open spec fn begin_step(d0: Dispatcher, d1: Dispatcher, a: DispatchAction, c: u16) -> bool {
    match d0.session_at(c) {
        Some(_) => failure_step(d0, d1, a, AmqpProtocolError::UnexpectedFrame),
        None => {
            &&& internal_step(d0, d1, a)
            &&& d1.links_at(c) == Some(Seq::<LinkEntry>::empty())
            &&& d1.sessions_unchanged_except(d0, c)
        },
    }
}

/// `End` closes the session on a channel; a channel without one is a
/// protocol error.
pub open spec fn end_step(d0: Dispatcher, d1: Dispatcher, a: DispatchAction, c: u16) -> bool {
    match d0.session_at(c) {
        None => failure_step(d0, d1, a, AmqpProtocolError::UnknownSession(c)),
        Some(_) => {
            &&& internal_step(d0, d1, a)
            &&& d1.links_at(c) is None
            &&& d1.sessions_unchanged_except(d0, c)
        },
    }
}

/// `Attach` registers a link in its session and forwards the matching
/// attach event; an unknown session or a handle already attached is a
/// protocol error.
pub open spec fn attach_step(
    d0: Dispatcher,
    d1: Dispatcher,
    a: DispatchAction,
    c: u16,
    at: Attach,
) -> bool {
    match d0.session_at(c) {
        None => failure_step(d0, d1, a, AmqpProtocolError::UnknownSession(c)),
        Some(s) => if has_attached(s.links_spec(), at.handle) {
            failure_step(d0, d1, a, AmqpProtocolError::HandleInUse(at.handle))
        } else {
            &&& forward_step(d0, d1, a, c, attach_kind(c, at))
            &&& (d1.links_at(c) matches Some(l1) && (forall|i: int|
                0 <= i < s.links_spec().len() && (#[trigger] s.links_spec()[i]).handle
                    == at.handle ==> l1 == s.links_spec().update(i, attach_entry(at))) && (
            !has_handle(s.links_spec(), at.handle) ==> l1 == s.links_spec().push(
                attach_entry(at),
            )))
            &&& d1.sessions_unchanged_except(d0, c)
        },
    }
}

/// `Flow` on an attached sender link stores the credit and forwards the
/// flow event; on an attached receiver link it is internal bookkeeping;
/// anything else is a protocol error.
pub open spec fn flow_step(
    d0: Dispatcher,
    d1: Dispatcher,
    a: DispatchAction,
    c: u16,
    fl: Flow,
) -> bool {
    match d0.session_at(c) {
        None => failure_step(d0, d1, a, AmqpProtocolError::UnknownSession(c)),
        Some(s) => if !has_attached(s.links_spec(), fl.handle) {
            failure_step(d0, d1, a, AmqpProtocolError::UnattachedHandle(fl.handle))
        } else {
            forall|i: int|
                0 <= i < s.links_spec().len() && (#[trigger] s.links_spec()[i]).handle
                    == fl.handle && s.links_spec()[i].attached ==> (if s.links_spec()[i].receiver {
                    internal_step(d0, d1, a) && d1.sessions_unchanged(d0)
                } else {
                    &&& forward_step(
                        d0,
                        d1,
                        a,
                        c,
                        ControlFrameKind::Flow(fl, SenderLink { channel: c, handle: fl.handle }),
                    )
                    &&& (d1.links_at(c) matches Some(l1) && l1 == s.links_spec().update(
                        i,
                        credited(s.links_spec()[i], fl.link_credit),
                    ))
                    &&& d1.sessions_unchanged_except(d0, c)
                })
        },
    }
}

/// `Detach` clears the link's slot and forwards the matching detach event
/// for its role; an unknown session or handle is a protocol error.
pub open spec fn detach_step(
    d0: Dispatcher,
    d1: Dispatcher,
    a: DispatchAction,
    c: u16,
    dt: Detach,
) -> bool {
    match d0.session_at(c) {
        None => failure_step(d0, d1, a, AmqpProtocolError::UnknownSession(c)),
        Some(s) => if !has_attached(s.links_spec(), dt.handle) {
            failure_step(d0, d1, a, AmqpProtocolError::UnattachedHandle(dt.handle))
        } else {
            forall|i: int|
                0 <= i < s.links_spec().len() && (#[trigger] s.links_spec()[i]).handle
                    == dt.handle && s.links_spec()[i].attached ==> ({
                    &&& forward_step(
                        d0,
                        d1,
                        a,
                        c,
                        if s.links_spec()[i].receiver {
                            ControlFrameKind::DetachReceiver(
                                dt,
                                ReceiverLink { channel: c, handle: dt.handle },
                            )
                        } else {
                            ControlFrameKind::DetachSender(
                                dt,
                                SenderLink { channel: c, handle: dt.handle },
                            )
                        },
                    )
                    &&& (d1.links_at(c) matches Some(l1) && l1 == s.links_spec().update(
                        i,
                        detached(s.links_spec()[i]),
                    ))
                    &&& d1.sessions_unchanged_except(d0, c)
                })
        },
    }
}

/// The dispatch relation: what one wire event does to the dispatcher.
/// Transport closure and `Close` end the connection; a second
/// `Open` is a protocol error; session and link frames are routed to the
/// arena.
pub open spec fn dispatch_step(
    d0: Dispatcher,
    d1: Dispatcher,
    frame: Option<AmqpFrame>,
    a: DispatchAction,
) -> bool {
    match frame {
        None => connection_end_step(
            d0,
            d1,
            a,
            ControlFrameKind::Closed(false),
            Err::<(), AmqpProtocolError>(AmqpProtocolError::Disconnected),
        ),
        Some(f) => match f.performative {
            Frame::Open(_) => failure_step(d0, d1, a, AmqpProtocolError::UnexpectedFrame),
            Frame::Begin => begin_step(d0, d1, a, f.channel),
            Frame::End => end_step(d0, d1, a, f.channel),
            Frame::Attach(at) => attach_step(d0, d1, a, f.channel, at),
            Frame::Flow(fl) => flow_step(d0, d1, a, f.channel, fl),
            Frame::Detach(dt) => detach_step(d0, d1, a, f.channel, dt),
            Frame::Close => connection_end_step(
                d0,
                d1,
                a,
                ControlFrameKind::Closed(true),
                Ok::<(), AmqpProtocolError>(()),
            ),
        },
    }
}

} // verus!
