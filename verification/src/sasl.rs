//! The SASL negotiator: orchestration of the challenge/response round
//! trips of one authentication attempt over the SASL framing. The
//! mechanism algorithms themselves live with the embedding application,
//! which answers each `Authenticate` request with a verdict; this machine
//! decides what to send, what to await, and how the exchange ends.
//!
//! Exactly one authentication attempt is made per connection: the failed
//! stage accepts no further frames, so a retry policy can only live with
//! the embedding application.

use vstd::prelude::*;
use crate::error::{HandshakeError, SaslError};
use crate::types::{SaslAuth, SaslFrame};

verus! {

/// Where the exchange stands.
#[derive(Clone, Copy, Debug, PartialEq, Eq, Structural)]
pub enum SaslStage {
    /// Mechanisms announced; awaiting the peer's `Init`.
    AwaitInit,
    /// Credentials handed to the authentication callback; awaiting its
    /// verdict.
    Authenticating,
    /// A challenge was sent; awaiting the peer's `Response`.
    AwaitResponse,
    /// Outcome sent: the peer is authenticated.
    Done,
    /// The exchange failed; no further frame is accepted.
    Failed,
}

/// The authentication callback's verdict on one round of credentials.
#[derive(Debug, PartialEq, Eq)]
pub enum AuthVerdict {
    /// Credentials accepted.
    Accepted,
    /// Another round is needed: send this challenge.
    Challenge(Vec<u8>),
    /// Credentials rejected.
    Rejected,
}

/// What one verdict makes of the exchange.
#[derive(Debug, PartialEq, Eq)]
pub enum SaslProgress {
    /// Send this challenge frame and await the peer's response.
    Challenged(SaslFrame),
    /// Send this outcome frame; the exchange succeeded with these
    /// credentials.
    Accepted(SaslFrame, SaslAuth),
    /// Send this outcome frame; the exchange failed with this error.
    Rejected(SaslFrame, HandshakeError),
}

/// Drives one SASL exchange over the set of server-offered mechanisms.
pub struct SaslNegotiator {
    pub offered: Vec<u64>,
    pub stage: SaslStage,
    pub mechanism: Option<u64>,
}

impl SaslNegotiator {
    /// A mechanism has been selected whenever the exchange got past the
    /// peer's `Init`.
    pub open spec fn wf(self) -> bool {
        (self.stage == SaslStage::Authenticating || self.stage == SaslStage::AwaitResponse
            || self.stage == SaslStage::Done) ==> self.mechanism is Some
    }

    /// Begin an exchange offering these mechanisms.
    pub fn new(offered: Vec<u64>) -> (n: SaslNegotiator)
        ensures
            n.wf(),
            n.stage == SaslStage::AwaitInit,
            n.offered@ == offered@,
            n.mechanism is None,
    {
        SaslNegotiator { offered, stage: SaslStage::AwaitInit, mechanism: None }
    }

    /// The mechanisms announcement to send before anything is read.
    pub fn announcement(&self) -> (f: SaslFrame)
        ensures
            f matches SaslFrame::Mechanisms(m) && m@ == self.offered@,
    {
        let mut v: Vec<u64> = Vec::new();
        let mut i: usize = 0;
        while i < self.offered.len()
            invariant
                i <= self.offered@.len(),
                v@ == self.offered@.take(i as int),
            decreases self.offered@.len() - i,
        {
            let x = self.offered[i];
            v.push(x);
            proof {
                assert(self.offered@.take(i as int + 1) =~= self.offered@.take(i as int).push(
                    self.offered@[i as int],
                ));
            }
            i = i + 1;
        }
        proof {
            assert(self.offered@.take(self.offered@.len() as int) =~= self.offered@);
        }
        SaslFrame::Mechanisms(v)
    }

    /// Whether a mechanism is among the offered ones.
    fn offers(&self, m: u64) -> (b: bool)
        ensures
            b == self.offered@.contains(m),
    {
        let mut i: usize = 0;
        while i < self.offered.len()
            invariant
                i <= self.offered@.len(),
                forall|j: int| 0 <= j < i ==> self.offered@[j] != m,
            decreases self.offered@.len() - i,
        {
            if self.offered[i] == m {
                return true;
            }
            i = i + 1;
        }
        false
    }

    /// Feed the peer's answer to the announcement. A supported selection
    /// yields the credentials to hand to the authentication callback; an
    /// unsupported one fails the negotiation, a disconnect fails it as a
    /// disconnect, and any frame other than `Init` has no place here.
    pub fn on_init(&mut self, frame: Option<SaslFrame>) -> (r: Result<
        (u64, Vec<u8>),
        HandshakeError,
    >)
        requires
            old(self).wf(),
            old(self).stage == SaslStage::AwaitInit,
        ensures
            final(self).wf(),
            final(self).offered@ == old(self).offered@,
            frame is None ==> r == Err::<(u64, Vec<u8>), HandshakeError>(
                HandshakeError::Disconnected,
            ) && final(self).stage == SaslStage::Failed,
            frame matches Some(SaslFrame::Init { mechanism, response }) ==> (if old(self).offered@.contains(mechanism) {
                r matches Ok(p) && p.0 == mechanism && p.1@ == response@ && final(self).stage
                    == SaslStage::Authenticating && final(self).mechanism == Some(mechanism)
            } else {
                r == Err::<(u64, Vec<u8>), HandshakeError>(
                    HandshakeError::Sasl(SaslError::UnsupportedMechanism(mechanism)),
                ) && final(self).stage == SaslStage::Failed
            }),
            (match frame {
                Some(SaslFrame::Init { .. }) => false,
                None => false,
                _ => true,
            }) ==> r == Err::<(u64, Vec<u8>), HandshakeError>(
                HandshakeError::Sasl(SaslError::UnexpectedFrame),
            ) && final(self).stage == SaslStage::Failed,
    {
        match frame {
            None => {
                self.stage = SaslStage::Failed;
                Err(HandshakeError::Disconnected)
            },
            Some(SaslFrame::Init { mechanism, response }) => {
                if self.offers(mechanism) {
                    self.stage = SaslStage::Authenticating;
                    self.mechanism = Some(mechanism);
                    Ok((mechanism, response))
                } else {
                    self.stage = SaslStage::Failed;
                    Err(HandshakeError::Sasl(SaslError::UnsupportedMechanism(mechanism)))
                }
            },
            Some(_) => {
                self.stage = SaslStage::Failed;
                Err(HandshakeError::Sasl(SaslError::UnexpectedFrame))
            },
        }
    }

    /// Feed the authentication callback's verdict. Acceptance ends the
    /// exchange with the authenticated credentials, a challenge opens
    /// another round trip, and rejection fails the exchange with an
    /// authentication error distinct from any transport error — in every
    /// case the outcome or challenge frame to send is returned.
    pub fn on_auth_result(&mut self, verdict: AuthVerdict) -> (r: SaslProgress)
        requires
            old(self).wf(),
            old(self).stage == SaslStage::Authenticating,
        ensures
            final(self).wf(),
            final(self).offered@ == old(self).offered@,
            final(self).mechanism == old(self).mechanism,
            verdict == AuthVerdict::Accepted ==> (r matches SaslProgress::Accepted(f, auth) && f
                == SaslFrame::Outcome(true) && Some(auth.mechanism) == old(self).mechanism
                && final(self).stage == SaslStage::Done),
            verdict matches AuthVerdict::Challenge(d) ==> (r matches SaslProgress::Challenged(f)
                && f == SaslFrame::Challenge(d) && final(self).stage == SaslStage::AwaitResponse),
            verdict == AuthVerdict::Rejected ==> (r matches SaslProgress::Rejected(f, e) && f
                == SaslFrame::Outcome(false) && e == HandshakeError::Sasl(SaslError::Rejected)
                && final(self).stage == SaslStage::Failed),
    {
        match verdict {
            AuthVerdict::Accepted => {
                self.stage = SaslStage::Done;
                let m = match self.mechanism {
                    Some(m) => m,
                    None => {
                        proof {
                            assert(false);
                        }
                        0
                    },
                };
                SaslProgress::Accepted(SaslFrame::Outcome(true), SaslAuth { mechanism: m })
            },
            AuthVerdict::Challenge(d) => {
                self.stage = SaslStage::AwaitResponse;
                SaslProgress::Challenged(SaslFrame::Challenge(d))
            },
            AuthVerdict::Rejected => {
                self.stage = SaslStage::Failed;
                SaslProgress::Rejected(
                    SaslFrame::Outcome(false),
                    HandshakeError::Sasl(SaslError::Rejected),
                )
            },
        }
    }

    /// Feed the peer's answer to a challenge: a `Response` yields the next
    /// round of credentials for the callback, a disconnect or any other
    /// frame fails the exchange.
    pub fn on_response(&mut self, frame: Option<SaslFrame>) -> (r: Result<
        (u64, Vec<u8>),
        HandshakeError,
    >)
        requires
            old(self).wf(),
            old(self).stage == SaslStage::AwaitResponse,
        ensures
            final(self).wf(),
            final(self).offered@ == old(self).offered@,
            frame is None ==> r == Err::<(u64, Vec<u8>), HandshakeError>(
                HandshakeError::Disconnected,
            ) && final(self).stage == SaslStage::Failed,
            frame matches Some(SaslFrame::Response(d)) ==> (r matches Ok(p)
                && Some(p.0) == old(self).mechanism
                && p.1@ == d@
                && final(self).stage == SaslStage::Authenticating
                && final(self).mechanism == old(self).mechanism),
            (match frame {
                Some(SaslFrame::Response(_)) => false,
                None => false,
                _ => true,
            }) ==> r == Err::<(u64, Vec<u8>), HandshakeError>(
                HandshakeError::Sasl(SaslError::UnexpectedFrame),
            ) && final(self).stage == SaslStage::Failed,
    {
        match frame {
            None => {
                self.stage = SaslStage::Failed;
                Err(HandshakeError::Disconnected)
            },
            Some(SaslFrame::Response(d)) => {
                let m = match self.mechanism {
                    Some(m) => m,
                    None => {
                        proof {
                            assert(false);
                        }
                        0
                    },
                };
                self.stage = SaslStage::Authenticating;
                Ok((m, d))
            },
            Some(_) => {
                self.stage = SaslStage::Failed;
                Err(HandshakeError::Sasl(SaslError::UnexpectedFrame))
            },
        }
    }
}

} // verus!
