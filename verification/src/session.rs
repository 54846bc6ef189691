//! Per-session state: the registry of the links attached within one AMQP
//! session, keyed by handle number, with the bookkeeping that matches
//! incoming `Attach`, `Flow` and `Detach` frames to the correct link.
//!
//! Handle numbers are unique within a session for its whole lifetime; a
//! detached link keeps its entry with `attached` cleared, so a stale handle
//! fails lookups with a defined error instead of dangling.

use vstd::prelude::*;
use crate::error::AmqpProtocolError;
use crate::types::Attach;

verus! {

/// One link's slot in its session: identity, role, whether it is currently
/// attached, and its flow-control credit.
#[derive(Clone, Copy, Debug, PartialEq, Eq, Structural)]
pub struct LinkEntry {
    pub handle: u32,
    pub name: u64,
    /// True when this side receives on the link, that is when the peer is
    /// the sender.
    pub receiver: bool,
    pub attached: bool,
    pub link_credit: u32,
}

/// The slot a fresh `Attach` establishes.
pub open spec fn attach_entry(a: Attach) -> LinkEntry {
    LinkEntry {
        handle: a.handle,
        name: a.name,
        receiver: a.peer_sender,
        attached: true,
        link_credit: 0,
    }
}

/// The same slot after a credit update.
pub open spec fn credited(e: LinkEntry, credit: u32) -> LinkEntry {
    LinkEntry { link_credit: credit, ..e }
}

/// The same slot after detach.
pub open spec fn detached(e: LinkEntry) -> LinkEntry {
    LinkEntry { attached: false, ..e }
}

/// Whether some slot carries this handle.
pub open spec fn has_handle(s: Seq<LinkEntry>, handle: u32) -> bool {
    exists|i: int| 0 <= i < s.len() && s[i].handle == handle
}

/// Whether some slot carries this handle and is currently attached.
pub open spec fn has_attached(s: Seq<LinkEntry>, handle: u32) -> bool {
    exists|i: int| 0 <= i < s.len() && s[i].handle == handle && s[i].attached
}

/// In a registry with unique handles, the one slot that carries a handle
/// decides everything about that handle: whether it is attached, and what
/// any slot carrying it holds.
pub proof fn lemma_slot_decides(s: Seq<LinkEntry>, e: LinkEntry, handle: u32)
    requires
        forall|i: int, j: int| 0 <= i < j < s.len() ==> s[i].handle != s[j].handle,
        exists|i: int| 0 <= i < s.len() && s[i] == e,
        e.handle == handle,
    ensures
        has_attached(s, handle) == e.attached,
        forall|i: int| 0 <= i < s.len() && (#[trigger] s[i]).handle == handle ==> s[i] == e,
{
    let w = choose|i: int| 0 <= i < s.len() && s[i] == e;
    assert forall|i: int| 0 <= i < s.len() && (#[trigger] s[i]).handle == handle implies s[i]
        == e by {
        if i < w {
            assert(s[i].handle != s[w].handle);
        } else if w < i {
            assert(s[w].handle != s[i].handle);
        }
    }
    if e.attached {
        assert(0 <= w < s.len() && s[w].handle == handle && s[w].attached);
    } else {
        if has_attached(s, handle) {
            let j = choose|j: int|
                0 <= j < s.len() && s[j].handle == handle && s[j].attached;
            assert(s[j] == e);
            assert(false);
        }
    }
}

/// State of one AMQP session: the channel it lives on and its links.
/// Mutated exclusively by the dispatcher while it processes frames for
/// that channel.
#[derive(Debug)]
pub struct SessionInner {
    pub channel: u16,
    links: Vec<LinkEntry>,
}

impl SessionInner {
    /// The link slots, oldest first.
    pub closed spec fn links_spec(self) -> Seq<LinkEntry> {
        self.links@
    }

    /// The channel this session lives on.
    pub closed spec fn channel_spec(self) -> u16 {
        self.channel
    }

    /// Handle numbers are unique across the slots.
    pub open spec fn wf(self) -> bool {
        forall|i: int, j: int|
            0 <= i < j < self.links_spec().len() ==> self.links_spec()[i].handle
                != self.links_spec()[j].handle
    }

    /// A fresh session for a channel, with no links.
    pub fn new(channel: u16) -> (s: SessionInner)
        ensures
            s.wf(),
            s.channel_spec() == channel,
            s.links_spec().len() == 0,
    {
        SessionInner { channel, links: Vec::new() }
    }

    /// The index of the slot carrying this handle, if any. Uniqueness of
    /// handles makes the index the only one.
    pub fn find_link(&self, handle: u32) -> (r: Option<usize>)
        ensures
            r matches Some(i) ==> i < self.links_spec().len() && self.links_spec()[i as int].handle
                == handle,
            r is None ==> !has_handle(self.links_spec(), handle),
    {
        let mut i: usize = 0;
        while i < self.links.len()
            invariant
                i <= self.links.len(),
                forall|j: int| 0 <= j < i ==> self.links@[j].handle != handle,
            decreases self.links.len() - i,
        {
            if self.links[i].handle == handle {
                return Some(i);
            }
            i = i + 1;
        }
        None
    }

    /// The slot carrying this handle, if any.
    pub fn link_info(&self, handle: u32) -> (r: Option<LinkEntry>)
        ensures
            r matches Some(e) ==> (exists|i: int|
                0 <= i < self.links_spec().len() && self.links_spec()[i] == e) && e.handle
                == handle,
            r is None ==> !has_handle(self.links_spec(), handle),
    {
        match self.find_link(handle) {
            Some(i) => Some(self.links[i]),
            None => None,
        }
    }

    /// Register the link an `Attach` establishes. A handle that is already
    /// attached is refused; a handle seen before but since detached is
    /// re-established in place; a new handle gets a new slot.
    pub fn attach(&mut self, a: Attach) -> (r: Result<(), AmqpProtocolError>)
        requires
            old(self).wf(),
        ensures
            final(self).wf(),
            final(self).channel_spec() == old(self).channel_spec(),
            has_attached(old(self).links_spec(), a.handle) ==> (r == Err::<
                (),
                AmqpProtocolError,
            >(AmqpProtocolError::HandleInUse(a.handle)) && final(self).links_spec() == old(
                self,
            ).links_spec()),
            !has_attached(old(self).links_spec(), a.handle) ==> r == Ok::<
                (),
                AmqpProtocolError,
            >(()),
            r is Ok ==> forall|i: int|
                0 <= i < old(self).links_spec().len() && old(self).links_spec()[i].handle
                    == a.handle ==> final(self).links_spec() == old(self).links_spec().update(
                    i,
                    attach_entry(a),
                ),
            r is Ok && !has_handle(old(self).links_spec(), a.handle) ==> final(self).links_spec()
                == old(self).links_spec().push(attach_entry(a)),
    {
        match self.find_link(a.handle) {
            Some(i) => {
                if self.links[i].attached {
                    Err(AmqpProtocolError::HandleInUse(a.handle))
                } else {
                    self.links[i] = LinkEntry {
                        handle: a.handle,
                        name: a.name,
                        receiver: a.peer_sender,
                        attached: true,
                        link_credit: 0,
                    };
                    Ok(())
                }
            },
            None => {
                self.links.push(
                    LinkEntry {
                        handle: a.handle,
                        name: a.name,
                        receiver: a.peer_sender,
                        attached: true,
                        link_credit: 0,
                    },
                );
                Ok(())
            },
        }
    }

    /// Store a credit update on the slot carrying this handle. The caller
    /// guarantees the handle is attached.
    pub fn update_credit(&mut self, handle: u32, credit: u32)
        requires
            old(self).wf(),
            has_attached(old(self).links_spec(), handle),
        ensures
            final(self).wf(),
            final(self).channel_spec() == old(self).channel_spec(),
            forall|i: int|
                0 <= i < old(self).links_spec().len() && old(self).links_spec()[i].handle == handle
                    ==> final(self).links_spec() == old(self).links_spec().update(
                    i,
                    credited(old(self).links_spec()[i], credit),
                ),
    {
        match self.find_link(handle) {
            Some(i) => {
                let e = self.links[i];
                self.links[i] = LinkEntry { link_credit: credit, ..e };
            },
            None => {
                proof {
                    assert(false);
                }
            },
        }
    }

    /// Clear the attached flag on the slot carrying this handle. The
    /// caller guarantees the handle is attached.
    pub fn detach(&mut self, handle: u32)
        requires
            old(self).wf(),
            has_attached(old(self).links_spec(), handle),
        ensures
            final(self).wf(),
            final(self).channel_spec() == old(self).channel_spec(),
            forall|i: int|
                0 <= i < old(self).links_spec().len() && old(self).links_spec()[i].handle == handle
                    ==> final(self).links_spec() == old(self).links_spec().update(
                    i,
                    detached(old(self).links_spec()[i]),
                ),
    {
        match self.find_link(handle) {
            Some(i) => {
                let e = self.links[i];
                self.links[i] = LinkEntry { attached: false, ..e };
            },
            None => {
                proof {
                    assert(false);
                }
            },
        }
    }
}

} // verus!
