//! The single-flight in-flight operation slot.
//!
//! A wireless connect may block for up to a minute, so it runs as a spawned
//! unit of work with a cancellation handle.  At most one connect is in flight
//! at a time: installing a new operation atomically hands back the previous
//! handle, to be cancelled, and replaces it.  The caller holds the slot under
//! a mutual-exclusion guard, so take-and-cancel and install-new cannot
//! interleave; this type captures what that critical section guarantees.
//!
//! Handles are modelled as the numbers `0, 1, 2, ...` in installation order.
//! Ghost histories record which handles were handed out for cancellation and
//! which were resolved, so the single-flight law is a statement the verifier
//! checks rather than a comment.

use vstd::prelude::*;

verus! {

broadcast use vstd::seq_lib::lemma_seq_contains_after_push;

pub struct ConnectSlot {
    current: Option<u64>,
    next_id: u64,
    cancelled: Ghost<Seq<u64>>,
    resolved: Ghost<Seq<u64>>,
}

impl ConnectSlot {
    /// The handle of the operation now in flight, if any.
    pub closed spec fn in_flight(&self) -> Option<u64> {
        self.current
    }

    /// How many operations were ever installed.
    pub closed spec fn installs(&self) -> nat {
        self.next_id as nat
    }

    /// Every handle handed back for cancellation, oldest first.
    pub closed spec fn cancel_history(&self) -> Seq<u64> {
        self.cancelled@
    }

    /// Every handle whose operation ran to completion, oldest first.
    pub closed spec fn resolve_history(&self) -> Seq<u64> {
        self.resolved@
    }

    /// The slot's invariant: handles are spent at most once.  A handle is
    /// never cancelled twice, never resolved twice, never both cancelled and
    /// resolved, and the in-flight handle is still unspent.
    pub closed spec fn wf(&self) -> bool {
        &&& (forall|i: int, j: int|
            0 <= i < j < self.cancelled@.len() ==> self.cancelled@[i] != self.cancelled@[j])
        &&& (forall|i: int, j: int|
            0 <= i < j < self.resolved@.len() ==> self.resolved@[i] != self.resolved@[j])
        &&& (forall|h: u64| self.cancelled@.contains(h) ==> !self.resolved@.contains(h))
        &&& (forall|h: u64| #[trigger] self.cancelled@.contains(h) ==> h < self.next_id)
        &&& (forall|h: u64| #[trigger] self.resolved@.contains(h) ==> h < self.next_id)
        &&& (self.current matches Some(h) ==> {
            &&& h < self.next_id
            &&& !self.cancelled@.contains(h)
            &&& !self.resolved@.contains(h)
        })
    }

    /// An empty slot: nothing in flight, nothing spent.
    pub fn new() -> (s: ConnectSlot)
        ensures
            s.wf(),
            s.in_flight() is None,
            s.installs() == 0,
            s.cancel_history() == Seq::<u64>::empty(),
            s.resolve_history() == Seq::<u64>::empty(),
    {
        ConnectSlot {
            current: None,
            next_id: 0,
            cancelled: Ghost(Seq::empty()),
            resolved: Ghost(Seq::empty()),
        }
    }

    /// How many operations were ever installed, as a number a caller can
    /// test before installing another.
    pub fn installs_count(&self) -> (n: u64)
        ensures
            n as nat == self.installs(),
    {
        self.next_id
    }

    /// Install a new in-flight operation.  Returns the fresh handle and the
    /// previous one, which the caller must abort: an operation started while
    /// another is unresolved cancels it exactly once — the previous handle
    /// was never in the cancel history before and is appended to it now.
    pub fn install(&mut self) -> (r: (u64, Option<u64>))
        requires
            old(self).wf(),
            old(self).installs() < u64::MAX,
        ensures
            final(self).wf(),
            r.1 == old(self).in_flight(),
            final(self).in_flight() == Some(r.0),
            final(self).installs() == old(self).installs() + 1,
            final(self).resolve_history() == old(self).resolve_history(),
            old(self).in_flight() matches Some(h) ==> {
                &&& r.0 != h
                &&& !old(self).cancel_history().contains(h)
                &&& final(self).cancel_history() == old(self).cancel_history().push(h)
            },
            old(self).in_flight() is None ==> final(self).cancel_history() == old(
                self,
            ).cancel_history(),
    {
        let id = self.next_id;
        self.next_id = self.next_id + 1;
        let prev = self.current;
        self.current = Some(id);
        if let Some(h) = prev {
            proof {
                self.cancelled@ = self.cancelled@.push(h);
            }
        }
        (id, prev)
    }

    /// Record that the operation `id` ran to completion.  Clears the slot
    /// only when `id` is still the one in flight; a handle that was replaced
    /// meanwhile was already cancelled and changes nothing.
    pub fn resolve(&mut self, id: u64)
        requires
            old(self).wf(),
        ensures
            final(self).wf(),
            final(self).installs() == old(self).installs(),
            final(self).cancel_history() == old(self).cancel_history(),
            old(self).in_flight() == Some(id) ==> {
                &&& final(self).in_flight() is None
                &&& final(self).resolve_history() == old(self).resolve_history().push(id)
            },
            old(self).in_flight() != Some(id) ==> *final(self) == *old(self),
    {
        let cur = self.current;
        if let Some(h) = cur {
            if h == id {
                self.current = None;
                proof {
                    self.resolved@ = self.resolved@.push(id);
                }
            }
        }
    }

    /// Empty the slot, handing back the in-flight handle for cancellation.
    /// Used on shutdown and when the owning adapter is torn down.
    pub fn take_for_cancel(&mut self) -> (r: Option<u64>)
        requires
            old(self).wf(),
        ensures
            final(self).wf(),
            r == old(self).in_flight(),
            final(self).in_flight() is None,
            final(self).installs() == old(self).installs(),
            final(self).resolve_history() == old(self).resolve_history(),
            old(self).in_flight() matches Some(h) ==> {
                &&& !old(self).cancel_history().contains(h)
                &&& final(self).cancel_history() == old(self).cancel_history().push(h)
            },
            old(self).in_flight() is None ==> final(self).cancel_history() == old(
                self,
            ).cancel_history(),
    {
        let prev = self.current;
        self.current = None;
        if let Some(h) = prev {
            proof {
                self.cancelled@ = self.cancelled@.push(h);
            }
        }
        prev
    }
}

/// Single-flight law: however commands interleave, a well-formed slot never
/// cancels any handle twice (the cancel history holds no duplicates), never
/// both cancels and resolves a handle, and the operation now in flight is
/// neither cancelled nor resolved yet — no double-cancel and no leaked,
/// already-spent handle.
pub proof fn lemma_single_flight(s: ConnectSlot)
    requires
        s.wf(),
    ensures
        forall|i: int, j: int|
            0 <= i < j < s.cancel_history().len() ==> s.cancel_history()[i] != s.cancel_history()[j],
        forall|h: u64| s.cancel_history().contains(h) ==> !s.resolve_history().contains(h),
        s.in_flight() matches Some(h) ==> !s.cancel_history().contains(h) && !s.resolve_history()
            .contains(h),
{
}

} // verus!
