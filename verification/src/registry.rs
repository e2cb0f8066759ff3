//! The event subscription registry.
//!
//! One slot per event kind, holding at most one host handler. Subscribing to
//! an occupied kind replaces the handler, matching the engine's
//! single-listener-per-kind semantics. The registry owns no handler values:
//! it keys them by a host-chosen number; the host keeps the values in an
//! arena and disposes of one when its removal is reported.
//!
//! A foreign `addListener` is owed only the first time a kind gains a
//! handler, and a foreign `removeListener` when a kind loses its last one —
//! except for the two bootstrap kinds, whose foreign listeners the readiness
//! guard itself consumes and which therefore stay attached.
//!
//! While a dispatch for kind K runs, mutations of K's slot are queued and
//! applied only when the dispatch ends, so a handler never observes a
//! registry it is mid-mutating.

use vstd::prelude::*;
use crate::events::{EventKind, spec_kind_index, kind_index, kind_count};

verus! {

/// A claim on one subscription: the kind and the generation of its slot.
#[derive(Debug, Clone, Copy, PartialEq, Eq)]
pub struct SubscriptionHandle {
    pub kind: EventKind,
    pub serial: u64,
}

/// A call the host still has to make against the engine's listener table.
#[derive(Debug, Clone, Copy, PartialEq, Eq)]
pub enum ForeignCall {
    AddListener(EventKind),
    RemoveListener(EventKind),
}

/// The host handler occupying a slot.
#[derive(Debug, Clone, Copy, PartialEq, Eq)]
pub struct SlotEntry {
    /// The host's key for the handler value it owns.
    pub handler: u64,
    /// The generation that the matching [`SubscriptionHandle`] carries.
    pub serial: u64,
}

/// The registry's record for one event kind.
#[derive(Debug, Clone, Copy, PartialEq, Eq)]
pub struct Slot {
    /// Whether a listener is attached on the foreign side for this kind.
    pub foreign_attached: bool,
    /// Whether the readiness guard itself consumes this kind: its foreign
    /// listener is installed at `init` and never removed.
    pub bootstrap: bool,
    /// The current host handler, if any.
    pub entry: Option<SlotEntry>,
}

/// A mutation asked for during a dispatch of the same kind.
#[derive(Debug, Clone, Copy, PartialEq, Eq)]
pub enum PendingOp {
    /// Kind, handler key, serial already promised to the caller.
    Subscribe(EventKind, u64, u64),
    Unsubscribe(SubscriptionHandle),
    UnsubscribeKind(EventKind),
}

/// What an immediate subscribe reports.
#[derive(Debug, Clone, Copy, PartialEq, Eq)]
pub enum SubscribeResult {
    Applied {
        handle: SubscriptionHandle,
        /// Whether no foreign-side listener existed for the kind before this
        /// call: the uniqueness flag the foreign registration reports.
        unique: bool,
        foreign: Option<ForeignCall>,
    },
    /// The kind is mid-dispatch; the mutation is applied when it ends.
    Queued { handle: SubscriptionHandle },
}

/// What an immediate unsubscribe reports.
#[derive(Debug, Clone, Copy, PartialEq, Eq)]
pub enum UnsubscribeResult {
    Applied { removed: bool, foreign: Option<ForeignCall> },
    /// The kind is mid-dispatch; the mutation is applied when it ends.
    Queued,
}

/// A slot after `op`, with the foreign call the host then owes.
pub open spec fn spec_apply_op(slots: Seq<Slot>, op: PendingOp) -> (Seq<Slot>, Option<ForeignCall>) {
    match op {
        PendingOp::Subscribe(k, h, serial) => {
            let i = spec_kind_index(k);
            let s = slots[i];
            let ns = Slot {
                foreign_attached: true,
                bootstrap: s.bootstrap,
                entry: Some(SlotEntry { handler: h, serial }),
            };
            (
                slots.update(i, ns),
                if s.foreign_attached {
                    None
                } else {
                    Some(ForeignCall::AddListener(k))
                },
            )
        },
        PendingOp::Unsubscribe(handle) => {
            let i = spec_kind_index(handle.kind);
            let s = slots[i];
            if s.entry matches Some(e) && e.serial == handle.serial {
                let ns = Slot {
                    foreign_attached: s.foreign_attached && s.bootstrap,
                    bootstrap: s.bootstrap,
                    entry: None,
                };
                (
                    slots.update(i, ns),
                    if s.bootstrap {
                        None
                    } else {
                        Some(ForeignCall::RemoveListener(handle.kind))
                    },
                )
            } else {
                (slots, None)
            }
        },
        PendingOp::UnsubscribeKind(k) => {
            let i = spec_kind_index(k);
            let s = slots[i];
            if s.entry is Some {
                let ns = Slot {
                    foreign_attached: s.foreign_attached && s.bootstrap,
                    bootstrap: s.bootstrap,
                    entry: None,
                };
                (
                    slots.update(i, ns),
                    if s.bootstrap {
                        None
                    } else {
                        Some(ForeignCall::RemoveListener(k))
                    },
                )
            } else {
                (slots, None)
            }
        },
    }
}

/// The foreign call as a (possibly empty) sequence.
pub open spec fn spec_call_seq(c: Option<ForeignCall>) -> Seq<ForeignCall> {
    match c {
        Some(x) => seq![x],
        None => Seq::empty(),
    }
}

/// The slots after a whole queue of mutations, with the foreign calls owed,
/// in order.
pub open spec fn spec_apply_pending(slots: Seq<Slot>, ops: Seq<PendingOp>) -> (
    Seq<Slot>,
    Seq<ForeignCall>,
)
    decreases ops.len(),
{
    if ops.len() == 0 {
        (slots, Seq::empty())
    } else {
        let (slots1, call) = spec_apply_op(slots, ops[0]);
        let (slots2, calls) = spec_apply_pending(slots1, ops.drop_first());
        (slots2, spec_call_seq(call) + calls)
    }
}

/// The event subscription registry.
pub struct Registry {
    slots: Vec<Slot>,
    next_serial: u64,
    dispatching: Option<EventKind>,
    pending: Vec<PendingOp>,
}

impl Registry {
    pub closed spec fn spec_slots(&self) -> Seq<Slot> {
        self.slots@
    }

    pub open spec fn spec_slot(&self, k: EventKind) -> Slot {
        self.spec_slots()[spec_kind_index(k)]
    }

    /// The host handler currently subscribed for a kind.
    pub open spec fn spec_entry(&self, k: EventKind) -> Option<SlotEntry> {
        self.spec_slot(k).entry
    }

    pub closed spec fn spec_dispatching(&self) -> Option<EventKind> {
        self.dispatching
    }

    pub closed spec fn spec_pending(&self) -> Seq<PendingOp> {
        self.pending@
    }

    pub closed spec fn spec_next_serial(&self) -> u64 {
        self.next_serial
    }

    /// Structural soundness: one slot per kind; mutations queue up only
    /// while a dispatch runs; an occupied slot is foreign-attached.
    pub open spec fn wf(&self) -> bool {
        &&& self.spec_slots().len() == kind_count()
        &&& (self.spec_dispatching() is None ==> self.spec_pending().len() == 0)
        &&& forall|i: int|
            0 <= i < self.spec_slots().len() ==> (#[trigger] self.spec_slots()[i].entry) is Some
                ==> self.spec_slots()[i].foreign_attached
    }

    /// An empty registry: no handlers, nothing attached, no dispatch running.
    pub fn new() -> (r: Registry)
        ensures
            r.wf(),
            r.spec_dispatching() is None,
            r.spec_next_serial() == 0,
            forall|k: EventKind| (#[trigger] r.spec_slot(k)) == (Slot {
                foreign_attached: false,
                bootstrap: false,
                entry: None,
            }),
    {
        let mut slots: Vec<Slot> = Vec::new();
        let mut i: usize = 0;
        while i < 8
            invariant
                i <= 8,
                slots@.len() == i,
                forall|j: int|
                    0 <= j < i ==> #[trigger] slots@[j] == (Slot {
                        foreign_attached: false,
                        bootstrap: false,
                        entry: None,
                    }),
            decreases 8 - i,
        {
            slots.push(Slot { foreign_attached: false, bootstrap: false, entry: None });
            i = i + 1;
        }
        Registry { slots, next_serial: 0, dispatching: None, pending: Vec::new() }
    }

    /// Mark a kind as consumed by the guard itself: its foreign listener is
    /// installed when the engine is created and stays for the engine's life.
    pub fn attach_bootstrap(&mut self, kind: EventKind)
        requires
            old(self).wf(),
        ensures
            final(self).wf(),
            final(self).spec_slot(kind) == (Slot {
                foreign_attached: true,
                bootstrap: true,
                entry: old(self).spec_slot(kind).entry,
            }),
            forall|k: EventKind|
                spec_kind_index(k) != spec_kind_index(kind) ==> #[trigger] final(self).spec_slot(k)
                    == old(self).spec_slot(k),
            final(self).spec_dispatching() == old(self).spec_dispatching(),
            final(self).spec_pending() == old(self).spec_pending(),
            final(self).spec_next_serial() == old(self).spec_next_serial(),
    {
        let i = kind_index(kind);
        let s = self.slots[i];
        self.slots[i] = Slot { foreign_attached: true, bootstrap: true, entry: s.entry };
    }

    /// Apply one mutation to the slot table; the returned call is what the
    /// host now owes the foreign listener table.
    fn apply_op(slots: &mut Vec<Slot>, op: PendingOp) -> (r: Option<ForeignCall>)
        requires
            old(slots)@.len() == kind_count(),
        ensures
            (final(slots)@, r) == spec_apply_op(old(slots)@, op),
    {
        match op {
            PendingOp::Subscribe(k, h, serial) => {
                let i = kind_index(k);
                let s = slots[i];
                slots[i] = Slot {
                    foreign_attached: true,
                    bootstrap: s.bootstrap,
                    entry: Some(SlotEntry { handler: h, serial }),
                };
                if s.foreign_attached {
                    None
                } else {
                    Some(ForeignCall::AddListener(k))
                }
            },
            PendingOp::Unsubscribe(handle) => {
                let i = kind_index(handle.kind);
                let s = slots[i];
                let removed = match s.entry {
                    Some(e) => e.serial == handle.serial,
                    None => false,
                };
                if removed {
                    slots[i] = Slot {
                        foreign_attached: s.foreign_attached && s.bootstrap,
                        bootstrap: s.bootstrap,
                        entry: None,
                    };
                    if s.bootstrap {
                        None
                    } else {
                        Some(ForeignCall::RemoveListener(handle.kind))
                    }
                } else {
                    None
                }
            },
            PendingOp::UnsubscribeKind(k) => {
                let i = kind_index(k);
                let s = slots[i];
                if s.entry.is_some() {
                    slots[i] = Slot {
                        foreign_attached: s.foreign_attached && s.bootstrap,
                        bootstrap: s.bootstrap,
                        entry: None,
                    };
                    if s.bootstrap {
                        None
                    } else {
                        Some(ForeignCall::RemoveListener(k))
                    }
                } else {
                    None
                }
            },
        }
    }

    /// Subscribe a handler (by its host key) to a kind, replacing any
    /// current one; applied at once unless the kind is mid-dispatch.
    pub fn subscribe(&mut self, kind: EventKind, handler: u64) -> (r: SubscribeResult)
        requires
            old(self).wf(),
        ensures
            final(self).wf(),
            final(self).spec_dispatching() == old(self).spec_dispatching(),
            final(self).spec_next_serial() == if old(self).spec_next_serial() < u64::MAX {
                (old(self).spec_next_serial() + 1) as u64
            } else {
                u64::MAX
            },
            ((r is Queued) <==> old(self).spec_dispatching() == Some(kind)),
            match r {
                SubscribeResult::Queued { handle } => {
                    &&& handle == (SubscriptionHandle { kind, serial: old(self).spec_next_serial() })
                    &&& final(self).spec_slots() == old(self).spec_slots()
                    &&& final(self).spec_pending() == old(self).spec_pending().push(
                        PendingOp::Subscribe(kind, handler, old(self).spec_next_serial()),
                    )
                },
                SubscribeResult::Applied { handle, unique, foreign } => {
                    &&& handle == (SubscriptionHandle { kind, serial: old(self).spec_next_serial() })
                    &&& unique == !old(self).spec_slot(kind).foreign_attached
                    &&& (final(self).spec_slots(), foreign) == spec_apply_op(
                        old(self).spec_slots(),
                        PendingOp::Subscribe(kind, handler, old(self).spec_next_serial()),
                    )
                    &&& final(self).spec_pending() == old(self).spec_pending()
                },
            },
    {
        let serial = self.next_serial;
        if self.next_serial < u64::MAX {
            self.next_serial = self.next_serial + 1;
        }
        let queued = match self.dispatching {
            Some(k) => k == kind,
            None => false,
        };
        if queued {
            self.pending.push(PendingOp::Subscribe(kind, handler, serial));
            SubscribeResult::Queued { handle: SubscriptionHandle { kind, serial } }
        } else {
            let unique = !self.slots[kind_index(kind)].foreign_attached;
            let foreign = Self::apply_op(&mut self.slots, PendingOp::Subscribe(kind, handler, serial));
            SubscribeResult::Applied { handle: SubscriptionHandle { kind, serial }, unique, foreign }
        }
    }

    /// Drop the subscription a handle names, if it is still the current one;
    /// applied at once unless the kind is mid-dispatch.
    pub fn unsubscribe(&mut self, handle: SubscriptionHandle) -> (r: UnsubscribeResult)
        requires
            old(self).wf(),
        ensures
            final(self).wf(),
            final(self).spec_dispatching() == old(self).spec_dispatching(),
            final(self).spec_next_serial() == old(self).spec_next_serial(),
            ((r is Queued) <==> old(self).spec_dispatching() == Some(handle.kind)),
            match r {
                UnsubscribeResult::Queued => {
                    &&& final(self).spec_slots() == old(self).spec_slots()
                    &&& final(self).spec_pending() == old(self).spec_pending().push(
                        PendingOp::Unsubscribe(handle),
                    )
                },
                UnsubscribeResult::Applied { removed, foreign } => {
                    &&& removed == (old(self).spec_entry(handle.kind) matches Some(e) && e.serial
                        == handle.serial)
                    &&& (final(self).spec_slots(), foreign) == spec_apply_op(
                        old(self).spec_slots(),
                        PendingOp::Unsubscribe(handle),
                    )
                    &&& final(self).spec_pending() == old(self).spec_pending()
                },
            },
    {
        let queued = match self.dispatching {
            Some(k) => k == handle.kind,
            None => false,
        };
        if queued {
            self.pending.push(PendingOp::Unsubscribe(handle));
            UnsubscribeResult::Queued
        } else {
            let removed = match self.slots[kind_index(handle.kind)].entry {
                Some(e) => e.serial == handle.serial,
                None => false,
            };
            let foreign = Self::apply_op(&mut self.slots, PendingOp::Unsubscribe(handle));
            UnsubscribeResult::Applied { removed, foreign }
        }
    }

    /// Drop whatever subscription a kind holds; applied at once unless the
    /// kind is mid-dispatch.
    pub fn unsubscribe_kind(&mut self, kind: EventKind) -> (r: UnsubscribeResult)
        requires
            old(self).wf(),
        ensures
            final(self).wf(),
            final(self).spec_dispatching() == old(self).spec_dispatching(),
            final(self).spec_next_serial() == old(self).spec_next_serial(),
            ((r is Queued) <==> old(self).spec_dispatching() == Some(kind)),
            match r {
                UnsubscribeResult::Queued => {
                    &&& final(self).spec_slots() == old(self).spec_slots()
                    &&& final(self).spec_pending() == old(self).spec_pending().push(
                        PendingOp::UnsubscribeKind(kind),
                    )
                },
                UnsubscribeResult::Applied { removed, foreign } => {
                    &&& removed == (old(self).spec_entry(kind) is Some)
                    &&& (final(self).spec_slots(), foreign) == spec_apply_op(
                        old(self).spec_slots(),
                        PendingOp::UnsubscribeKind(kind),
                    )
                    &&& final(self).spec_pending() == old(self).spec_pending()
                },
            },
    {
        let queued = match self.dispatching {
            Some(k) => k == kind,
            None => false,
        };
        if queued {
            self.pending.push(PendingOp::UnsubscribeKind(kind));
            UnsubscribeResult::Queued
        } else {
            let removed = self.slots[kind_index(kind)].entry.is_some();
            let foreign = Self::apply_op(&mut self.slots, PendingOp::UnsubscribeKind(kind));
            UnsubscribeResult::Applied { removed, foreign }
        }
    }

    /// The handler key a kind currently holds.
    pub fn current_handler(&self, kind: EventKind) -> (r: Option<u64>)
        requires
            self.wf(),
        ensures
            r == match self.spec_entry(kind) {
                Some(e) => Some(e.handler),
                None => None::<u64>,
            },
    {
        match self.slots[kind_index(kind)].entry {
            Some(e) => Some(e.handler),
            None => None,
        }
    }

    /// Record that a dispatch for `kind` begins, and name the handler that
    /// should run, if the kind holds one.
    pub fn begin_dispatch(&mut self, kind: EventKind) -> (r: Option<u64>)
        requires
            old(self).wf(),
            old(self).spec_dispatching() is None,
        ensures
            final(self).wf(),
            final(self).spec_dispatching() == Some(kind),
            final(self).spec_slots() == old(self).spec_slots(),
            final(self).spec_pending() == old(self).spec_pending(),
            final(self).spec_next_serial() == old(self).spec_next_serial(),
            r == match old(self).spec_entry(kind) {
                Some(e) => Some(e.handler),
                None => None::<u64>,
            },
    {
        self.dispatching = Some(kind);
        match self.slots[kind_index(kind)].entry {
            Some(e) => Some(e.handler),
            None => None,
        }
    }

    /// End the running dispatch: apply the queued mutations in order and
    /// name the foreign calls the host now owes, in order.
    pub fn end_dispatch(&mut self) -> (r: Vec<ForeignCall>)
        requires
            old(self).wf(),
            old(self).spec_dispatching() is Some,
        ensures
            final(self).wf(),
            final(self).spec_dispatching() is None,
            final(self).spec_pending().len() == 0,
            final(self).spec_next_serial() == old(self).spec_next_serial(),
            (final(self).spec_slots(), r@) == spec_apply_pending(
                old(self).spec_slots(),
                old(self).spec_pending(),
            ),
    {
        self.dispatching = None;
        let mut calls: Vec<ForeignCall> = Vec::new();
        let ghost slots0: Seq<Slot> = self.slots@;
        let ghost ops0: Seq<PendingOp> = self.pending@;
        proof {
            assert(calls@ + spec_apply_pending(self.slots@, self.pending@).1 =~= spec_apply_pending(
                self.slots@,
                self.pending@,
            ).1);
        }
        while self.pending.len() > 0
            invariant
                self.dispatching is None,
                self.next_serial == old(self).spec_next_serial(),
                self.slots@.len() == kind_count(),
                forall|i: int|
                    0 <= i < self.slots@.len() ==> (#[trigger] self.slots@[i].entry) is Some
                        ==> self.slots@[i].foreign_attached,
                spec_apply_pending(slots0, ops0).0 == spec_apply_pending(
                    self.slots@,
                    self.pending@,
                ).0,
                spec_apply_pending(slots0, ops0).1 == calls@ + spec_apply_pending(
                    self.slots@,
                    self.pending@,
                ).1,
            decreases self.pending@.len(),
        {
            let ghost ops_before: Seq<PendingOp> = self.pending@;
            let ghost slots_before: Seq<Slot> = self.slots@;
            let ghost calls_before: Seq<ForeignCall> = calls@;
            let op = self.pending.remove(0);
            proof {
                assert(self.pending@ =~= ops_before.drop_first());
            }
            let call = Self::apply_op(&mut self.slots, op);
            match call {
                Some(c) => {
                    calls.push(c);
                },
                None => {},
            }
            proof {
                assert(calls_before + (spec_call_seq(call) + spec_apply_pending(
                    self.slots@,
                    self.pending@,
                ).1) =~= calls@ + spec_apply_pending(self.slots@, self.pending@).1);
            }
        }
        proof {
            assert(calls@ + spec_apply_pending(self.slots@, self.pending@).1 =~= calls@);
        }
        calls
    }
}

} // verus!
