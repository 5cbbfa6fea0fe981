//! Shared ownership with strong and weak references.
//!
//! A control block holds a strong count, a combined allocation count
//! (strong side plus weak handles), and the value. The value is live
//! exactly while the strong count is positive; the block itself is live
//! exactly while the allocation count is positive; all the strong handles
//! together hold one allocation reference, released by whichever drop takes
//! the strong count to zero. Increments are cheap and unordered; only the
//! decrement that observes a count reaching zero pairs a release store with
//! an acquire fence, so the thread doing the teardown sees every earlier
//! use. A count growing past a large threshold aborts the process in the
//! implementation — continuing would risk wraparound and use-after-free —
//! so those states are excluded from the contracts here.
//!
//! `Arc` and `Weak` are handle tokens: holding one is the right to perform
//! the corresponding handle operations on the block, and the contracts
//! require of the block exactly what an outstanding handle of that kind
//! guarantees. Each method is one atomic step of the protocol; the lemmas
//! at the end prove that along any interleaving the value's destructor runs
//! exactly once, strictly after the last strong handle drops, and that a
//! dead value never comes back.

use vstd::prelude::*;

verus! {

/// Allocation-count sentinel: `get_mut` parks the count here while it
/// checks uniqueness, excluding a racing `downgrade`.
pub const ALLOC_LOCKED: u64 = u64::MAX;

/// A count observed beyond this threshold aborts the process before it can
/// wrap around.
pub const REF_LIMIT: u64 = u64::MAX / 2;

/// Abstract state of a control block.
pub ghost struct ArcModel<T> {
    pub strong: u64,
    pub alloc: u64,
    pub value: Option<T>,
}

impl<T> ArcModel<T> {
    /// The block's invariant: the value is live exactly while strong
    /// handles exist, and the strong side holds an allocation reference.
    pub open spec fn wf(self) -> bool {
        &&& self.value is Some <==> self.strong > 0
        &&& self.strong > 0 ==> self.alloc > 0
    }
}

/// The control block: counts and storage for the value.
pub struct ArcBlock<T> {
    strong: u64,
    alloc: u64,
    value: Option<T>,
}

impl<T> View for ArcBlock<T> {
    type V = ArcModel<T>;

    closed spec fn view(&self) -> ArcModel<T> {
        ArcModel { strong: self.strong, alloc: self.alloc, value: self.value }
    }
}

/// A strong handle: asserts that the value is live.
pub struct Arc {
    _held: (),
}

/// A weak handle: asserts only that the block is live; the value may
/// already be gone.
pub struct Weak {
    _held: (),
}

impl<T> ArcBlock<T> {
    /// The number of strong handles in existence.
    pub fn strong_count(&self) -> (r: u64)
        ensures
            r == self@.strong,
    {
        self.strong
    }

    /// The allocation count: the weak handles plus one reference held
    /// jointly by the strong handles.
    pub fn alloc_count(&self) -> (r: u64)
        ensures
            r == self@.alloc,
    {
        self.alloc
    }
}

impl Arc {
    /// Allocate a block holding `value`, with one strong handle and its
    /// allocation reference.
    pub fn new<T>(value: T) -> (r: (ArcBlock<T>, Arc))
        ensures
            r.0@.strong == 1,
            r.0@.alloc == 1,
            r.0@.value == Some(value),
            r.0@.wf(),
    {
        (ArcBlock { strong: 1, alloc: 1, value: Some(value) }, Arc { _held: () })
    }

    /// Shared access to the value: it is live while a strong handle
    /// exists.
    pub fn value<'a, T>(&self, block: &'a ArcBlock<T>) -> (r: &'a T)
        requires
            block@.wf(),
            block@.strong >= 1,
        ensures
            block@.value == Some(*r),
    {
        block.value.as_ref().unwrap()
    }

    /// A new strong handle: one unordered increment of the strong count —
    /// no data travels between the cloning threads at this point. A count
    /// beyond the abort threshold is excluded.
    pub fn clone<T>(&self, block: &mut ArcBlock<T>) -> (handle: Arc)
        requires
            old(block)@.wf(),
            old(block)@.strong >= 1,
            old(block)@.strong <= REF_LIMIT,
        ensures
            final(block)@.strong == old(block)@.strong + 1,
            final(block)@.alloc == old(block)@.alloc,
            final(block)@.value == old(block)@.value,
            final(block)@.wf(),
    {
        block.strong = block.strong + 1;
        Arc { _held: () }
    }

    /// Drop a strong handle: a release decrement of the strong count. The
    /// drop that takes the count to zero acquires, runs the value's
    /// destructor exactly once — here, hands the value out, which is the
    /// same by linearity — and releases the strong side's allocation
    /// reference.
    pub fn drop_handle<T>(self, block: &mut ArcBlock<T>) -> (last: Option<T>)
        requires
            old(block)@.wf(),
            old(block)@.strong >= 1,
        ensures
            final(block)@.wf(),
            final(block)@.strong == old(block)@.strong - 1,
            old(block)@.strong > 1 ==> final(block)@.alloc == old(block)@.alloc,
            old(block)@.strong > 1 ==> final(block)@.value == old(block)@.value && last is None,
            old(block)@.strong == 1 ==> final(block)@.alloc == old(block)@.alloc - 1,
            old(block)@.strong == 1 ==> final(block)@.value is None && last == old(block)@.value
                && last is Some,
    {
        block.strong = block.strong - 1;
        if block.strong == 0 {
            block.alloc = block.alloc - 1;
            block.value.take()
        } else {
            None
        }
    }

    /// A new weak handle from a strong one: one increment of the
    /// allocation count, retried around `get_mut`'s transient lock. An
    /// allocation count at the sentinel's edge is the fatal overflow case
    /// and is excluded.
    pub fn downgrade<T>(&self, block: &mut ArcBlock<T>) -> (handle: Weak)
        requires
            old(block)@.wf(),
            old(block)@.strong >= 1,
            old(block)@.alloc < ALLOC_LOCKED - 1,
        ensures
            final(block)@.strong == old(block)@.strong,
            final(block)@.alloc == old(block)@.alloc + 1,
            final(block)@.value == old(block)@.value,
            final(block)@.wf(),
    {
        block.alloc = block.alloc + 1;
        Weak { _held: () }
    }

    /// Exclusive access, granted only to the sole owner of both value and
    /// block. The allocation count is parked at a sentinel while the
    /// strong count is checked, so no weak handle can appear between the
    /// check and the grant; the count is restored before the answer is
    /// given.
    pub fn get_mut<'a, T>(&self, block: &'a mut ArcBlock<T>) -> (r: Option<&'a mut T>)
        requires
            old(block)@.wf(),
            old(block)@.strong >= 1,
        ensures
            r is Some <==> old(block)@.strong == 1 && old(block)@.alloc == 1,
            r is None ==> final(block)@ == old(block)@,
            r is Some ==> final(block)@.strong == 1 && final(block)@.alloc == 1 && *r.unwrap()
                == old(block)@.value.unwrap() && final(block)@.value == Some(*final(r.unwrap()))
                && final(block)@.wf(),
    {
        if block.alloc != 1 {
            return None;
        }
        block.alloc = ALLOC_LOCKED;
        let unique: bool = block.strong == 1;
        block.alloc = 1;
        if !unique {
            return None;
        }
        block.value.as_mut()
    }
}

impl Weak {
    /// Try to recover a strong handle: an increment of the strong count
    /// that succeeds only while the count is still positive. Once the
    /// value has been dropped this returns nothing, and keeps returning
    /// nothing forever — see `lemma_upgrade_monotonic`.
    pub fn upgrade<T>(&self, block: &mut ArcBlock<T>) -> (handle: Option<Arc>)
        requires
            old(block)@.wf(),
            old(block)@.alloc >= 1,
            old(block)@.strong < u64::MAX,
        ensures
            final(block)@.wf(),
            handle is Some <==> old(block)@.strong > 0,
            old(block)@.strong > 0 ==> final(block)@.strong == old(block)@.strong + 1,
            old(block)@.strong == 0 ==> final(block)@ == old(block)@,
            final(block)@.alloc == old(block)@.alloc,
            final(block)@.value == old(block)@.value,
    {
        if block.strong == 0 {
            None
        } else {
            block.strong = block.strong + 1;
            Some(Arc { _held: () })
        }
    }

    /// A new weak handle from a weak one: one unordered increment of the
    /// allocation count.
    pub fn clone<T>(&self, block: &mut ArcBlock<T>) -> (handle: Weak)
        requires
            old(block)@.wf(),
            old(block)@.alloc >= 1,
            old(block)@.alloc <= REF_LIMIT,
        ensures
            final(block)@.strong == old(block)@.strong,
            final(block)@.alloc == old(block)@.alloc + 1,
            final(block)@.value == old(block)@.value,
            final(block)@.wf(),
    {
        block.alloc = block.alloc + 1;
        Weak { _held: () }
    }

    /// Drop a weak handle: a release decrement of the allocation count.
    /// The drop that takes it to zero frees the block — reported as the
    /// result, since by then no handle of any kind remains. The strong
    /// side's own allocation reference is not droppable through a weak
    /// handle, which is what the last precondition records.
    pub fn drop_handle<T>(self, block: &mut ArcBlock<T>) -> (freed: bool)
        requires
            old(block)@.wf(),
            old(block)@.alloc >= 1,
            old(block)@.strong > 0 ==> old(block)@.alloc > 1,
        ensures
            final(block)@.wf(),
            final(block)@.strong == old(block)@.strong,
            final(block)@.alloc == old(block)@.alloc - 1,
            final(block)@.value == old(block)@.value,
            freed == (final(block)@.alloc == 0),
    {
        block.alloc = block.alloc - 1;
        block.alloc == 0
    }
}

// ------------------------------------------------------------------
// The handle protocol as a transition system.
// ------------------------------------------------------------------

/// Accounting state for a trace: the counts, whether the value is live,
/// how many handles of each kind are outstanding, and how many times the
/// value's destructor has run.
pub ghost struct ArcTrace {
    pub strong: u64,
    pub alloc: u64,
    pub live: bool,
    pub arcs: nat,
    pub weaks: nat,
    pub destroyed: nat,
}

impl ArcTrace {
    /// The state of a freshly allocated block with one strong handle.
    pub open spec fn fresh() -> ArcTrace {
        ArcTrace { strong: 1, alloc: 1, live: true, arcs: 1, weaks: 0, destroyed: 0 }
    }

    /// The counts are exactly the outstanding handles: each strong handle
    /// is counted once, the weak side counts the weak handles plus one
    /// allocation reference shared by all strong handles, the value is
    /// live while strong handles exist, and its destructor has run exactly
    /// once afterwards.
    pub open spec fn inv(self) -> bool {
        &&& self.arcs == self.strong
        &&& self.alloc == self.weaks + (if self.strong > 0 {
            1nat
        } else {
            0nat
        })
        &&& (self.live <==> self.strong > 0)
        &&& self.destroyed == (if self.live {
            0nat
        } else {
            1nat
        })
    }
}

/// One handle operation, performed by whichever thread holds the handle.
pub enum ArcEvent {
    /// A strong handle is cloned.
    CloneArc,
    /// A strong handle is dropped.
    DropArc,
    /// A weak handle is made from a strong one.
    Downgrade,
    /// A weak handle is cloned.
    CloneWeak,
    /// A weak handle is dropped.
    DropWeak,
    /// A weak handle attempts an upgrade (succeeding only while the value
    /// is live).
    Upgrade,
}

/// Whether `event` can happen in state `t`: the thread must hold a handle
/// of the right kind, and the fatal overflow states are not events.
pub open spec fn arc_enabled(t: ArcTrace, event: ArcEvent) -> bool {
    match event {
        ArcEvent::CloneArc => t.arcs >= 1 && t.strong <= REF_LIMIT,
        ArcEvent::DropArc => t.arcs >= 1,
        ArcEvent::Downgrade => t.arcs >= 1 && t.alloc < ALLOC_LOCKED - 1,
        ArcEvent::CloneWeak => t.weaks >= 1 && t.alloc <= REF_LIMIT,
        ArcEvent::DropWeak => t.weaks >= 1,
        ArcEvent::Upgrade => t.weaks >= 1 && t.strong < u64::MAX,
    }
}

/// The state after `event`, mirroring the contracts of the methods above.
pub open spec fn arc_step(t: ArcTrace, event: ArcEvent) -> ArcTrace {
    match event {
        ArcEvent::CloneArc => ArcTrace {
            strong: (t.strong + 1) as u64,
            arcs: t.arcs + 1,
            ..t
        },
        ArcEvent::DropArc => {
            if t.strong == 0 {
                t
            } else if t.strong == 1 {
                ArcTrace {
                    strong: 0,
                    alloc: (t.alloc - 1) as u64,
                    live: false,
                    arcs: (t.arcs - 1) as nat,
                    destroyed: t.destroyed + 1,
                    ..t
                }
            } else {
                ArcTrace { strong: (t.strong - 1) as u64, arcs: (t.arcs - 1) as nat, ..t }
            }
        },
        ArcEvent::Downgrade => ArcTrace {
            alloc: (t.alloc + 1) as u64,
            weaks: t.weaks + 1,
            ..t
        },
        ArcEvent::CloneWeak => ArcTrace { alloc: (t.alloc + 1) as u64, weaks: t.weaks + 1, ..t },
        ArcEvent::DropWeak => ArcTrace {
            alloc: (t.alloc - 1) as u64,
            weaks: (t.weaks - 1) as nat,
            ..t
        },
        ArcEvent::Upgrade => {
            if t.strong > 0 {
                ArcTrace { strong: (t.strong + 1) as u64, arcs: t.arcs + 1, ..t }
            } else {
                t
            }
        },
    }
}

/// A trace is valid when every event is enabled in the state it meets.
pub open spec fn arc_trace_valid(t: ArcTrace, events: Seq<ArcEvent>) -> bool
    decreases events.len(),
{
    events.len() == 0 || (arc_enabled(t, events[0]) && arc_trace_valid(
        arc_step(t, events[0]),
        events.skip(1),
    ))
}

/// The state a valid trace ends in.
pub open spec fn arc_trace_run(t: ArcTrace, events: Seq<ArcEvent>) -> ArcTrace
    decreases events.len(),
{
    if events.len() == 0 {
        t
    } else {
        arc_trace_run(arc_step(t, events[0]), events.skip(1))
    }
}

/// The handle accounting is an invariant of every step.
pub proof fn lemma_arc_step_inv(t: ArcTrace, event: ArcEvent)
    requires
        t.inv(),
        arc_enabled(t, event),
    ensures
        arc_step(t, event).inv(),
{
}

/// The destructor runs exactly once, strictly after the last strong handle
/// drops: across any interleaving of handle operations from any number of
/// threads, a reachable state never has the destructor run while strong
/// handles remain, has it run exactly once when none remain, and never
/// more than once in any case.
pub proof fn lemma_destructor_once(events: Seq<ArcEvent>)
    requires
        arc_trace_valid(ArcTrace::fresh(), events),
    ensures
        arc_trace_run(ArcTrace::fresh(), events).inv(),
        arc_trace_run(ArcTrace::fresh(), events).destroyed <= 1,
        arc_trace_run(ArcTrace::fresh(), events).arcs > 0 ==> arc_trace_run(
            ArcTrace::fresh(),
            events,
        ).destroyed == 0,
        arc_trace_run(ArcTrace::fresh(), events).arcs == 0 ==> arc_trace_run(
            ArcTrace::fresh(),
            events,
        ).destroyed == 1,
{
    lemma_arc_trace_inv(ArcTrace::fresh(), events);
}

/// Any valid trace from a state satisfying the accounting invariant ends
/// in one.
pub proof fn lemma_arc_trace_inv(t: ArcTrace, events: Seq<ArcEvent>)
    requires
        t.inv(),
        arc_trace_valid(t, events),
    ensures
        arc_trace_run(t, events).inv(),
    decreases events.len(),
{
    if events.len() > 0 {
        lemma_arc_step_inv(t, events[0]);
        lemma_arc_trace_inv(arc_step(t, events[0]), events.skip(1));
    }
}

/// Death is monotonic: once the strong count has reached zero, no later
/// operation revives it, so `upgrade` never reverts from none to some.
pub proof fn lemma_upgrade_monotonic(t: ArcTrace, events: Seq<ArcEvent>)
    requires
        t.inv(),
        t.strong == 0,
        arc_trace_valid(t, events),
    ensures
        arc_trace_run(t, events).strong == 0,
        !arc_trace_run(t, events).live,
    decreases events.len(),
{
    if events.len() > 0 {
        lemma_arc_step_inv(t, events[0]);
        lemma_upgrade_monotonic(arc_step(t, events[0]), events.skip(1));
    }
}

/// `get_mut`'s test is exactly soleness: under the accounting invariant,
/// the counts it checks are one precisely when the caller's handle is the
/// only handle of any kind in existence.
pub proof fn lemma_get_mut_unique(t: ArcTrace)
    requires
        t.inv(),
    ensures
        (t.strong == 1 && t.alloc == 1) <==> (t.arcs == 1 && t.weaks == 0),
{
}

} // verus!
