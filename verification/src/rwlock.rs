//! A reader/writer lock that avoids writer starvation.
//!
//! The state word encodes the reader count times two, with bit 0 set while
//! a writer is waiting for or holding the lock; the all-ones sentinel means
//! writer-held. A reader joins by a CAS that adds two, but only while the
//! word is even: once a writer has announced itself by setting the low bit,
//! new readers park instead of being admitted, so the writer waits for at
//! most the readers that were already in. A writer with no readers in front
//! of it CASes the word straight to the sentinel; otherwise it sets the
//! announce bit and parks on a separate wake counter, bumped only by the
//! specific "last reader left while a writer waits" signal — not by every
//! change of the state word.
//!
//! Each method is one atomic step of that protocol; the lemmas at the end
//! prove the encoding invariant, mutual exclusion, and the starvation
//! bound.

use vstd::prelude::*;

verus! {

/// State word value: a writer holds the lock.
pub const WRITER_HELD: u32 = u32::MAX;

/// One wrapping increment of the writer wake counter: only changes of the
/// counter matter to a parked writer, never its absolute value.
pub open spec fn bumped(w: u32) -> u32 {
    if w == u32::MAX {
        0
    } else {
        (w + 1) as u32
    }
}

/// Abstract state of a reader/writer lock: the state word, the writer wake
/// counter, and the protected value.
pub ghost struct RwLockModel<T> {
    pub state: u32,
    pub writer_wake_counter: u32,
    pub value: T,
}

impl<T> RwLockModel<T> {
    /// How many readers hold the lock in this state.
    pub open spec fn readers(self) -> nat {
        if self.state == WRITER_HELD {
            0
        } else {
            (self.state / 2) as nat
        }
    }

    /// Whether a writer holds the lock in this state.
    pub open spec fn writer(self) -> bool {
        self.state == WRITER_HELD
    }

    /// Whether a writer has announced itself (is waiting or holding).
    pub open spec fn writer_announced(self) -> bool {
        self.state % 2 == 1
    }
}

/// A shared/exclusive lock protecting a value of type `T`.
pub struct RwLock<T> {
    state: u32,
    writer_wake_counter: u32,
    value: T,
}

impl<T> View for RwLock<T> {
    type V = RwLockModel<T>;

    closed spec fn view(&self) -> RwLockModel<T> {
        RwLockModel {
            state: self.state,
            writer_wake_counter: self.writer_wake_counter,
            value: self.value,
        }
    }
}

/// A scoped proof of shared access, produced by a successful `read` step
/// and consumed by `read_unlock`.
pub struct ReadGuard {
    _held: (),
}

/// A scoped proof of exclusive access, produced by a successful `write`
/// step and consumed by `write_unlock`.
pub struct WriteGuard {
    _held: (),
}

impl<T> RwLock<T> {
    /// A new, unlocked lock around `value`.
    pub fn new(value: T) -> (l: RwLock<T>)
        ensures
            l@.state == 0,
            l@.writer_wake_counter == 0,
            l@.value == value,
    {
        RwLock { state: 0, writer_wake_counter: 0, value }
    }

    /// One attempt of the reader path: if the word is even (no writer
    /// waiting or holding), a CAS adds two and admits the reader. If a
    /// writer has announced itself the word is left untouched and the
    /// caller parks on the state word, retrying when woken — this queueing
    /// of new readers behind the waiting writer is the starvation fix.
    ///
    /// The reader count saturating the encoding is a fatal error in the
    /// implementation, so that state is excluded here.
    pub fn read(&mut self) -> (g: Option<ReadGuard>)
        requires
            old(self)@.state % 2 == 1 || old(self)@.state < WRITER_HELD - 2,
        ensures
            final(self)@.value == old(self)@.value,
            final(self)@.writer_wake_counter == old(self)@.writer_wake_counter,
            old(self)@.state % 2 == 0 ==> final(self)@.state == old(self)@.state + 2
                && g is Some,
            old(self)@.state % 2 == 1 ==> final(self)@ == old(self)@ && g is None,
            g is Some <==> old(self)@.state % 2 == 0,
    {
        if self.state % 2 == 0 {
            self.state = self.state + 2;
            Some(ReadGuard { _held: () })
        } else {
            None
        }
    }

    /// One attempt of the writer path. With no readers in and no writer
    /// holding (word at most 1), a CAS takes the word straight to the
    /// writer-held sentinel. Otherwise, if the word is even, the writer
    /// announces itself by setting the low bit, blocking new readers; in
    /// either remaining case the caller then reads the wake counter with
    /// `wake_counter`, rechecks, and parks on that counter.
    pub fn write(&mut self) -> (g: Option<WriteGuard>)
        requires
            old(self)@.state % 2 == 1 || old(self)@.state < WRITER_HELD - 2,
        ensures
            final(self)@.value == old(self)@.value,
            final(self)@.writer_wake_counter == old(self)@.writer_wake_counter,
            old(self)@.state <= 1 ==> final(self)@.state == WRITER_HELD && g is Some,
            old(self)@.state > 1 && old(self)@.state % 2 == 0 ==> final(self)@.state
                == old(self)@.state + 1 && g is None,
            old(self)@.state > 1 && old(self)@.state % 2 == 1 ==> final(self)@ == old(self)@
                && g is None,
            g is Some <==> old(self)@.state <= 1,
    {
        if self.state <= 1 {
            self.state = WRITER_HELD;
            Some(WriteGuard { _held: () })
        } else if self.state % 2 == 0 {
            self.state = self.state + 1;
            None
        } else {
            None
        }
    }

    /// How many readers currently hold the lock.
    pub fn reader_count(&self) -> (r: u32)
        ensures
            r == self@.readers(),
    {
        if self.state == WRITER_HELD {
            0
        } else {
            self.state / 2
        }
    }

    /// Whether a writer currently holds the lock.
    pub fn writer_held(&self) -> (r: bool)
        ensures
            r == self@.writer(),
    {
        self.state == WRITER_HELD
    }

    /// Whether a writer is waiting for or holding the lock.
    pub fn writer_announced(&self) -> (r: bool)
        ensures
            r == self@.writer_announced(),
    {
        self.state % 2 == 1
    }

    /// The wake counter, read by a writer about to park: a futex-style wait
    /// on the counter blocks only while it still holds the value read here,
    /// so the "last reader left" bump cannot slip by unnoticed between the
    /// recheck and the park.
    pub fn wake_counter(&self) -> (w: u32)
        ensures
            w == self@.writer_wake_counter,
    {
        self.writer_wake_counter
    }

    /// A reader leaves: subtract two from the word. If that leaves exactly
    /// the announce bit — no readers remain and a writer is waiting — the
    /// wake counter is bumped and the result asks the caller to wake one
    /// writer.
    pub fn read_unlock(&mut self, _guard: ReadGuard) -> (wake_writer: bool)
        requires
            old(self)@.state != WRITER_HELD,
            old(self)@.readers() > 0,
        ensures
            final(self)@.value == old(self)@.value,
            final(self)@.state == old(self)@.state - 2,
            wake_writer == (old(self)@.state == 3),
            wake_writer ==> final(self)@.writer_wake_counter == bumped(
                old(self)@.writer_wake_counter,
            ),
            !wake_writer ==> final(self)@.writer_wake_counter == old(self)@.writer_wake_counter,
    {
        self.state = self.state - 2;
        if self.state == 1 {
            self.writer_wake_counter = self.writer_wake_counter.wrapping_add(1);
            true
        } else {
            false
        }
    }

    /// The writer leaves: reset the word to zero, bump the wake counter,
    /// and ask the caller to wake one parked writer (harmless when none
    /// waits) and all readers parked on the state word, so every blocked
    /// thread rechecks and proceeds.
    pub fn write_unlock(&mut self, _guard: WriteGuard)
        requires
            old(self)@.state == WRITER_HELD,
        ensures
            final(self)@.value == old(self)@.value,
            final(self)@.state == 0,
            final(self)@.writer_wake_counter == bumped(old(self)@.writer_wake_counter),
    {
        self.state = 0;
        self.writer_wake_counter = self.writer_wake_counter.wrapping_add(1);
    }
}

impl ReadGuard {
    /// Shared access to the protected value while read-locked.
    pub fn value<'a, T>(&self, l: &'a RwLock<T>) -> (r: &'a T)
        requires
            l@.readers() > 0,
        ensures
            *r == l@.value,
    {
        &l.value
    }
}

impl WriteGuard {
    /// Shared access to the protected value while write-locked.
    pub fn value<'a, T>(&self, l: &'a RwLock<T>) -> (r: &'a T)
        requires
            l@.writer(),
        ensures
            *r == l@.value,
    {
        &l.value
    }

    /// Exclusive access to the protected value while write-locked.
    pub fn value_mut<'a, T>(&self, l: &'a mut RwLock<T>) -> (r: &'a mut T)
        requires
            old(l)@.writer(),
        ensures
            *r == old(l)@.value,
            final(l)@.value == *final(r),
            final(l)@.state == old(l)@.state,
            final(l)@.writer_wake_counter == old(l)@.writer_wake_counter,
    {
        &mut l.value
    }
}

// ------------------------------------------------------------------
// The protocol as a transition system, and what it guarantees.
// ------------------------------------------------------------------

/// One thread-visible event on the lock.
pub enum RwLockEvent {
    /// A reader's acquisition attempt (one `read` step).
    TryRead,
    /// A writer's acquisition attempt (one `write` step).
    TryWrite,
    /// A reader leaves.
    ReadUnlock,
    /// The writer leaves.
    WriteUnlock,
}

/// Accounting state for a trace: the lock together with how many read and
/// write guards are outstanding.
pub ghost struct RwTrace {
    pub lock: RwLockModel<u64>,
    pub read_guards: nat,
    pub write_guards: nat,
}

impl RwTrace {
    /// The guard accounting matches the state word: the outstanding guards
    /// are exactly the ones the encoding records.
    pub open spec fn inv(self) -> bool {
        &&& self.read_guards == self.lock.readers()
        &&& self.write_guards == (if self.lock.writer() {
            1nat
        } else {
            0nat
        })
    }
}

/// Whether `event` can happen in state `t`. Acquisition attempts are always
/// allowed (a failed attempt leaves the lock as it was); releases need an
/// outstanding guard of the right kind. An attempt that would overflow the
/// reader encoding is the fatal case and is not an event.
pub open spec fn rw_enabled(t: RwTrace, event: RwLockEvent) -> bool {
    match event {
        RwLockEvent::TryRead => t.lock.state % 2 == 1 || t.lock.state < WRITER_HELD - 2,
        RwLockEvent::TryWrite => t.lock.state % 2 == 1 || t.lock.state < WRITER_HELD - 2,
        RwLockEvent::ReadUnlock => t.read_guards > 0 && !t.lock.writer(),
        RwLockEvent::WriteUnlock => t.write_guards > 0 && t.lock.writer(),
    }
}

/// The state after `event`, mirroring the contracts of the methods above.
pub open spec fn rw_step(t: RwTrace, event: RwLockEvent) -> RwTrace {
    match event {
        RwLockEvent::TryRead => {
            if t.lock.state % 2 == 0 {
                RwTrace {
                    lock: RwLockModel { state: (t.lock.state + 2) as u32, ..t.lock },
                    read_guards: t.read_guards + 1,
                    ..t
                }
            } else {
                t
            }
        },
        RwLockEvent::TryWrite => {
            if t.lock.state <= 1 {
                RwTrace {
                    lock: RwLockModel { state: WRITER_HELD, ..t.lock },
                    write_guards: t.write_guards + 1,
                    ..t
                }
            } else if t.lock.state % 2 == 0 {
                RwTrace { lock: RwLockModel { state: (t.lock.state + 1) as u32, ..t.lock }, ..t }
            } else {
                t
            }
        },
        RwLockEvent::ReadUnlock => RwTrace {
            lock: RwLockModel {
                state: (t.lock.state - 2) as u32,
                writer_wake_counter: if t.lock.state == 3 {
                    bumped(t.lock.writer_wake_counter)
                } else {
                    t.lock.writer_wake_counter
                },
                ..t.lock
            },
            read_guards: (t.read_guards - 1) as nat,
            ..t
        },
        RwLockEvent::WriteUnlock => RwTrace {
            lock: RwLockModel {
                state: 0,
                writer_wake_counter: bumped(t.lock.writer_wake_counter),
                ..t.lock
            },
            write_guards: (t.write_guards - 1) as nat,
            ..t
        },
    }
}

/// A trace is valid when every event is enabled in the state it meets.
pub open spec fn rw_trace_valid(t: RwTrace, events: Seq<RwLockEvent>) -> bool
    decreases events.len(),
{
    events.len() == 0 || (rw_enabled(t, events[0]) && rw_trace_valid(
        rw_step(t, events[0]),
        events.skip(1),
    ))
}

/// The state a valid trace ends in.
pub open spec fn rw_trace_run(t: RwTrace, events: Seq<RwLockEvent>) -> RwTrace
    decreases events.len(),
{
    if events.len() == 0 {
        t
    } else {
        rw_trace_run(rw_step(t, events[0]), events.skip(1))
    }
}

/// The guard accounting is an invariant of every step.
pub proof fn lemma_rw_step_inv(t: RwTrace, event: RwLockEvent)
    requires
        t.inv(),
        rw_enabled(t, event),
    ensures
        rw_step(t, event).inv(),
{
}

/// Readers and writers never coexist: in every reachable state, either no
/// write guard is outstanding, or exactly one is and no read guard exists.
/// A writer holds the lock alone.
pub proof fn lemma_no_reader_writer_overlap(t: RwTrace, events: Seq<RwLockEvent>)
    requires
        t.inv(),
        rw_trace_valid(t, events),
    ensures
        rw_trace_run(t, events).inv(),
        rw_trace_run(t, events).write_guards > 0 ==> rw_trace_run(t, events).read_guards == 0
            && rw_trace_run(t, events).write_guards == 1,
    decreases events.len(),
{
    if events.len() > 0 {
        lemma_rw_step_inv(t, events[0]);
        lemma_no_reader_writer_overlap(rw_step(t, events[0]), events.skip(1));
    }
}

/// Whether any read attempt in the trace succeeded.
pub open spec fn trace_admits_reader(t: RwTrace, events: Seq<RwLockEvent>) -> bool
    decreases events.len(),
{
    events.len() > 0 && ((events[0] is TryRead && t.lock.state % 2 == 0) || trace_admits_reader(
        rw_step(t, events[0]),
        events.skip(1),
    ))
}

/// Whether any write attempt in the trace succeeded.
pub open spec fn trace_admits_writer(t: RwTrace, events: Seq<RwLockEvent>) -> bool
    decreases events.len(),
{
    events.len() > 0 && ((events[0] is TryWrite && t.lock.state <= 1) || trace_admits_writer(
        rw_step(t, events[0]),
        events.skip(1),
    ))
}

/// How many `read_unlock` steps a trace contains.
pub open spec fn count_read_unlocks(events: Seq<RwLockEvent>) -> nat
    decreases events.len(),
{
    if events.len() == 0 {
        0
    } else {
        (if events[0] is ReadUnlock { 1nat } else { 0nat }) + count_read_unlocks(events.skip(1))
    }
}

/// The starvation fix: from any state in which a writer has announced
/// itself but not yet entered, no new reader is admitted before some
/// writer acquires the lock, however many readers keep arriving and
/// retrying; the reader count falls by exactly one per release. A writer
/// that starts waiting behind R readers therefore waits for exactly those
/// R releases — see `lemma_writer_admitted_when_drained` for the moment
/// they are gone.
pub proof fn lemma_writer_not_starved(t: RwTrace, events: Seq<RwLockEvent>)
    requires
        t.inv(),
        t.lock.writer_announced(),
        !t.lock.writer(),
        rw_trace_valid(t, events),
        !trace_admits_writer(t, events),
    ensures
        !trace_admits_reader(t, events),
        rw_trace_run(t, events).lock.writer_announced(),
        !rw_trace_run(t, events).lock.writer(),
        rw_trace_run(t, events).lock.readers() == t.lock.readers() - count_read_unlocks(events),
    decreases events.len(),
{
    if events.len() > 0 {
        lemma_rw_step_inv(t, events[0]);
        lemma_writer_not_starved(rw_step(t, events[0]), events.skip(1));
    }
}

/// Once the readers a waiting writer found are drained, the next write
/// attempt is the one that succeeds: with the announce bit set and no
/// readers left, the state word is exactly 1, and `write` promises
/// acquisition from there.
pub proof fn lemma_writer_admitted_when_drained(t: RwTrace, events: Seq<RwLockEvent>)
    requires
        t.inv(),
        t.lock.writer_announced(),
        !t.lock.writer(),
        rw_trace_valid(t, events),
        !trace_admits_writer(t, events),
        count_read_unlocks(events) == t.lock.readers(),
    ensures
        rw_trace_run(t, events).lock.state == 1,
        rw_enabled(rw_trace_run(t, events), RwLockEvent::TryWrite),
        rw_step(rw_trace_run(t, events), RwLockEvent::TryWrite).lock.writer(),
{
    lemma_writer_not_starved(t, events);
    let end = rw_trace_run(t, events);
    assert(end.lock.readers() == 0);
    assert(end.lock.state % 2 == 1 && end.lock.state != WRITER_HELD);
    assert(end.lock.state / 2 == 0);
}

} // verus!
