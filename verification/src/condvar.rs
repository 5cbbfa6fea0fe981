//! A condition variable layered on the mutex.
//!
//! The condition variable keeps a notification counter and a count of
//! waiting threads. A waiter, still holding the lock, registers itself and
//! captures the counter; it then releases the lock and parks on the counter,
//! telling the parking primitive the captured value. A notification
//! increments the counter before waking, so a notification that lands
//! between the release and the park changes the counter, the park call sees
//! a value different from the captured one and returns immediately, and the
//! wakeup is never lost. When nobody is registered, a notification skips the
//! counter bump and the wake entirely — observably identical, since there is
//! no parked thread to miss it.
//!
//! Each method is one atomic step of that protocol; `wait_prepare`,
//! `should_park` and `wait_finish` are the three steps the waiting side
//! performs around releasing and reacquiring its mutex.

use crate::mutex::Mutex;
use crate::mutex::MutexGuard;
use crate::mutex::UNLOCKED;
use vstd::prelude::*;

verus! {

/// Abstract state of a condition variable: the notification counter and the
/// number of registered waiters.
pub ghost struct CondvarModel {
    pub counter: u64,
    pub waiters: u64,
}

/// A condition-variable, always used together with a caller-supplied mutex:
/// it protects no value of its own.
pub struct Condvar {
    counter: u64,
    waiters: u64,
}

impl View for Condvar {
    type V = CondvarModel;

    closed spec fn view(&self) -> CondvarModel {
        CondvarModel { counter: self.counter, waiters: self.waiters }
    }
}

impl Condvar {
    /// A fresh condition variable with no pending notifications and no
    /// waiters.
    pub fn new() -> (c: Condvar)
        ensures
            c@.counter == 0,
            c@.waiters == 0,
    {
        Condvar { counter: 0, waiters: 0 }
    }

    /// How many threads are currently registered as waiters.
    pub fn waiter_count(&self) -> (r: u64)
        ensures
            r == self@.waiters,
    {
        self.waiters
    }

    /// First step of waiting, performed while still holding the mutex:
    /// register as a waiter and capture the current notification counter.
    /// The caller then releases its mutex, parks on the counter with
    /// `observed` as the expected value, and finishes with `wait_finish`.
    pub fn wait_prepare(&mut self) -> (observed: u64)
        requires
            old(self)@.waiters < u64::MAX,
        ensures
            final(self)@.counter == old(self)@.counter,
            final(self)@.waiters == old(self)@.waiters + 1,
            observed == old(self)@.counter,
    {
        self.waiters = self.waiters + 1;
        self.counter
    }

    /// The park decision: a futex-style wait on the counter blocks exactly
    /// when the counter still equals the value the waiter captured. Any
    /// notification issued since the capture has changed the counter, so the
    /// waiter falls through instead of blocking.
    pub fn should_park(&self, observed: u64) -> (r: bool)
        ensures
            r == (self@.counter == observed),
    {
        self.counter == observed
    }

    /// Last step of waiting, performed after the park call returns (for any
    /// reason — a wake or a spurious return): deregister. The caller then
    /// reacquires its mutex and rechecks its predicate, since wakeups may be
    /// spurious.
    pub fn wait_finish(&mut self)
        requires
            old(self)@.waiters > 0,
        ensures
            final(self)@.counter == old(self)@.counter,
            final(self)@.waiters == old(self)@.waiters - 1,
    {
        self.waiters = self.waiters - 1;
    }

    /// The waiting side in one piece: register and capture the counter,
    /// release the mutex, and — after the park on the captured value, which
    /// is where other threads run and notify — deregister and reacquire.
    /// The park itself sits between `wait_prepare` and `wait_finish`; a
    /// caller that interleaves with other threads drives the three steps
    /// around its own blocking, and in every case rechecks its predicate
    /// under the reacquired lock, since wakeups may be spurious.
    pub fn wait<T>(&mut self, mutex: &mut Mutex<T>, guard: MutexGuard) -> (g: MutexGuard)
        requires
            old(self)@.waiters < u64::MAX,
            old(mutex)@.state != UNLOCKED,
        ensures
            final(self)@.counter == old(self)@.counter,
            final(self)@.waiters == old(self)@.waiters,
            final(mutex)@.state != UNLOCKED,
            final(mutex)@.value == old(mutex)@.value,
    {
        let observed: u64 = self.wait_prepare();
        let _wake = mutex.unlock(guard);
        // The futex-style wait sits here: it blocks only while
        // `self.should_park(observed)` still holds, so a notification that
        // lands once the lock is released is seen as a changed counter and
        // never sleeps through.
        let reacquired = mutex.lock();
        self.wait_finish();
        reacquired.unwrap()
    }

    /// Notify one waiter: bump the counter and report that one parked
    /// thread must be woken. Skipped entirely when nobody is registered.
    pub fn notify_one(&mut self) -> (wake: bool)
        requires
            old(self)@.counter < u64::MAX,
        ensures
            wake == (old(self)@.waiters > 0),
            final(self)@.waiters == old(self)@.waiters,
            old(self)@.waiters > 0 ==> final(self)@.counter == old(self)@.counter + 1,
            old(self)@.waiters == 0 ==> final(self)@.counter == old(self)@.counter,
    {
        if self.waiters > 0 {
            self.counter = self.counter + 1;
            true
        } else {
            false
        }
    }

    /// Notify every waiter: bump the counter and report that all parked
    /// threads must be woken. Skipped entirely when nobody is registered.
    pub fn notify_all(&mut self) -> (wake: bool)
        requires
            old(self)@.counter < u64::MAX,
        ensures
            wake == (old(self)@.waiters > 0),
            final(self)@.waiters == old(self)@.waiters,
            old(self)@.waiters > 0 ==> final(self)@.counter == old(self)@.counter + 1,
            old(self)@.waiters == 0 ==> final(self)@.counter == old(self)@.counter,
    {
        if self.waiters > 0 {
            self.counter = self.counter + 1;
            true
        } else {
            false
        }
    }
}

// ------------------------------------------------------------------
// The lost-wakeup argument as a transition system.
// ------------------------------------------------------------------

/// What other threads can do to the condition variable between a waiter's
/// capture of the counter and its park decision.
pub enum CondvarEvent {
    /// Some thread notifies while at least one waiter is registered.
    Notify,
    /// Another thread registers as a waiter.
    Register,
    /// Another waiter deregisters.
    Deregister,
}

/// Whether `event` can happen in state `c`. A `Notify` event stands for a
/// notification that found a registered waiter (the skipped form leaves the
/// state untouched and is not an event at all).
pub open spec fn condvar_enabled(c: CondvarModel, event: CondvarEvent) -> bool {
    match event {
        CondvarEvent::Notify => c.waiters > 0 && c.counter < u64::MAX,
        CondvarEvent::Register => c.waiters < u64::MAX,
        CondvarEvent::Deregister => c.waiters > 0,
    }
}

/// The state after `event`, mirroring the contracts of the methods above.
pub open spec fn condvar_step(c: CondvarModel, event: CondvarEvent) -> CondvarModel {
    match event {
        CondvarEvent::Notify => CondvarModel { counter: (c.counter + 1) as u64, ..c },
        CondvarEvent::Register => CondvarModel { waiters: (c.waiters + 1) as u64, ..c },
        CondvarEvent::Deregister => CondvarModel { waiters: (c.waiters - 1) as u64, ..c },
    }
}

/// A trace is valid when every event is enabled in the state it meets.
pub open spec fn condvar_trace_valid(c: CondvarModel, events: Seq<CondvarEvent>) -> bool
    decreases events.len(),
{
    events.len() == 0 || (condvar_enabled(c, events[0]) && condvar_trace_valid(
        condvar_step(c, events[0]),
        events.skip(1),
    ))
}

/// The state a valid trace ends in.
pub open spec fn condvar_trace_run(c: CondvarModel, events: Seq<CondvarEvent>) -> CondvarModel
    decreases events.len(),
{
    if events.len() == 0 {
        c
    } else {
        condvar_trace_run(condvar_step(c, events[0]), events.skip(1))
    }
}

/// Whether a trace contains at least one notification.
pub open spec fn trace_notifies(events: Seq<CondvarEvent>) -> bool
    decreases events.len(),
{
    events.len() > 0 && (events[0] is Notify || trace_notifies(events.skip(1)))
}

/// The notification counter never decreases, and every notification that
/// found a waiter strictly increases it.
pub proof fn lemma_counter_monotonic(c: CondvarModel, events: Seq<CondvarEvent>)
    requires
        condvar_trace_valid(c, events),
    ensures
        condvar_trace_run(c, events).counter >= c.counter,
        trace_notifies(events) ==> condvar_trace_run(c, events).counter > c.counter,
    decreases events.len(),
{
    if events.len() > 0 {
        lemma_counter_monotonic(condvar_step(c, events[0]), events.skip(1));
    }
}

/// No lost wakeup: a waiter that captured the counter (with `wait_prepare`,
/// so it is registered) and then released its mutex cannot sleep through a
/// notification issued before it parks. Whatever other threads do in
/// between, if any of it was a notification, the counter no longer equals
/// the captured value, so the park decision is to return immediately rather
/// than block.
pub proof fn lemma_notify_not_lost(c: CondvarModel, events: Seq<CondvarEvent>)
    requires
        condvar_trace_valid(c, events),
        trace_notifies(events),
    ensures
        condvar_trace_run(c, events).counter != c.counter,
    decreases events.len(),
{
    lemma_counter_monotonic(c, events);
}

} // verus!
