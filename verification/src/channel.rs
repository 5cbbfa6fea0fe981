//! A one-shot channel: a single slot that hands at most one message from a
//! sender to a receiver.
//!
//! The channel is one message slot plus a readiness flag. Sending writes
//! the slot and then publishes it by setting the flag; receiving consumes
//! by swapping the flag back off, which atomically decides the unique
//! winner — exactly one receive observes a given send. Splitting a channel
//! requires exclusive access to the whole of it: it resets the slot and
//! hands out exactly one `Sender` and one `Receiver`, stamped with a fresh
//! generation so that a pair left over from an earlier split can no longer
//! touch the slot. A sender is consumed by its one `send`, so a second send
//! is structurally unreachable rather than checked at run time.
//!
//! A blocking receive parks while the flag is unset (`is_ready` is the poll
//! it wakes up to); the successful consumption step is `receive` below.

use vstd::prelude::*;

verus! {

/// Abstract state of a channel: the split generation, the slot, and the
/// readiness flag.
pub ghost struct ChannelModel<T> {
    pub generation: u64,
    pub message: Option<T>,
    pub ready: bool,
}

impl<T> ChannelModel<T> {
    /// The flag is set exactly while the slot holds an unconsumed message.
    pub open spec fn inv(self) -> bool {
        self.ready <==> self.message is Some
    }
}

/// The single-slot channel.
pub struct Channel<T> {
    generation: u64,
    message: Option<T>,
    ready: bool,
}

impl<T> View for Channel<T> {
    type V = ChannelModel<T>;

    closed spec fn view(&self) -> ChannelModel<T> {
        ChannelModel { generation: self.generation, message: self.message, ready: self.ready }
    }
}

/// The sending half of a split channel, good for exactly one `send` on the
/// generation it was created for.
pub struct Sender {
    generation: u64,
}

impl Sender {
    /// The split generation this sender belongs to.
    pub closed spec fn generation(&self) -> u64 {
        self.generation
    }
}

/// The receiving half of a split channel.
pub struct Receiver {
    generation: u64,
}

impl Receiver {
    /// The split generation this receiver belongs to.
    pub closed spec fn generation(&self) -> u64 {
        self.generation
    }
}

impl<T> Channel<T> {
    /// A new, empty channel.
    pub fn new() -> (c: Channel<T>)
        ensures
            c@.generation == 0,
            c@.message is None,
            !c@.ready,
            c@.inv(),
    {
        Channel { generation: 0, message: None, ready: false }
    }

    /// Split the channel into exactly one sender/receiver pair. Exclusive
    /// access (`&mut self`) is what makes a second outstanding pair
    /// impossible — there is no runtime check. The slot is reset, dropping
    /// an unconsumed message of an earlier round, and both halves are
    /// stamped with a fresh generation, so stale halves can never reach the
    /// slot again.
    pub fn split(&mut self) -> (pair: (Sender, Receiver))
        requires
            old(self)@.generation < u64::MAX,
        ensures
            final(self)@.generation == old(self)@.generation + 1,
            final(self)@.message is None,
            !final(self)@.ready,
            final(self)@.inv(),
            pair.0.generation() == final(self)@.generation,
            pair.1.generation() == final(self)@.generation,
    {
        self.generation = self.generation + 1;
        self.message = None;
        self.ready = false;
        (Sender { generation: self.generation }, Receiver { generation: self.generation })
    }

    /// Whether a message has been sent and not yet consumed. Advisory when
    /// polled from another thread; consumption itself goes through
    /// `receive`.
    pub fn is_ready(&self) -> (r: bool)
        ensures
            r == self@.ready,
    {
        self.ready
    }

    /// Send on an unsplit channel: write the slot, then publish it by
    /// setting the flag. Sending into a slot that is already full is a
    /// fatal misuse in the implementation, so that state is excluded here.
    pub fn send(&mut self, message: T)
        requires
            !old(self)@.ready,
        ensures
            final(self)@.generation == old(self)@.generation,
            final(self)@.message == Some(message),
            final(self)@.ready,
    {
        self.message = Some(message);
        self.ready = true;
    }

    /// Consume on an unsplit channel: swap the flag off and take the
    /// message. Receiving with nothing ready is fatal in the
    /// implementation, so that state is excluded here; a blocking caller
    /// parks until `is_ready` holds instead.
    pub fn receive(&mut self) -> (message: T)
        requires
            old(self)@.ready,
            old(self)@.inv(),
        ensures
            final(self)@.generation == old(self)@.generation,
            final(self)@.message is None,
            !final(self)@.ready,
            final(self)@.inv(),
            old(self)@.message == Some(message),
    {
        self.ready = false;
        self.message.take().unwrap()
    }

    /// Teardown: a channel destroyed while holding an unconsumed message
    /// hands it out so its destructor runs exactly once, decided solely by
    /// the readiness flag; a channel never sent to yields nothing.
    pub fn into_message(self) -> (message: Option<T>)
        requires
            self@.inv(),
        ensures
            self@.ready ==> message == self@.message && message is Some,
            !self@.ready ==> message is None,
    {
        if self.ready {
            self.message
        } else {
            None
        }
    }
}

/// A fresh channel already split into its one sender/receiver pair.
pub fn channel<T>() -> (r: (Channel<T>, Sender, Receiver))
    ensures
        r.0@.message is None,
        !r.0@.ready,
        r.0@.inv(),
        r.1.generation() == r.0@.generation,
        r.2.generation() == r.0@.generation,
{
    let mut c = Channel::new();
    let (s, rcv) = c.split();
    (c, s, rcv)
}

impl Sender {
    /// Send through a split half: write the slot, then publish. The sender
    /// is consumed, so a second send on this generation cannot be written
    /// at all; a stale sender from before the latest split is rejected by
    /// its generation stamp.
    pub fn send<T>(self, channel: &mut Channel<T>, message: T)
        requires
            self.generation() == old(channel)@.generation,
            !old(channel)@.ready,
        ensures
            final(channel)@.generation == old(channel)@.generation,
            final(channel)@.message == Some(message),
            final(channel)@.ready,
    {
        channel.message = Some(message);
        channel.ready = true;
    }
}

impl Receiver {
    /// Whether the matching send has published its message yet: the poll a
    /// parked receiver wakes up to.
    pub fn is_ready<T>(&self, channel: &Channel<T>) -> (r: bool)
        ensures
            r == channel@.ready,
    {
        channel.ready
    }

    /// Consume the message through a split half. The receiver is consumed:
    /// within one generation exactly one receive can observe the send.
    pub fn receive<T>(self, channel: &mut Channel<T>) -> (message: T)
        requires
            self.generation() == old(channel)@.generation,
            old(channel)@.ready,
            old(channel)@.inv(),
        ensures
            final(channel)@.generation == old(channel)@.generation,
            final(channel)@.message is None,
            !final(channel)@.ready,
            final(channel)@.inv(),
            old(channel)@.message == Some(message),
    {
        channel.receive()
    }
}

// ------------------------------------------------------------------
// Exactly-once delivery as a transition system.
// ------------------------------------------------------------------

/// One thread-visible event on the slot.
pub enum ChannelEvent<T> {
    /// A send publishes this message.
    Publish(T),
    /// A receive consumes the published message.
    Consume,
}

/// Whether `event` can happen: a send needs the slot free, and a receive is
/// the swap that succeeds only while the flag is set.
pub open spec fn channel_enabled<T>(c: ChannelModel<T>, event: ChannelEvent<T>) -> bool {
    match event {
        ChannelEvent::Publish(_) => !c.ready,
        ChannelEvent::Consume => c.ready,
    }
}

/// The slot after `event`, mirroring the contracts of the methods above.
pub open spec fn channel_step<T>(c: ChannelModel<T>, event: ChannelEvent<T>) -> ChannelModel<T> {
    match event {
        ChannelEvent::Publish(m) => ChannelModel { ready: true, message: Some(m), ..c },
        ChannelEvent::Consume => ChannelModel { ready: false, message: None, ..c },
    }
}

/// A trace is valid when every event is enabled in the state it meets.
pub open spec fn channel_trace_valid<T>(c: ChannelModel<T>, events: Seq<ChannelEvent<T>>) -> bool
    decreases events.len(),
{
    events.len() == 0 || (channel_enabled(c, events[0]) && channel_trace_valid(
        channel_step(c, events[0]),
        events.skip(1),
    ))
}

/// The state a valid trace ends in.
pub open spec fn channel_trace_run<T>(
    c: ChannelModel<T>,
    events: Seq<ChannelEvent<T>>,
) -> ChannelModel<T>
    decreases events.len(),
{
    if events.len() == 0 {
        c
    } else {
        channel_trace_run(channel_step(c, events[0]), events.skip(1))
    }
}

/// How many events of a trace are consumptions.
pub open spec fn count_consumes<T>(events: Seq<ChannelEvent<T>>) -> nat
    decreases events.len(),
{
    if events.len() == 0 {
        0
    } else {
        (if events[0] is Consume { 1nat } else { 0nat }) + count_consumes(events.skip(1))
    }
}

/// How many events of a trace are publications.
pub open spec fn count_publishes<T>(events: Seq<ChannelEvent<T>>) -> nat
    decreases events.len(),
{
    if events.len() == 0 {
        0
    } else {
        (if events[0] is Publish { 1nat } else { 0nat }) + count_publishes(events.skip(1))
    }
}

/// The slot invariant survives every interleaving: the flag is set exactly
/// while a message sits unconsumed, so a receive — enabled only on the set
/// flag — always observes exactly the message of the latest send, and
/// teardown's flag test decides the destructor correctly.
pub proof fn lemma_slot_invariant<T>(c: ChannelModel<T>, events: Seq<ChannelEvent<T>>)
    requires
        c.inv(),
        channel_trace_valid(c, events),
    ensures
        channel_trace_run(c, events).inv(),
    decreases events.len(),
{
    if events.len() > 0 {
        lemma_slot_invariant(channel_step(c, events[0]), events.skip(1));
    }
}

/// Exactly-once delivery: however sends and receives interleave, no more
/// receives can succeed than sends happened — each successful receive
/// consumes one distinct publication. One send is therefore observed by
/// exactly one receive: a second receive finds the flag already swapped off
/// and fails until another send publishes.
pub proof fn lemma_receive_once<T>(c: ChannelModel<T>, events: Seq<ChannelEvent<T>>)
    requires
        channel_trace_valid(c, events),
    ensures
        count_consumes(events) <= count_publishes(events) + (if c.ready {
            1nat
        } else {
            0nat
        }),
    decreases events.len(),
{
    if events.len() > 0 {
        lemma_receive_once(channel_step(c, events[0]), events.skip(1));
    }
}

} // verus!
