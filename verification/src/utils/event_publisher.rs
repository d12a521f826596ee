//! Domain events and the publisher that broadcasts them to subscribers.

pub mod event_bus;

use crate::utils::text::debug_text;
use event_bus::{drain, drained, pending, EventBuffer};
use std::any::Any;
use std::fmt::Debug;
use std::sync::Arc;
use tokio::sync::broadcast::{Receiver, Sender};
use vstd::prelude::*;

verus! {

/// Anything that can travel as a domain event: a value that can be printed
/// for diagnostics, cloned for every subscriber and shared between tasks.
pub trait AnyEvent: Debug + Clone + Send + Sync + 'static {}

impl<T: Debug + Clone + Send + Sync + 'static> AnyEvent for T {}

/// A type-erased event payload.
///
/// The payload is held as `Arc<dyn Any + Send + Sync>`, which the verifier
/// cannot read; it is only ever created by [`erase`] and looked into by
/// [`peek`].
#[verifier::external_body]
struct Payload {
    inner: Arc<dyn Any + Send + Sync>,
}

impl Clone for Payload {
    /// `Arc::clone`: another pointer to the same stored value.
    #[verifier::external_body]
    fn clone(&self) -> (copy: Payload)
        ensures
            copy == *self,
    {
        Payload { inner: self.inner.clone() }
    }
}

/// A published domain event: the payload of some producing type together
/// with the text that the payload printed when the event was made.
pub struct Event {
    debug: String,
    inner: Payload,
}

impl Clone for Event {
    /// An event equal to this one, sharing its payload.
    fn clone(&self) -> (copy: Event)
        ensures
            copy == *self,
    {
        Event { debug: self.debug.clone(), inner: self.inner.clone() }
    }
}

/// `Arc::new`, followed by the coercion to `Arc<dyn Any + Send + Sync>`:
/// stores `value` behind a type-erased pointer.
#[verifier::external_body]
fn erase<T: AnyEvent>(value: T) -> Payload {
    Payload { inner: Arc::new(value) }
}

/// Whether `payload` is what [`erase`] returned for `value`.
spec fn stored_in<T: AnyEvent>(payload: Payload, value: T) -> bool {
    call_ensures(erase::<T>, (value,), payload)
}

/// `<dyn Any>::downcast_ref`: a reference to the stored value if it is a
/// `T`, and `None` for a value of any other type. So where the payload was
/// made from a value of the very type that is asked for, it is this value
/// that is found; and a value that is found is the one that the payload
/// was made from, as every payload is made by [`erase`].
#[verifier::external_body]
fn peek<T: AnyEvent>(payload: &Payload) -> (found: Option<&T>)
    ensures
        forall|value: T| #[trigger] stored_in(*payload, value) ==> found == Some(&value),
        found matches Some(stored) ==> stored_in(*payload, *stored),
{
    payload.inner.downcast_ref::<T>()
}

/// Whether `found` is a copy of `value`, as `Clone` makes it.
pub open spec fn is_copy_of<T: Clone>(found: Option<T>, value: T) -> bool {
    found matches Some(copy) && cloned(value, copy)
}

impl Event {
    /// The text that describes this event in logs and failure reports.
    pub closed spec fn description(&self) -> Seq<char> {
        self.debug@
    }

    /// Whether the payload of this event is `value`, stored behind a
    /// type-erased pointer.
    pub closed spec fn carries<T: AnyEvent>(&self, value: T) -> bool {
        stored_in(self.inner, value)
    }

    /// Whether the description of this event is what `value` printed
    /// through `Debug`.
    pub closed spec fn described_by<T: AnyEvent>(&self, value: T) -> bool {
        call_ensures(debug_text::<T>, (&value,), self.debug)
    }

    /// Whether this event is what wrapping `value` gives: it carries
    /// `value` and is described by it.
    pub open spec fn made_from<T: AnyEvent>(&self, value: T) -> bool {
        self.carries(value) && self.described_by(value)
    }

    /// Wraps a payload of any event type into an event.
    pub fn new<T: AnyEvent>(inner: T) -> (event: Event)
        ensures
            event.made_from(inner),
    {
        let debug = debug_text(&inner);
        Event { debug, inner: erase(inner) }
    }

    /// A copy of the payload if this event was made from a `T`, and `None`
    /// if it was made from any other type.
    ///
    /// Of an event that carries a `T` the result is a copy of what it
    /// carries; and whatever is returned is a copy of a `T` that the event
    /// carries.
    #[must_use]
    pub fn downcast<T: AnyEvent>(&self) -> (payload: Option<T>)
        ensures
            forall|value: T| #[trigger] self.carries(value) ==> is_copy_of(payload, value),
            payload matches Some(copy) ==> exists|value: T| #[trigger]
                self.carries(value) && cloned(value, copy),
    {
        match peek::<T>(&self.inner) {
            Some(value) => {
                let copy = value.clone();
                assert(self.carries(*value) && cloned(*value, copy));
                Some(copy)
            },
            None => None,
        }
    }

    /// The text that describes this event.
    pub fn describe(&self) -> (text: &String)
        ensures
            text@ == self.description(),
    {
        &self.debug
    }
}

/// The sending half of tokio's broadcast channel.
#[verifier::external_type_specification]
#[verifier::external_body]
#[verifier::reject_recursive_types(T)]
pub struct ExSender<T>(Sender<T>);

/// The receiving half of tokio's broadcast channel.
#[verifier::external_type_specification]
#[verifier::external_body]
#[verifier::reject_recursive_types(T)]
pub struct ExReceiver<T>(Receiver<T>);

/// How many events the channel retains for a subscriber that is slow to
/// read. A subscriber that falls further behind loses the oldest events.
pub const CAPACITY: usize = 10;

/// `tokio::sync::broadcast::channel`: a new channel that retains up to
/// `capacity` values, with its first receiver. The call panics on a
/// capacity of zero or of more than `usize::MAX / 2`.
#[verifier::external_body]
fn channel(capacity: usize) -> (Sender<Event>, Receiver<Event>)
    requires
        0 < capacity <= usize::MAX / 2,
{
    tokio::sync::broadcast::channel(capacity)
}

/// `Sender::send`: hands `event` to the channel. With at least one receiver
/// subscribed the channel keeps the event for them and the call returns
/// their number; with none the event comes back unsent.
#[verifier::external_body]
fn send_to(tx: &Sender<Event>, event: Event) -> (res: Result<usize, Event>)
    ensures
        res matches Ok(receivers) ==> receivers >= 1,
        res matches Err(unsent) ==> unsent == event,
{
    match tx.send(event) {
        Ok(receivers) => Ok(receivers),
        Err(unsent) => Err(unsent.0),
    }
}

/// `Sender::subscribe`: a new receiver, which will see the values that are
/// sent after this call. (The call panics only when the channel has a
/// quarter of `usize::MAX` receivers already, more than fit into memory.)
#[verifier::external_body]
fn subscribe_to(tx: &Sender<Event>) -> Receiver<Event> {
    tx.subscribe()
}

/// Broadcasts events to whoever has subscribed.
pub struct EventPublisher {
    tx: Sender<Event>,
    published: Ghost<Seq<Event>>,
}

/// What a publisher is: the channel that it sends on, and all the events
/// that it has published, in the order in which it handed them to the
/// channel.
pub struct Published {
    pub channel: Sender<Event>,
    pub events: Seq<Event>,
}

impl View for EventPublisher {
    type V = Published;

    closed spec fn view(&self) -> Published {
        Published { channel: self.tx, events: self.published@ }
    }
}

/// Whether `channel` is a channel that tokio made to retain `capacity`
/// events.
pub closed spec fn opened(channel: Sender<Event>, capacity: usize) -> bool {
    exists|first: Receiver<Event>| call_ensures(self::channel, (capacity,), (channel, first))
}

/// Whether `receivers` is what came of handing `event` to `channel` through
/// tokio's `send`: the number of receivers that the channel answered, or 0
/// where the channel gave the event back for want of a receiver.
pub closed spec fn handed(channel: Sender<Event>, event: Event, receivers: usize) -> bool {
    exists|res: Result<usize, Event>|
        call_ensures(send_to, (&channel, event), res) && receivers == (match res {
            Ok(answered) => answered,
            Err(_) => 0usize,
        })
}

/// Whether `event` was handed to `channel` through tokio's `send`.
pub open spec fn offered(channel: Sender<Event>, event: Event) -> bool {
    exists|receivers: usize| handed(channel, event, receivers)
}

impl EventPublisher {
    /// A publisher that has published nothing and has no subscriber yet,
    /// on a channel of its own that retains [`CAPACITY`] events.
    #[must_use]
    pub fn new() -> (publisher: EventPublisher)
        ensures
            publisher@.events == Seq::<Event>::empty(),
            opened(publisher@.channel, CAPACITY),
    {
        let (tx, _) = channel(CAPACITY);
        EventPublisher { tx, published: Ghost(Seq::empty()) }
    }

    /// Whether `receiver` is a receiver that tokio's `subscribe` made on
    /// the channel of this publisher.
    pub closed spec fn subscribed(&self, receiver: Receiver<Event>) -> bool {
        call_ensures(subscribe_to, (&self.tx,), receiver)
    }

    /// Subscribes to the events that are published from now on. What was
    /// published before is never delivered to the new subscriber.
    #[must_use]
    pub fn subscribe(&self) -> (receiver: Receiver<Event>)
        ensures
            self.subscribed(receiver),
    {
        subscribe_to(&self.tx)
    }

    /// Publishes `event` to every subscriber and returns their number. With
    /// no subscriber the event is dropped, which is no error.
    ///
    /// The event is handed to the channel of this publisher, the result is
    /// what the channel answered, and the event is the last that this
    /// publisher has published.
    pub fn publish(&mut self, event: Event) -> (receivers: usize)
        ensures
            handed(old(self)@.channel, event, receivers),
            final(self)@ == (Published {
                events: old(self)@.events.push(event),
                ..old(self)@
            }),
    {
        proof {
            self.published@ = self.published@.push(event);
        }
        match send_to(&self.tx, event) {
            Ok(receivers) => receivers,
            Err(_) => 0,
        }
    }

    /// Wraps `event` and publishes it to every subscriber; returns their
    /// number.
    pub fn send<T: AnyEvent>(&mut self, event: T) -> (receivers: usize)
        ensures
            exists|wrapped: Event| #[trigger]
                wrapped.made_from(event) && handed(old(self)@.channel, wrapped, receivers)
                    && final(self)@ == (Published {
                    events: old(self)@.events.push(wrapped),
                    ..old(self)@
                }),
    {
        self.publish(Event::new(event))
    }

    /// Publishes the events that wait in the innermost scope of `buffer`,
    /// oldest first, and leaves that scope's buffer empty. Returns how many
    /// events were published: none outside any scope or from an empty
    /// buffer.
    ///
    /// Every one of these events is handed to the channel of this
    /// publisher, and they are the last that this publisher has published.
    pub fn flush(&mut self, buffer: &mut EventBuffer) -> (count: usize)
        ensures
            forall|i: int|
                0 <= i < pending(old(buffer)@).len() ==> offered(
                    old(self)@.channel,
                    #[trigger] pending(old(buffer)@)[i],
                ),
            final(self)@ == (Published {
                events: old(self)@.events + pending(old(buffer)@),
                ..old(self)@
            }),
            final(buffer)@ == drained(old(buffer)@),
            count == pending(old(buffer)@).len(),
    {
        let events = drain(buffer);
        let count = events.len();
        let ghost before = self@;
        for event in iter: events
            invariant
                iter.seq() == pending(old(buffer)@),
                self@.channel == before.channel,
                self@.events == before.events + iter.seq().take(iter.index() as int),
                forall|i: int|
                    0 <= i < iter.index() ==> offered(before.channel, #[trigger] iter.seq()[i]),
        {
            self.publish(event);
        }
        assert(self@.events =~= before.events + pending(old(buffer)@));
        count
    }
}

/// A flush that follows a flush, with no push in between, publishes
/// nothing: what was published and what waits stay as the first flush left
/// them.
pub proof fn lemma_flush_twice(published: Seq<Event>, scopes: Seq<Seq<Event>>)
    ensures
        pending(drained(scopes)).len() == 0,
        (published + pending(scopes)) + pending(drained(scopes)) == published + pending(scopes),
        drained(drained(scopes)) == drained(scopes),
{
    event_bus::lemma_drain_twice(scopes);
}

impl Default for EventPublisher {
    fn default() -> (publisher: EventPublisher)
        ensures
            publisher@.events == Seq::<Event>::empty(),
            opened(publisher@.channel, CAPACITY),
    {
        EventPublisher::new()
    }
}

} // verus!
