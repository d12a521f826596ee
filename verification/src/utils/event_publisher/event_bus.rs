//! The buffer of domain events that one logical task has emitted and not yet
//! published.
//!
//! A buffer exists only inside a scope. Scopes nest: the innermost one
//! receives the events, and leaving it discards what it still holds.

use super::{AnyEvent, Event};
use vstd::prelude::*;

verus! {

/// The event scopes of one logical task, outermost first. A task that has
/// entered no scope has no buffer at all.
pub struct EventBuffer {
    scopes: Vec<Vec<Event>>,
}

/// Whether some scope is active.
pub open spec fn in_scope(scopes: Seq<Seq<Event>>) -> bool {
    scopes.len() > 0
}

/// The events waiting in the innermost scope, oldest first; none outside
/// any scope.
pub open spec fn pending(scopes: Seq<Seq<Event>>) -> Seq<Event> {
    if in_scope(scopes) {
        scopes.last()
    } else {
        Seq::empty()
    }
}

/// The scopes after `event` was pushed: appended to the innermost buffer, or
/// dropped outside any scope.
pub open spec fn pushed(scopes: Seq<Seq<Event>>, event: Event) -> Seq<Seq<Event>> {
    if in_scope(scopes) {
        scopes.update(scopes.len() - 1, scopes.last().push(event))
    } else {
        scopes
    }
}

/// The scopes after a drain: the innermost buffer is empty, all else is as
/// before.
pub open spec fn drained(scopes: Seq<Seq<Event>>) -> Seq<Seq<Event>> {
    if in_scope(scopes) {
        scopes.update(scopes.len() - 1, Seq::empty())
    } else {
        scopes
    }
}

impl View for EventBuffer {
    type V = Seq<Seq<Event>>;

    closed spec fn view(&self) -> Seq<Seq<Event>> {
        Seq::new(self.scopes@.len(), |i: int| self.scopes@[i]@)
    }
}

impl EventBuffer {
    /// The state of a task that has entered no scope.
    pub fn new() -> (buffer: EventBuffer)
        ensures
            buffer@ == Seq::<Seq<Event>>::empty(),
    {
        EventBuffer { scopes: Vec::new() }
    }

    /// Enters a scope with an empty buffer of its own.
    pub fn enter(&mut self)
        ensures
            final(self)@ == old(self)@.push(Seq::empty()),
    {
        self.scopes.push(Vec::new());
    }

    /// Leaves the innermost scope and discards whatever its buffer holds.
    /// Outside any scope nothing changes.
    pub fn leave(&mut self)
        ensures
            final(self)@ == if in_scope(old(self)@) {
                old(self)@.drop_last()
            } else {
                old(self)@
            },
    {
        let _ = self.scopes.pop();
    }

    /// Whether the task is inside a scope.
    pub fn is_active(&self) -> (active: bool)
        ensures
            active == in_scope(self@),
    {
        self.scopes.len() > 0
    }
}

/// Appends an event that is already wrapped to the innermost buffer. Outside
/// any scope the event is dropped and nothing changes.
pub fn push_event(buffer: &mut EventBuffer, event: Event)
    ensures
        final(buffer)@ == pushed(old(buffer)@, event),
{
    let depth = buffer.scopes.len();
    if depth > 0 {
        buffer.scopes[depth - 1].push(event);
    }
}

/// Wraps `event` and appends it to the innermost buffer. Outside any scope
/// the event is dropped and nothing changes.
pub fn push<T: AnyEvent>(buffer: &mut EventBuffer, event: T)
    ensures
        exists|wrapped: Event|
            wrapped.made_from(event) && final(buffer)@ == pushed(old(buffer)@, wrapped),
{
    let wrapped = Event::new(event);
    push_event(buffer, wrapped);
}

/// Empties the innermost buffer and returns what it held, oldest first.
/// Outside any scope the result is empty and nothing changes.
pub fn drain(buffer: &mut EventBuffer) -> (events: Vec<Event>)
    ensures
        events@ == pending(old(buffer)@),
        final(buffer)@ == drained(old(buffer)@),
{
    let mut events: Vec<Event> = Vec::new();
    let depth = buffer.scopes.len();
    if depth > 0 {
        std::mem::swap(&mut events, &mut buffer.scopes[depth - 1]);
    }
    events
}

/// The scopes after all of `events` were pushed, one after the other.
pub open spec fn pushed_all(scopes: Seq<Seq<Event>>, events: Seq<Event>) -> Seq<Seq<Event>>
    decreases events.len(),
{
    if events.len() == 0 {
        scopes
    } else {
        pushed(pushed_all(scopes, events.drop_last()), events.last())
    }
}

/// Outside any scope a pushed event is lost: the scopes stay as they were,
/// and a drain that follows finds nothing.
pub proof fn lemma_push_outside_scope_is_lost(scopes: Seq<Seq<Event>>, event: Event)
    requires
        !in_scope(scopes),
    ensures
        pushed(scopes, event) == scopes,
        pending(pushed(scopes, event)) == Seq::<Event>::empty(),
        drained(pushed(scopes, event)) == scopes,
{
}

/// Inside a scope the events wait in the order in which they were pushed,
/// behind those that waited before, and no other scope is touched.
pub proof fn lemma_pushes_keep_order(scopes: Seq<Seq<Event>>, events: Seq<Event>)
    requires
        in_scope(scopes),
    ensures
        pending(pushed_all(scopes, events)) == pending(scopes) + events,
        pushed_all(scopes, events) == scopes.update(
            scopes.len() - 1,
            pending(scopes) + events,
        ),
    decreases events.len(),
{
    if events.len() > 0 {
        lemma_pushes_keep_order(scopes, events.drop_last());
        assert(pending(scopes) + events =~= (pending(scopes) + events.drop_last()).push(
            events.last(),
        ));
    }
}

/// Two events pushed in a scope that was just entered are drained as these
/// two, first the one that was pushed first.
pub proof fn lemma_two_pushes_drain_in_order(scopes: Seq<Seq<Event>>, first: Event, second: Event)
    ensures
        pending(pushed(pushed(scopes.push(Seq::empty()), first), second)) == seq![first, second],
{
}

/// Whatever was pushed in a scope is gone when the scope is left: the
/// scopes are as they were before it was entered.
pub proof fn lemma_scope_discards_its_events(scopes: Seq<Seq<Event>>, events: Seq<Event>)
    ensures
        pushed_all(scopes.push(Seq::empty()), events).drop_last() == scopes,
{
    lemma_pushes_keep_order(scopes.push(Seq::empty()), events);
}

/// A drain leaves nothing behind for the next one, which changes nothing.
pub proof fn lemma_drain_twice(scopes: Seq<Seq<Event>>)
    ensures
        pending(drained(scopes)) == Seq::<Event>::empty(),
        drained(drained(scopes)) == drained(scopes),
{
}

} // verus!
