//! The named entity itself: a mutable name, the collection of registered
//! listener handles, the queue of pending events, and the shutdown flag.
//!
//! No operation registers a listener, queues an event, or requests shutdown:
//! both collections only ever hold what was placed in them, and the current
//! interface places nothing. Delivery of events is a known gap, kept out of
//! scope on purpose; the entity is storage and introspection only.

use crate::render::render_snapshot;
use crate::render::snapshot_text;
use vstd::prelude::*;

verus! {

/// The payload of a pending event: a tagged value that a consumer could
/// inspect without guessing its type.
pub enum EventPayload {
    /// A textual payload.
    Text(String),
    /// An integral payload.
    Integer(u64),
    /// A truth-valued payload.
    Flag(bool),
}

impl EventPayload {
    /// The textual payload, when the tag says there is one.
    pub fn as_text(&self) -> (r: Option<&String>)
        ensures
            (r is Some) == (*self is Text),
            r matches Some(t) ==> *self == EventPayload::Text(*t),
    {
        match self {
            EventPayload::Text(t) => Some(t),
            _ => None,
        }
    }

    /// The integral payload, when the tag says there is one.
    pub fn as_integer(&self) -> (r: Option<u64>)
        ensures
            (r is Some) == (*self is Integer),
            r matches Some(n) ==> *self == EventPayload::Integer(n),
    {
        match self {
            EventPayload::Integer(n) => Some(*n),
            _ => None,
        }
    }

    /// The truth-valued payload, when the tag says there is one.
    pub fn as_flag(&self) -> (r: Option<bool>)
        ensures
            (r is Some) == (*self is Flag),
            r matches Some(b) ==> *self == EventPayload::Flag(b),
    {
        match self {
            EventPayload::Flag(b) => Some(*b),
            _ => None,
        }
    }
}

/// A pending event: a label and a tagged payload.
pub struct Event {
    /// The label under which the event was queued.
    pub label: String,
    /// The value carried by the event.
    pub payload: EventPayload,
}

/// A registered observer slot. The entity only stores handles; it never
/// notifies them.
pub struct ListenerHandle {
    /// Identifies the registered observer to whoever registered it.
    pub id: u64,
}

/// A named entity with an observer registration slot and a pending-event
/// buffer.
pub struct Observable {
    /// The entity's current label; any text, including the empty text.
    pub name: String,
    /// The registered listener handles, in registration order.
    pub listeners: Vec<ListenerHandle>,
    /// The pending events, in arrival order; nothing consumes them.
    pub pending_events: Vec<Event>,
    /// Set when a holder asks the entity to wind down; never set here.
    pub shutdown_requested: bool,
}

impl Observable {
    /// An entity in which no listener is registered, no event is pending and
    /// no shutdown was requested: the only states the current interface can
    /// produce.
    pub open spec fn quiescent(self) -> bool {
        self.listeners@.len() == 0 && self.pending_events@.len() == 0 && !self.shutdown_requested
    }

    /// The text a debug snapshot of this entity renders to.
    pub open spec fn snapshot_spec(self) -> Seq<char> {
        snapshot_text(self.name@, self.listeners@.len(), self.pending_events@.len())
    }

    /// A bare, unshared entity: the given name, no listeners, no pending
    /// events, shutdown flag clear. Any name is accepted, the empty text too.
    pub fn new1(name: &str) -> (entity: Observable)
        ensures
            entity.name@ == name@,
            entity.quiescent(),
    {
        Observable {
            name: name.to_owned(),
            listeners: Vec::new(),
            pending_events: Vec::new(),
            shutdown_requested: false,
        }
    }

    /// Replaces the name unconditionally; no validation, no notification.
    /// Every other field is left as it was.
    pub fn set_name(&mut self, new_name: String)
        ensures
            final(self).name == new_name,
            final(self).listeners == old(self).listeners,
            final(self).pending_events == old(self).pending_events,
            final(self).shutdown_requested == old(self).shutdown_requested,
    {
        self.name = new_name;
    }

    /// How many listener handles are registered.
    pub fn observer_count(&self) -> (n: usize)
        ensures
            n == self.listeners@.len(),
    {
        self.listeners.len()
    }

    /// How many events are pending.
    pub fn event_queue_length(&self) -> (n: usize)
        ensures
            n == self.pending_events@.len(),
    {
        self.pending_events.len()
    }

    /// A point-in-time textual view of the entity: its name, the listener
    /// count and the pending-event count. Two snapshots of the same state
    /// are identical.
    pub fn debug_snapshot(&self) -> (s: String)
        ensures
            s@ == self.snapshot_spec(),
    {
        render_snapshot(
            self.name.as_str(),
            self.listeners.len() as u64,
            self.pending_events.len() as u64,
        )
    }
}

} // verus!
