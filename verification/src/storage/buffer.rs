use vstd::prelude::*;

use crate::storage::logger::{Event, MAX_EVENTS};

verus! {

/// Fixed-capacity storage of the log's events: a `heapless::Vec` with room for
/// `MAX_EVENTS` of them, held privately and reached only through the methods below.
#[verifier::external_body]
pub struct EventBuffer {
    inner: heapless::Vec<Event, MAX_EVENTS>,
}

/// The events a buffer holds, oldest first.
pub uninterp spec fn buffer_events(buffer: EventBuffer) -> Seq<Event>;

impl EventBuffer {
    /// Calls `heapless::Vec::new`, which makes an empty vector.
    #[verifier::external_body]
    pub(crate) fn new() -> (r: Self)
        ensures
            buffer_events(r) == Seq::<Event>::empty(),
    {
        EventBuffer { inner: heapless::Vec::new() }
    }

    /// Calls `heapless::Vec::push`, which appends `event` and returns `Ok` when fewer than
    /// `MAX_EVENTS` events are held, and otherwise hands `event` back in `Err` and leaves
    /// the vector as it was.
    #[verifier::external_body]
    pub(crate) fn push(&mut self, event: Event) -> (r: Result<(), Event>)
        ensures
            buffer_events(*old(self)).len() < MAX_EVENTS ==> {
                &&& r is Ok
                &&& buffer_events(*final(self)) == buffer_events(*old(self)).push(event)
            },
            buffer_events(*old(self)).len() >= MAX_EVENTS ==> {
                &&& r == Err::<(), Event>(event)
                &&& buffer_events(*final(self)) == buffer_events(*old(self))
            },
    {
        self.inner.push(event)
    }

    /// Calls `heapless::Vec::is_full`, which tells whether `MAX_EVENTS` events are held.
    #[verifier::external_body]
    pub(crate) fn is_full(&self) -> (r: bool)
        ensures
            r == (buffer_events(*self).len() == MAX_EVENTS),
    {
        self.inner.is_full()
    }

    /// Calls `heapless::Vec::as_slice`, which returns the held events in order.
    #[verifier::external_body]
    pub(crate) fn as_slice(&self) -> (r: &[Event])
        ensures
            r@ == buffer_events(*self),
    {
        self.inner.as_slice()
    }
}

} // verus!
