use vstd::prelude::*;

use crate::storage::buffer::{buffer_events, EventBuffer};

verus! {

/// Most events the log keeps; when it is full the oldest one is dropped.
pub const MAX_EVENTS: usize = 32;

/// What happened.
#[derive(Debug, Clone, Copy, PartialEq, Eq, Structural)]
pub enum EventKind {
    Armed,
    Disarmed,
    AlarmTriggered,
}

/// The byte an event kind is stored as.
pub open spec fn kind_code(kind: EventKind) -> u8 {
    match kind {
        EventKind::Armed => 0,
        EventKind::Disarmed => 1,
        EventKind::AlarmTriggered => 2,
    }
}

/// The event kind a stored byte stands for, if any.
pub open spec fn kind_of_code(code: u8) -> Option<EventKind> {
    if code == 0 {
        Some(EventKind::Armed)
    } else if code == 1 {
        Some(EventKind::Disarmed)
    } else if code == 2 {
        Some(EventKind::AlarmTriggered)
    } else {
        None
    }
}

impl EventKind {
    /// The byte this kind is stored as.
    pub fn to_u8(self) -> (r: u8)
        ensures
            r == kind_code(self),
    {
        match self {
            Self::Armed => 0,
            Self::Disarmed => 1,
            Self::AlarmTriggered => 2,
        }
    }

    /// The kind stored as `v`, or `None` for a byte no kind is stored as.
    pub fn from_u8(v: u8) -> (r: Option<Self>)
        ensures
            r == kind_of_code(v),
    {
        match v {
            0 => Some(Self::Armed),
            1 => Some(Self::Disarmed),
            2 => Some(Self::AlarmTriggered),
            _ => None,
        }
    }
}

/// Decoding a stored kind gives back the kind, and exactly the bytes 0, 1 and 2 decode.
pub proof fn lemma_kind_code_round_trip(kind: EventKind, code: u8)
    ensures
        kind_of_code(kind_code(kind)) == Some(kind),
        kind_of_code(code) is Some <==> code < 3,
        kind_of_code(code) matches Some(k) ==> kind_code(k) == code,
{
}

/// One entry of the log.
#[derive(Debug, Clone, Copy, PartialEq, Eq, Structural)]
pub struct Event {
    pub timestamp_ms: u64,
    pub kind: EventKind,
}


/// What reading the two stored values of one event gave: `None` where the read failed.
#[derive(Debug, Clone, Copy, PartialEq, Eq, Structural)]
pub struct StoredEvent {
    pub kind: Option<u8>,
    pub timestamp_ms: Option<u64>,
}

/// The two values one event is stored as.
#[derive(Debug, Clone, Copy, PartialEq, Eq, Structural)]
pub struct SavedRecord {
    pub kind: u8,
    pub timestamp_ms: u64,
}

/// What to write to storage to persist the log: first the event count, then, for each
/// event `i` in order, its kind and its timestamp under the keys of index `i`. When the
/// count cannot be written, the records are not written either.
pub struct SavePlan {
    pub count: u8,
    pub records: Vec<SavedRecord>,
}

impl SavePlan {
    /// How many records to write once the count write has been tried: all of them when
    /// it succeeded, none when it failed.
    pub fn records_to_write(&self, count_written: bool) -> (n: usize)
        ensures
            n == if count_written {
                self.records@.len()
            } else {
                0
            },
    {
        if count_written {
            self.records.len()
        } else {
            0
        }
    }
}

/// The event a record read back stands for: both values present and a known kind byte.
pub open spec fn decode_record(record: StoredEvent) -> Option<Event> {
    match (record.kind, record.timestamp_ms) {
        (Some(code), Some(timestamp_ms)) => match kind_of_code(code) {
            Some(kind) => Some(Event { timestamp_ms, kind }),
            None => None,
        },
        _ => None,
    }
}

/// The events the records read back stand for, in order, skipping the ones that do not decode.
pub open spec fn decoded_events(records: Seq<StoredEvent>) -> Seq<Event>
    decreases records.len(),
{
    if records.len() == 0 {
        Seq::empty()
    } else {
        let earlier = decoded_events(records.drop_last());
        match decode_record(records.last()) {
            Some(event) => earlier.push(event),
            None => earlier,
        }
    }
}

/// The first `MAX_EVENTS` of `events`.
pub open spec fn first_events(events: Seq<Event>) -> Seq<Event> {
    if events.len() <= MAX_EVENTS {
        events
    } else {
        events.take(MAX_EVENTS as int)
    }
}

/// The log rebuilt from the records read back at start-up.
pub open spec fn restored_events(records: Seq<StoredEvent>) -> Seq<Event> {
    first_events(decoded_events(records))
}

/// The log after recording `event`: it is appended, and when `MAX_EVENTS` events were
/// already held the oldest one is dropped first.
pub open spec fn logged_events(events: Seq<Event>, event: Event) -> Seq<Event> {
    if events.len() >= MAX_EVENTS {
        events.drop_first().push(event)
    } else {
        events.push(event)
    }
}

/// Recording an event never lets the log exceed `MAX_EVENTS`, puts the new event last,
/// and keeps before it the most recent earlier events in their order.
pub proof fn lemma_log_keeps_most_recent(events: Seq<Event>, event: Event)
    requires
        events.len() <= MAX_EVENTS,
    ensures
        logged_events(events, event).len() == if events.len() < MAX_EVENTS {
            events.len() + 1int
        } else {
            MAX_EVENTS as int
        },
        logged_events(events, event).last() == event,
        logged_events(events, event) == events.push(event).subrange(
            events.len() + 1 - logged_events(events, event).len(),
            events.len() + 1int,
        ),
{
    assert(events.push(event).subrange(0, events.len() + 1int) == events.push(event));
    if events.len() >= MAX_EVENTS {
        assert(events.drop_first().push(event) == events.push(event).subrange(
            1,
            events.len() + 1int,
        ));
    }
}

/// Every saved record holds its event's timestamp and a kind byte that `EventKind::from_u8`
/// decodes back to the event's kind, so each record read back intact gives its event again.
pub proof fn lemma_saved_records_decode(events: Seq<Event>)
    ensures
        saved_records(events).len() == events.len(),
        forall|i: int|
            0 <= i < events.len() ==> {
                &&& kind_of_code(#[trigger] saved_records(events)[i].kind) == Some(events[i].kind)
                &&& saved_records(events)[i].timestamp_ms == events[i].timestamp_ms
                &&& decode_record(
                    StoredEvent {
                        kind: Some(saved_records(events)[i].kind),
                        timestamp_ms: Some(saved_records(events)[i].timestamp_ms),
                    },
                ) == Some(events[i])
            },
{
}

/// The stored form of an event.
pub open spec fn saved_record(event: Event) -> SavedRecord {
    SavedRecord { kind: kind_code(event.kind), timestamp_ms: event.timestamp_ms }
}

/// The records a log is persisted as, one per event, in order.
pub open spec fn saved_records(events: Seq<Event>) -> Seq<SavedRecord> {
    events.map_values(|event: Event| saved_record(event))
}

/// The event log: the last `MAX_EVENTS` events, oldest first. Reading it back from
/// storage and writing it there are done by the caller, from `StoredEvent`s and
/// with a `SavePlan`.
pub struct EventLogger {
    events: EventBuffer,
}

impl View for EventLogger {
    type V = Seq<Event>;

    closed spec fn view(&self) -> Seq<Event> {
        buffer_events(self.events)
    }
}

impl EventLogger {
    #[verifier::type_invariant]
    closed spec fn within_capacity(self) -> bool {
        buffer_events(self.events).len() <= MAX_EVENTS
    }

    /// The log rebuilt from `stored`, the records read back for indices 0 up to the stored
    /// count (none when the count could not be read).
    pub fn new(stored: &Vec<StoredEvent>) -> (r: Self)
        ensures
            r@ == restored_events(stored@),
            r@.len() <= MAX_EVENTS,
    {
        let mut logger = EventLogger { events: EventBuffer::new() };
        logger.load(stored);
        assert(Seq::<Event>::empty() + decoded_events(stored@) == decoded_events(stored@));
        logger
    }

    /// Appends the events `stored` stands for while there is room.
    pub fn load(&mut self, stored: &Vec<StoredEvent>)
        ensures
            final(self)@ == first_events(old(self)@ + decoded_events(stored@)),
            final(self)@.len() <= MAX_EVENTS,
    {
        proof {
            use_type_invariant(&*self);
            assert(stored@.take(0) == Seq::<StoredEvent>::empty());
            assert(old(self)@ + Seq::<Event>::empty() == old(self)@);
        }
        let mut events = EventBuffer::new();
        std::mem::swap(&mut events, &mut self.events);
        let n = stored.len();
        let mut i: usize = 0;
        while i < n
            invariant
                n == stored@.len(),
                i <= n,
                old(self)@.len() <= MAX_EVENTS,
                buffer_events(events) == first_events(
                    old(self)@ + decoded_events(stored@.take(i as int)),
                ),
            decreases n - i,
        {
            let record = stored[i];
            let ghost before = old(self)@ + decoded_events(stored@.take(i as int));
            proof {
                assert(stored@.take(i + 1).drop_last() == stored@.take(i as int));
                assert(stored@.take(i + 1).last() == record);
            }
            match (record.kind, record.timestamp_ms) {
                (Some(code), Some(timestamp_ms)) => {
                    match EventKind::from_u8(code) {
                        Some(kind) => {
                            let event = Event { timestamp_ms, kind };
                            proof {
                                assert(decoded_events(stored@.take(i + 1)) == decoded_events(
                                    stored@.take(i as int),
                                ).push(event));
                                assert(old(self)@ + decoded_events(stored@.take(i + 1))
                                    == before.push(event));
                                if before.len() >= MAX_EVENTS {
                                    assert(before.push(event).take(MAX_EVENTS as int)
                                        == before.take(MAX_EVENTS as int));
                                }
                            }
                            let _ = events.push(event);
                        },
                        None => {},
                    }
                },
                _ => {},
            }
            i += 1;
        }
        proof {
            assert(stored@.take(n as int) == stored@);
        }
        self.events = events;
    }

    /// Records an event; when the log is full the oldest event is dropped first. Returns
    /// what to write to storage to persist the new log, as `save` gives it.
    pub fn log(&mut self, kind: EventKind, timestamp_ms: u64) -> (plan: SavePlan)
        ensures
            final(self)@ == logged_events(old(self)@, Event { timestamp_ms, kind }),
            final(self)@.len() <= MAX_EVENTS,
            plan.count == final(self)@.len(),
            plan.records@ == saved_records(final(self)@),
            plan.records@.len() == final(self)@.len(),
            forall|i: int|
                0 <= i < final(self)@.len() ==> {
                    &&& kind_of_code(#[trigger] plan.records@[i].kind) == Some(final(self)@[i].kind)
                    &&& plan.records@[i].timestamp_ms == final(self)@[i].timestamp_ms
                },
    {
        proof {
            use_type_invariant(&*self);
        }
        let mut events = EventBuffer::new();
        std::mem::swap(&mut events, &mut self.events);
        if events.is_full() {
            let mut kept = EventBuffer::new();
            let held = events.as_slice();
            let n = held.len();
            let mut i: usize = 1;
            while i < n
                invariant
                    n == held@.len(),
                    n == MAX_EVENTS,
                    1 <= i <= n,
                    buffer_events(kept) == held@.subrange(1, i as int),
                decreases n - i,
            {
                proof {
                    assert(held@.subrange(1, i + 1) == held@.subrange(1, i as int).push(held@[i as int]));
                }
                let _ = kept.push(held[i]);
                i += 1;
            }
            proof {
                assert(held@.subrange(1, n as int) == held@.drop_first());
            }
            events = kept;
        }
        let _ = events.push(Event { timestamp_ms, kind });
        self.events = events;
        self.save()
    }

    /// What to write to storage to persist the log as it is now.
    pub fn save(&self) -> (plan: SavePlan)
        ensures
            plan.count == self@.len(),
            plan.records@ == saved_records(self@),
            plan.records@.len() == self@.len(),
            forall|i: int|
                0 <= i < self@.len() ==> {
                    &&& kind_of_code(#[trigger] plan.records@[i].kind) == Some(self@[i].kind)
                    &&& plan.records@[i].timestamp_ms == self@[i].timestamp_ms
                },
    {
        proof {
            use_type_invariant(self);
        }
        let held = self.events.as_slice();
        let n = held.len();
        let mut records: Vec<SavedRecord> = Vec::new();
        let mut i: usize = 0;
        while i < n
            invariant
                n == held@.len(),
                i <= n,
                records@ == saved_records(held@.take(i as int)),
            decreases n - i,
        {
            let event = held[i];
            let kind = event.kind.to_u8();
            records.push(SavedRecord { kind, timestamp_ms: event.timestamp_ms });
            proof {
                assert(held@.take(i + 1) == held@.take(i as int).push(event));
                assert(saved_records(held@.take(i + 1)) == saved_records(held@.take(i as int)).push(
                    saved_record(event),
                ));
            }
            i += 1;
        }
        proof {
            assert(held@.take(n as int) == held@);
        }
        SavePlan { count: n as u8, records }
    }

    /// The events, oldest first.
    pub fn entries(&self) -> (r: &[Event])
        ensures
            r@ == self@,
            r@.len() <= MAX_EVENTS,
    {
        proof {
            use_type_invariant(self);
        }
        self.events.as_slice()
    }

    /// How many events the log holds.
    pub fn count(&self) -> (r: usize)
        ensures
            r == self@.len(),
            r <= MAX_EVENTS,
    {
        proof {
            use_type_invariant(self);
        }
        self.events.as_slice().len()
    }
}

} // verus!
