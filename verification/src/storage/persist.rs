//! A model of the key-value storage the log is persisted in, and the law that a log
//! written with `EventLogger::save` comes back unchanged through `EventLogger::new`.
use vstd::prelude::*;

use crate::storage::keys::{count_key_name, kind_key_name, lemma_key_names_distinct, ts_key_name};
use crate::storage::logger::{
    decode_record, decoded_events, lemma_kind_code_round_trip,
    first_events, restored_events, saved_record, saved_records, Event, SavedRecord, StoredEvent, MAX_EVENTS,
};

verus! {

/// A value held under one key of the storage, with the width it was written with.
pub enum StoredValue {
    Byte(u8),
    Word(u64),
}

/// The storage after the kind and the timestamp of record `idx` are written.
pub open spec fn store_record(
    store: Map<Seq<u8>, StoredValue>,
    idx: int,
    record: SavedRecord,
) -> Map<Seq<u8>, StoredValue> {
    store.insert(kind_key_name(idx), StoredValue::Byte(record.kind)).insert(
        ts_key_name(idx),
        StoredValue::Word(record.timestamp_ms),
    )
}

/// The storage after records 0, 1, ... are written in order.
pub open spec fn store_records(store: Map<Seq<u8>, StoredValue>, records: Seq<SavedRecord>) -> Map<
    Seq<u8>,
    StoredValue,
>
    decreases records.len(),
{
    if records.len() == 0 {
        store
    } else {
        store_record(
            store_records(store, records.drop_last()),
            records.len() - 1,
            records.last(),
        )
    }
}

/// The storage after every write of a save plan with `count` and `records` succeeded.
pub open spec fn store_after_save(
    store: Map<Seq<u8>, StoredValue>,
    count: u8,
    records: Seq<SavedRecord>,
) -> Map<Seq<u8>, StoredValue> {
    store_records(store.insert(count_key_name(), StoredValue::Byte(count)), records)
}

/// Reading a byte under `name`: fails when nothing or a value of another width is there.
pub open spec fn read_byte(store: Map<Seq<u8>, StoredValue>, name: Seq<u8>) -> Option<u8> {
    if store.contains_key(name) {
        match store[name] {
            StoredValue::Byte(b) => Some(b),
            StoredValue::Word(_) => None,
        }
    } else {
        None
    }
}

/// Reading a 64-bit word under `name`: fails when nothing or a value of another width is there.
pub open spec fn read_word(store: Map<Seq<u8>, StoredValue>, name: Seq<u8>) -> Option<u64> {
    if store.contains_key(name) {
        match store[name] {
            StoredValue::Word(w) => Some(w),
            StoredValue::Byte(_) => None,
        }
    } else {
        None
    }
}

/// What start-up reads back: the count, then the kind and timestamp of each index below
/// it; nothing when the count cannot be read.
pub open spec fn read_back(store: Map<Seq<u8>, StoredValue>) -> Seq<StoredEvent> {
    match read_byte(store, count_key_name()) {
        Some(count) => Seq::new(
            count as nat,
            |i: int|
                StoredEvent {
                    kind: read_byte(store, kind_key_name(i)),
                    timestamp_ms: read_word(store, ts_key_name(i)),
                },
        ),
        None => Seq::empty(),
    }
}

/// Writing records keeps the count and puts record `j` under the keys of index `j`.
proof fn lemma_store_records(
    store: Map<Seq<u8>, StoredValue>,
    records: Seq<SavedRecord>,
)
    requires
        records.len() <= 100,
    ensures
        store_records(store, records).contains_key(count_key_name()) == store.contains_key(
            count_key_name(),
        ),
        store.contains_key(count_key_name()) ==> store_records(store, records)[count_key_name()]
            == store[count_key_name()],
        forall|j: int|
            0 <= j < records.len() ==> {
                &&& #[trigger] store_records(store, records).contains_key(kind_key_name(j))
                &&& store_records(store, records)[kind_key_name(j)] == StoredValue::Byte(
                    records[j].kind,
                )
                &&& store_records(store, records).contains_key(ts_key_name(j))
                &&& store_records(store, records)[ts_key_name(j)] == StoredValue::Word(
                    records[j].timestamp_ms,
                )
            },
    decreases records.len(),
{
    if records.len() > 0 {
        let last = records.len() - 1;
        let earlier = records.drop_last();
        lemma_store_records(store, earlier);
        lemma_key_names_distinct(last, last);
        let before = store_records(store, earlier);
        let after = store_records(store, records);
        assert(after == store_record(before, last, records.last()));
        assert forall|j: int| 0 <= j < records.len() implies {
            &&& #[trigger] store_records(store, records).contains_key(kind_key_name(j))
            &&& store_records(store, records)[kind_key_name(j)] == StoredValue::Byte(
                records[j].kind,
            )
            &&& store_records(store, records).contains_key(ts_key_name(j))
            &&& store_records(store, records)[ts_key_name(j)] == StoredValue::Word(
                records[j].timestamp_ms,
            )
        } by {
            lemma_key_names_distinct(j, last);
            lemma_key_names_distinct(last, j);
            if j < last {
                assert(earlier[j] == records[j]);
                assert(before.contains_key(kind_key_name(j)));
                assert(before.contains_key(ts_key_name(j)));
            }
        }
    }
}

/// Records that each decode to the matching event decode to exactly those events.
proof fn lemma_decoded_all(records: Seq<StoredEvent>, events: Seq<Event>)
    requires
        records.len() == events.len(),
        forall|i: int| 0 <= i < records.len() ==> decode_record(#[trigger] records[i]) == Some(events[i]),
    ensures
        decoded_events(records) == events,
    decreases records.len(),
{
    if records.len() > 0 {
        lemma_decoded_all(records.drop_last(), events.drop_last());
        assert(decode_record(records.last()) == Some(events.last()));
        assert(events.drop_last().push(events.last()) == events);
    }
}

/// The log survives a restart: when every write of the plan `save` returns succeeds,
/// whatever the storage held before, reading it back at start-up and rebuilding the log
/// with `EventLogger::new` (an empty log filled by `load`) gives the same events in the
/// same order.
pub proof fn lemma_saved_log_is_restored(events: Seq<Event>, store: Map<Seq<u8>, StoredValue>)
    requires
        events.len() <= MAX_EVENTS,
    ensures
        restored_events(
            read_back(store_after_save(store, events.len() as u8, saved_records(events))),
        ) == events,
        first_events(
            Seq::<Event>::empty() + decoded_events(
                read_back(store_after_save(store, events.len() as u8, saved_records(events))),
            ),
        ) == events,
{
    let records = saved_records(events);
    let start = store.insert(count_key_name(), StoredValue::Byte(events.len() as u8));
    let saved = store_after_save(store, events.len() as u8, records);
    lemma_store_records(start, records);
    assert(read_byte(saved, count_key_name()) == Some(events.len() as u8));
    let back = read_back(saved);
    assert(back.len() == events.len());
    assert forall|i: int| 0 <= i < back.len() implies decode_record(#[trigger] back[i]) == Some(
        events[i],
    ) by {
        assert(records[i] == saved_record(events[i]));
        lemma_kind_code_round_trip(events[i].kind, 0);
    }
    lemma_decoded_all(back, events);
    assert(Seq::<Event>::empty() + decoded_events(back) == decoded_events(back));
}

} // verus!
