//! The store: a persistent identifier counter and a persistent map of
//! records, with the primitive operations on each.

use crate::laws::{
    lemma_delete_keeps_consistent, lemma_insert_keeps_consistent, lemma_issue_keeps_consistent,
};
use crate::model::StoreState;
use crate::record::{PatientRecord, RecordView};
use crate::stable::{cell_value, map_entries, EntryView, IdCell, RecordMap, Regions};
use vstd::prelude::*;

verus! {

/// The region of stable memory that holds the counter.
pub const COUNTER_REGION: u8 = 0;

/// The region of stable memory that holds the records.
pub const RECORDS_REGION: u8 = 1;

/// The record that a stored entry stands for.
pub open spec fn record_of(entry: EntryView) -> RecordView {
    RecordView { id: entry.1, name: entry.0, complaint: entry.2 }
}

/// The records that the entries of a map stand for, by identifier.
pub open spec fn records_of(entries: Map<u64, EntryView>) -> Map<u64, RecordView> {
    Map::new(|id: u64| entries.dom().contains(id), |id: u64| record_of(entries[id]))
}

/// The option of a record as a mathematical value.
pub open spec fn option_view(found: Option<PatientRecord>) -> Option<RecordView> {
    match found {
        Some(record) => Some(record@),
        None => None,
    }
}

/// A store of patient records. It owns the counter and the map; callers get
/// copies of the records.
///
/// On the host every store lives in the same stable memory, so a process
/// holds one store: making or opening a second one takes the memory from the
/// first.
pub struct PatientStore {
    counter: IdCell,
    records: RecordMap,
}

impl View for PatientStore {
    type V = StoreState;

    closed spec fn view(&self) -> StoreState {
        StoreState {
            last_id: cell_value(self.counter),
            records: records_of(map_entries(self.records)),
        }
    }
}

impl PatientStore {
    /// The store made of a counter and a map, whatever they hold: the last
    /// identifier issued is the number in the counter, and the records are
    /// those that the entries of the map stand for.
    fn assemble(counter: IdCell, records: RecordMap) -> (store: PatientStore)
        ensures
            store@.last_id == cell_value(counter),
            store@.records == records_of(map_entries(records)),
    {
        PatientStore { counter, records }
    }

    /// Makes an empty store in the host's stable memory, in place of
    /// whatever store the memory held: no identifier issued, no record.
    pub fn new() -> (store: PatientStore)
        ensures
            store@ == StoreState::empty(),
            store@.consistent(),
    {
        let regions = Regions::open();
        let counter = IdCell::new(regions.region(COUNTER_REGION), 0);
        let records = RecordMap::new(regions.region(RECORDS_REGION));
        let store = PatientStore::assemble(counter, records);
        assert(store@.records =~= StoreState::empty().records);
        store
    }

    /// Opens the store that the host's stable memory holds, and makes an
    /// empty one where it holds none. What the store contains is whatever was
    /// kept there, so nothing is promised of it: every operation is proved
    /// for whatever store comes back. Memory written in a layout that cannot
    /// be read aborts the call.
    pub fn init() -> (store: PatientStore) {
        let regions = Regions::open();
        let counter = IdCell::init(regions.region(COUNTER_REGION), 0);
        let records = RecordMap::init(regions.region(RECORDS_REGION));
        PatientStore::assemble(counter, records)
    }

    /// The last identifier issued; zero where none was.
    pub fn last_id(&self) -> (id: u64)
        ensures
            id == self@.last_id,
    {
        self.counter.get()
    }

    /// Issues the next identifier: one more than the last. The records stay
    /// as they are.
    pub fn next_id(&mut self) -> (id: u64)
        requires
            old(self)@.can_issue(),
        ensures
            id == old(self)@.last_id + 1,
            id == old(self)@.next_id(),
            final(self)@ == old(self)@.after_issue(),
            old(self)@.consistent() ==> final(self)@.consistent(),
    {
        proof {
            if self@.consistent() {
                lemma_issue_keeps_consistent(self@);
            }
        }
        let id: u64 = self.counter.get() + 1;
        self.counter.set(id);
        id
    }

    /// A copy of the record stored under `id`, if any.
    pub fn get(&self, id: u64) -> (found: Option<PatientRecord>)
        ensures
            option_view(found) == self@.lookup(id),
    {
        match self.records.get(id) {
            Some(entry) => Some(PatientRecord { name: entry.0, id: entry.1, complaint: entry.2 }),
            None => None,
        }
    }

    /// Stores `record` under `id`, in place of what was there. The record is
    /// stored as it is given: the store stays consistent where the record
    /// carries `id` and `id` has been issued.
    pub fn insert(&mut self, id: u64, record: PatientRecord)
        requires
            record.fits(),
        ensures
            final(self)@ == old(self)@.with_record(id, record@),
            old(self)@.consistent() && old(self)@.admits(id, record@) ==> final(self)@.consistent(),
    {
        proof {
            if self@.consistent() && self@.admits(id, record@) {
                lemma_insert_keeps_consistent(self@, id, record@);
            }
        }
        self.records.insert(id, (record.name, record.id, record.complaint));
        assert(self@.records =~= old(self)@.with_record(id, record@).records);
    }

    /// Takes the record under `id` out of the store and returns it, if there
    /// is one; a store without `id` stays as it is.
    pub fn remove(&mut self, id: u64) -> (removed: Option<PatientRecord>)
        ensures
            option_view(removed) == old(self)@.lookup(id),
            final(self)@ == old(self)@.after_delete(id),
            old(self)@.consistent() ==> final(self)@.consistent(),
    {
        proof {
            if self@.consistent() {
                lemma_delete_keeps_consistent(self@, id);
            }
        }
        let removed = self.records.remove(id);
        assert(self@.records =~= old(self)@.after_delete(id).records);
        match removed {
            Some(entry) => Some(PatientRecord { name: entry.0, id: entry.1, complaint: entry.2 }),
            None => None,
        }
    }
}

} // verus!
