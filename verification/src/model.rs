//! The store as a mathematical value, and what each operation makes of it.
//!
//! The executable operations are specified by the functions of this file:
//! each says that the store's view afterwards, and what it returned, equal
//! what the model gives on the view before.

use crate::record::{missing_on_delete, missing_on_get, missing_on_update, RecordView};
use vstd::prelude::*;

verus! {

/// What a handler answers: the record, or the text of a not-found error.
pub type Answer = Result<RecordView, Seq<char>>;

/// The state of a store: the last identifier issued, and the records by
/// identifier.
pub struct StoreState {
    pub last_id: u64,
    pub records: Map<u64, RecordView>,
}

impl StoreState {
    /// The store before anything was created.
    pub open spec fn empty() -> StoreState {
        StoreState { last_id: 0, records: Map::empty() }
    }

    /// Whether a record is stored under `id`.
    pub open spec fn has(self, id: u64) -> bool {
        self.records.dom().contains(id)
    }

    /// The record stored under `id`, if any.
    pub open spec fn lookup(self, id: u64) -> Option<RecordView> {
        if self.has(id) {
            Some(self.records[id])
        } else {
            None
        }
    }

    /// Whether an identifier is left to issue.
    pub open spec fn can_issue(self) -> bool {
        self.last_id < u64::MAX
    }

    /// The identifier that is issued next.
    pub open spec fn next_id(self) -> u64
        recommends
            self.can_issue(),
    {
        (self.last_id + 1) as u64
    }

    /// The store once the next identifier is issued.
    pub open spec fn after_issue(self) -> StoreState
        recommends
            self.can_issue(),
    {
        StoreState { last_id: self.next_id(), records: self.records }
    }

    /// The store with `record` under `id`, in place of what was there.
    pub open spec fn with_record(self, id: u64, record: RecordView) -> StoreState {
        StoreState { last_id: self.last_id, records: self.records.insert(id, record) }
    }

    /// The store without a record under `id`.
    pub open spec fn without_record(self, id: u64) -> StoreState {
        StoreState { last_id: self.last_id, records: self.records.remove(id) }
    }

    /// What reading `id` answers.
    pub open spec fn get_answer(self, id: u64) -> Answer {
        match self.lookup(id) {
            Some(record) => Ok(record),
            None => Err(missing_on_get(id)),
        }
    }

    /// The record that creating one from a name and a complaint makes: it
    /// carries the next identifier.
    pub open spec fn created(self, name: Seq<char>, complaint: Seq<char>) -> RecordView
        recommends
            self.can_issue(),
    {
        RecordView { id: self.next_id(), name, complaint }
    }

    /// The store after creating a record: the identifier is issued, and the
    /// new record is stored under it.
    pub open spec fn after_add(self, name: Seq<char>, complaint: Seq<char>) -> StoreState
        recommends
            self.can_issue(),
    {
        self.after_issue().with_record(self.next_id(), self.created(name, complaint))
    }

    /// The record that updating `id` makes: the stored one with its name and
    /// complaint replaced, and its identifier kept.
    pub open spec fn updated(self, id: u64, name: Seq<char>, complaint: Seq<char>) -> RecordView
        recommends
            self.has(id),
    {
        RecordView { id: self.records[id].id, name, complaint }
    }

    /// What updating `id` answers.
    pub open spec fn update_answer(self, id: u64, name: Seq<char>, complaint: Seq<char>) -> Answer {
        if self.has(id) {
            Ok(self.updated(id, name, complaint))
        } else {
            Err(missing_on_update(id))
        }
    }

    /// The store after updating `id`: the updated record is stored under the
    /// identifier it carries; a store without `id` stays as it is.
    pub open spec fn after_update(
        self,
        id: u64,
        name: Seq<char>,
        complaint: Seq<char>,
    ) -> StoreState {
        if self.has(id) {
            self.with_record(self.records[id].id, self.updated(id, name, complaint))
        } else {
            self
        }
    }

    /// What deleting `id` answers: the record that was stored.
    pub open spec fn delete_answer(self, id: u64) -> Answer {
        match self.lookup(id) {
            Some(record) => Ok(record),
            None => Err(missing_on_delete(id)),
        }
    }

    /// The store after deleting `id`; a store without `id` stays as it is.
    pub open spec fn after_delete(self, id: u64) -> StoreState {
        if self.has(id) {
            self.without_record(id)
        } else {
            self
        }
    }

    /// Whether `record` may stand under `id` in a consistent store: it
    /// carries `id`, and `id` has been issued.
    pub open spec fn admits(self, id: u64, record: RecordView) -> bool {
        record.id == id && 1 <= id <= self.last_id
    }

    /// Every record is stored under the identifier it carries, and that
    /// identifier has been issued.
    pub open spec fn consistent(self) -> bool {
        forall|id: u64| #[trigger] self.has(id) ==> self.admits(id, self.records[id])
    }
}

} // verus!
