//! The four request handlers, and the two helpers they share.

use crate::laws::{lemma_add_keeps_consistent, lemma_update_keeps_consistent};
use crate::model::Answer;
use crate::record::{
    not_found_on_delete, not_found_on_get, not_found_on_update, Error, PatientRecord,
    PatientRecordPayload,
};
use crate::store::{option_view, PatientStore};
use vstd::prelude::*;

verus! {

/// What a handler returned, as a mathematical value.
pub open spec fn answer_of(result: Result<PatientRecord, Error>) -> Answer {
    match result {
        Ok(record) => Ok(record@),
        Err(error) => Err(error.message()),
    }
}

/// A copy of the record stored under `id`, if any.
pub fn _get_patient_record(store: &PatientStore, id: &u64) -> (found: Option<PatientRecord>)
    ensures
        option_view(found) == store@.lookup(*id),
{
    store.get(*id)
}

/// Stores a copy of `record` under the identifier it carries, in place of
/// what was there. The store stays consistent where that identifier has been
/// issued.
pub fn do_insert(store: &mut PatientStore, record: &PatientRecord)
    requires
        record.fits(),
    ensures
        final(store)@ == old(store)@.with_record(record.id, record@),
        old(store)@.consistent() && old(store)@.admits(record.id, record@)
            ==> final(store)@.consistent(),
{
    let copy = PatientRecord {
        name: record.name.clone(),
        id: record.id,
        complaint: record.complaint.clone(),
    };
    store.insert(record.id, copy);
}

/// Reads the record with identifier `id`. Where there is none, the error
/// names the identifier.
pub fn get_patient_record(store: &PatientStore, id: u64) -> (result: Result<PatientRecord, Error>)
    ensures
        answer_of(result) == store@.get_answer(id),
{
    match _get_patient_record(store, &id) {
        Some(record) => Ok(record),
        None => Err(not_found_on_get(id)),
    }
}

/// Creates a record from `record`: issues the next identifier, stores the
/// new record under it and returns a copy.
pub fn add_patient_record(store: &mut PatientStore, record: PatientRecordPayload) -> (created:
    Option<PatientRecord>)
    requires
        old(store)@.can_issue(),
        record.fits(),
    ensures
        option_view(created) == Some(old(store)@.created(record.name@, record.complaint@)),
        final(store)@ == old(store)@.after_add(record.name@, record.complaint@),
        old(store)@.consistent() ==> final(store)@.consistent(),
{
    proof {
        if store@.consistent() {
            lemma_add_keeps_consistent(store@, record.name@, record.complaint@);
        }
    }
    let id = store.next_id();
    let patient_record = PatientRecord { id, name: record.name, complaint: record.complaint };
    do_insert(store, &patient_record);
    Some(patient_record)
}

/// Replaces the name and the complaint of the record with identifier `id`,
/// and returns a copy of the record as it then is. Its identifier stays.
/// Where there is no such record, the store stays as it is and the error
/// names the identifier.
pub fn update_patient_record(
    store: &mut PatientStore,
    id: u64,
    payload: PatientRecordPayload,
) -> (result: Result<PatientRecord, Error>)
    requires
        old(store)@.has(id) ==> payload.fits(),
    ensures
        answer_of(result) == old(store)@.update_answer(id, payload.name@, payload.complaint@),
        final(store)@ == old(store)@.after_update(id, payload.name@, payload.complaint@),
        old(store)@.consistent() ==> final(store)@.consistent(),
{
    proof {
        if store@.consistent() {
            lemma_update_keeps_consistent(store@, id, payload.name@, payload.complaint@);
        }
    }
    match store.get(id) {
        Some(mut record) => {
            record.complaint = payload.complaint;
            record.name = payload.name;
            do_insert(store, &record);
            Ok(record)
        },
        None => Err(not_found_on_update(id)),
    }
}

/// Deletes the record with identifier `id` and returns it. Where there is
/// no such record, the store stays as it is and the error names the
/// identifier.
pub fn delete_patient_record(store: &mut PatientStore, id: u64) -> (result: Result<
    PatientRecord,
    Error,
>)
    ensures
        answer_of(result) == old(store)@.delete_answer(id),
        final(store)@ == old(store)@.after_delete(id),
        old(store)@.consistent() ==> final(store)@.consistent(),
{
    match store.remove(id) {
        Some(record) => Ok(record),
        None => Err(not_found_on_delete(id)),
    }
}

} // verus!
