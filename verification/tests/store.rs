use patient_records::{
    _get_patient_record, add_patient_record, delete_patient_record, do_insert,
    get_patient_record, update_patient_record, Error, PatientRecord, PatientRecordPayload,
    PatientStore,
};

fn payload(name: &str, complaint: &str) -> PatientRecordPayload {
    PatientRecordPayload { name: name.to_string(), complaint: complaint.to_string() }
}

fn record(id: u64, name: &str, complaint: &str) -> PatientRecord {
    PatientRecord { name: name.to_string(), id, complaint: complaint.to_string() }
}

#[test]
fn scenario_add_get_update_delete_get() {
    let mut store = PatientStore::new();
    let created = add_patient_record(&mut store, payload("A", "cough"));
    assert_eq!(created, Some(record(1, "A", "cough")));
    assert_eq!(get_patient_record(&store, 1), Ok(record(1, "A", "cough")));
    assert_eq!(
        update_patient_record(&mut store, 1, payload("B", "fever")),
        Ok(record(1, "B", "fever"))
    );
    assert_eq!(delete_patient_record(&mut store, 1), Ok(record(1, "B", "fever")));
    assert_eq!(
        get_patient_record(&store, 1),
        Err(Error::NotFound { msg: "Patient record with id=1 not found".to_string() })
    );
}

#[test]
fn new_store_is_empty() {
    let store = PatientStore::new();
    assert_eq!(store.last_id(), 0);
    assert_eq!(store.get(0), None);
    assert_eq!(store.get(1), None);
    assert_eq!(_get_patient_record(&store, &1), None);
}

#[test]
fn opened_store_on_fresh_memory_is_empty() {
    let mut store = PatientStore::init();
    assert_eq!(store.last_id(), 0);
    assert_eq!(store.get(1), None);
    let created = add_patient_record(&mut store, payload("A", "cough"));
    assert_eq!(created, Some(record(1, "A", "cough")));
    assert_eq!(store.get(1), Some(record(1, "A", "cough")));
}

#[test]
fn first_identifier_is_one() {
    let mut store = PatientStore::new();
    assert_eq!(store.next_id(), 1);
    assert_eq!(store.last_id(), 1);
}

#[test]
fn next_id_counts_up_by_one() {
    let mut store = PatientStore::new();
    for expected in 1..=20u64 {
        assert_eq!(store.next_id(), expected);
        assert_eq!(store.last_id(), expected);
    }
    assert_eq!(store.get(1), None);
}

#[test]
fn created_identifiers_strictly_increase() {
    let mut store = PatientStore::new();
    let mut last = 0;
    for round in 0..50u64 {
        let created = add_patient_record(&mut store, payload("n", "c")).unwrap();
        assert!(created.id > last);
        assert_eq!(created.id, round + 1);
        last = created.id;
    }
}

#[test]
fn identifier_is_not_reused_after_delete() {
    let mut store = PatientStore::new();
    let first = add_patient_record(&mut store, payload("A", "a")).unwrap();
    let second = add_patient_record(&mut store, payload("B", "b")).unwrap();
    assert_eq!(delete_patient_record(&mut store, second.id), Ok(second.clone()));
    assert_eq!(delete_patient_record(&mut store, first.id), Ok(first.clone()));
    let third = add_patient_record(&mut store, payload("C", "c")).unwrap();
    assert_eq!(third.id, 3);
    assert!(third.id != first.id && third.id != second.id);
    assert_eq!(store.last_id(), 3);
}

#[test]
fn get_after_add_returns_equal_record() {
    let mut store = PatientStore::new();
    for round in 0..10 {
        let name = format!("patient {}", round);
        let complaint = format!("complaint {}", round);
        let created = add_patient_record(&mut store, payload(&name, &complaint)).unwrap();
        assert_eq!(get_patient_record(&store, created.id), Ok(created.clone()));
        assert_eq!(created.name, name);
        assert_eq!(created.complaint, complaint);
    }
}

#[test]
fn add_keeps_earlier_records() {
    let mut store = PatientStore::new();
    let first = add_patient_record(&mut store, payload("A", "a")).unwrap();
    let second = add_patient_record(&mut store, payload("B", "b")).unwrap();
    assert_eq!(get_patient_record(&store, first.id), Ok(first));
    assert_eq!(get_patient_record(&store, second.id), Ok(second));
}

#[test]
fn get_of_absent_reports_not_found() {
    let store = PatientStore::new();
    assert_eq!(
        get_patient_record(&store, 42),
        Err(Error::NotFound { msg: "Patient record with id=42 not found".to_string() })
    );
}

#[test]
fn update_of_absent_reports_not_found_and_changes_nothing() {
    let mut store = PatientStore::new();
    let kept = add_patient_record(&mut store, payload("A", "a")).unwrap();
    assert_eq!(
        update_patient_record(&mut store, 7, payload("B", "b")),
        Err(Error::NotFound {
            msg: "Couldn't update patient record with id=7. Record not found".to_string()
        })
    );
    assert_eq!(store.get(7), None);
    assert_eq!(store.get(kept.id), Some(kept));
    assert_eq!(store.last_id(), 1);
}

#[test]
fn update_keeps_identifier_and_overwrites_texts() {
    let mut store = PatientStore::new();
    let first = add_patient_record(&mut store, payload("A", "a")).unwrap();
    let second = add_patient_record(&mut store, payload("B", "b")).unwrap();
    let updated = update_patient_record(&mut store, second.id, payload("C", "c")).unwrap();
    assert_eq!(updated, record(2, "C", "c"));
    assert_eq!(get_patient_record(&store, 2), Ok(record(2, "C", "c")));
    assert_eq!(get_patient_record(&store, first.id), Ok(first));
    assert_eq!(store.last_id(), 2);
}

#[test]
fn delete_makes_get_report_not_found() {
    let mut store = PatientStore::new();
    let created = add_patient_record(&mut store, payload("A", "a")).unwrap();
    assert_eq!(delete_patient_record(&mut store, created.id), Ok(created));
    assert_eq!(
        get_patient_record(&store, 1),
        Err(Error::NotFound { msg: "Patient record with id=1 not found".to_string() })
    );
    assert_eq!(store.get(1), None);
}

#[test]
fn delete_of_absent_reports_not_found_and_changes_nothing() {
    let mut store = PatientStore::new();
    let first = add_patient_record(&mut store, payload("A", "a")).unwrap();
    let second = add_patient_record(&mut store, payload("B", "b")).unwrap();
    assert_eq!(
        delete_patient_record(&mut store, 9),
        Err(Error::NotFound {
            msg: "Couldn't delete patient record with id=9. Record not found.".to_string()
        })
    );
    assert_eq!(store.get(first.id), Some(first));
    assert_eq!(store.get(second.id), Some(second));
    assert_eq!(store.last_id(), 2);
}

#[test]
fn delete_twice_reports_not_found_the_second_time() {
    let mut store = PatientStore::new();
    let created = add_patient_record(&mut store, payload("A", "a")).unwrap();
    assert!(delete_patient_record(&mut store, created.id).is_ok());
    assert_eq!(
        delete_patient_record(&mut store, created.id),
        Err(Error::NotFound {
            msg: "Couldn't delete patient record with id=1. Record not found.".to_string()
        })
    );
}

#[test]
fn delete_keeps_other_records() {
    let mut store = PatientStore::new();
    let first = add_patient_record(&mut store, payload("A", "a")).unwrap();
    let second = add_patient_record(&mut store, payload("B", "b")).unwrap();
    let third = add_patient_record(&mut store, payload("C", "c")).unwrap();
    assert_eq!(delete_patient_record(&mut store, second.id), Ok(second));
    assert_eq!(store.get(first.id), Some(first));
    assert_eq!(store.get(third.id), Some(third));
}

#[test]
fn do_insert_stores_under_the_records_identifier() {
    let mut store = PatientStore::new();
    do_insert(&mut store, &record(5, "E", "e"));
    assert_eq!(_get_patient_record(&store, &5), Some(record(5, "E", "e")));
    assert_eq!(_get_patient_record(&store, &4), None);
    assert_eq!(store.last_id(), 0);
}

#[test]
fn do_insert_overwrites() {
    let mut store = PatientStore::new();
    do_insert(&mut store, &record(5, "E", "e"));
    do_insert(&mut store, &record(5, "F", "f"));
    assert_eq!(_get_patient_record(&store, &5), Some(record(5, "F", "f")));
}

#[test]
fn insert_stores_the_record_as_given() {
    let mut store = PatientStore::new();
    store.insert(3, record(8, "H", "h"));
    assert_eq!(store.get(3), Some(record(8, "H", "h")));
    assert_eq!(store.get(8), None);
}

#[test]
fn update_stores_under_the_identifier_the_record_carries() {
    let mut store = PatientStore::new();
    store.insert(3, record(8, "H", "h"));
    assert_eq!(update_patient_record(&mut store, 3, payload("I", "i")), Ok(record(8, "I", "i")));
    assert_eq!(store.get(8), Some(record(8, "I", "i")));
    assert_eq!(store.get(3), Some(record(8, "H", "h")));
}

#[test]
fn remove_returns_what_was_stored() {
    let mut store = PatientStore::new();
    store.insert(3, record(3, "C", "c"));
    assert_eq!(store.remove(3), Some(record(3, "C", "c")));
    assert_eq!(store.remove(3), None);
    assert_eq!(store.get(3), None);
}

#[test]
fn extreme_identifiers_are_keys_like_any_other() {
    let mut store = PatientStore::new();
    do_insert(&mut store, &record(0, "zero", "z"));
    do_insert(&mut store, &record(u64::MAX, "max", "m"));
    assert_eq!(store.get(0), Some(record(0, "zero", "z")));
    assert_eq!(store.get(u64::MAX), Some(record(u64::MAX, "max", "m")));
    assert_eq!(store.remove(u64::MAX), Some(record(u64::MAX, "max", "m")));
    assert_eq!(store.get(u64::MAX), None);
}

#[test]
fn empty_texts_are_stored() {
    let mut store = PatientStore::new();
    let created = add_patient_record(&mut store, payload("", "")).unwrap();
    assert_eq!(created, record(1, "", ""));
    assert_eq!(get_patient_record(&store, 1), Ok(record(1, "", "")));
}

#[test]
fn texts_beyond_ascii_are_stored() {
    let mut store = PatientStore::new();
    let created = add_patient_record(&mut store, payload("Zoë Ærø", "頭痛 🤒")).unwrap();
    assert_eq!(get_patient_record(&store, created.id), Ok(record(1, "Zoë Ærø", "頭痛 🤒")));
}

#[test]
fn name_longer_than_one_length_byte_is_stored() {
    let mut store = PatientStore::new();
    let name = "n".repeat(300);
    let complaint = "c".repeat(5);
    let created = add_patient_record(&mut store, payload(&name, &complaint)).unwrap();
    assert_eq!(get_patient_record(&store, created.id), Ok(record(1, &name, &complaint)));
}

#[test]
fn name_longer_than_two_length_bytes_is_stored() {
    let mut store = PatientStore::new();
    let name = "n".repeat(70_000);
    let complaint = "c".repeat(70_001);
    let created = add_patient_record(&mut store, payload(&name, &complaint)).unwrap();
    assert_eq!(get_patient_record(&store, created.id), Ok(record(1, &name, &complaint)));
    assert_eq!(delete_patient_record(&mut store, 1), Ok(record(1, &name, &complaint)));
}

#[test]
fn many_records_are_kept_apart() {
    let mut store = PatientStore::new();
    for round in 1..=500u64 {
        let created = add_patient_record(
            &mut store,
            payload(&format!("name {}", round), &format!("complaint {}", round)),
        )
        .unwrap();
        assert_eq!(created.id, round);
    }
    for id in (2..=500u64).step_by(2) {
        assert!(delete_patient_record(&mut store, id).is_ok());
    }
    for id in 1..=500u64 {
        let found = get_patient_record(&store, id);
        if id % 2 == 1 {
            assert_eq!(
                found,
                Ok(record(id, &format!("name {}", id), &format!("complaint {}", id)))
            );
        } else {
            assert_eq!(
                found,
                Err(Error::NotFound { msg: format!("Patient record with id={} not found", id) })
            );
        }
    }
    assert_eq!(store.last_id(), 500);
}

#[test]
fn stores_do_not_share_state() {
    let mut left = PatientStore::new();
    let right = PatientStore::new();
    add_patient_record(&mut left, payload("A", "a"));
    assert_eq!(left.last_id(), 1);
    assert_eq!(right.last_id(), 0);
    assert_eq!(right.get(1), None);
}
