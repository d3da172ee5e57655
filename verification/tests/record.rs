use patient_records::decimal::to_decimal;
use patient_records::record::{not_found_on_delete, not_found_on_get, not_found_on_update};
use patient_records::{Error, PatientRecord, PatientRecordPayload};

#[test]
fn decimal_of_single_digits() {
    for (n, text) in ["0", "1", "2", "3", "4", "5", "6", "7", "8", "9"].iter().enumerate() {
        assert_eq!(to_decimal(n as u64), *text);
    }
}

#[test]
fn decimal_of_round_numbers() {
    assert_eq!(to_decimal(10), "10");
    assert_eq!(to_decimal(100), "100");
    assert_eq!(to_decimal(1000), "1000");
    assert_eq!(to_decimal(1_000_000), "1000000");
}

#[test]
fn decimal_of_largest_number() {
    assert_eq!(to_decimal(u64::MAX), "18446744073709551615");
}

#[test]
fn decimal_agrees_with_std() {
    let mut n: u64 = 1;
    for _ in 0..200 {
        assert_eq!(to_decimal(n), n.to_string());
        assert_eq!(to_decimal(n - 1), (n - 1).to_string());
        n = n.wrapping_mul(6364136223846793005).wrapping_add(1442695040888963407);
        if n == 0 {
            n = 1;
        }
    }
}

#[test]
fn not_found_on_get_names_the_identifier() {
    assert_eq!(
        not_found_on_get(12),
        Error::NotFound { msg: "Patient record with id=12 not found".to_string() }
    );
    assert_eq!(
        not_found_on_get(0),
        Error::NotFound { msg: "Patient record with id=0 not found".to_string() }
    );
}

#[test]
fn not_found_on_update_names_the_identifier() {
    assert_eq!(
        not_found_on_update(305),
        Error::NotFound {
            msg: "Couldn't update patient record with id=305. Record not found".to_string()
        }
    );
}

#[test]
fn not_found_on_delete_names_the_identifier() {
    assert_eq!(
        not_found_on_delete(u64::MAX),
        Error::NotFound {
            msg: "Couldn't delete patient record with id=18446744073709551615. Record not found."
                .to_string()
        }
    );
}

#[test]
fn default_record_is_blank() {
    assert_eq!(
        PatientRecord::default(),
        PatientRecord { name: String::new(), id: 0, complaint: String::new() }
    );
}

#[test]
fn default_payload_is_blank() {
    assert_eq!(
        PatientRecordPayload::default(),
        PatientRecordPayload { name: String::new(), complaint: String::new() }
    );
}

#[test]
fn ordinary_texts_are_storable() {
    let payload = PatientRecordPayload { name: "A".to_string(), complaint: "cough".to_string() };
    assert!(payload.is_storable());
    let record = PatientRecord { name: "A".repeat(100_000), id: 1, complaint: String::new() };
    assert!(record.is_storable());
}
