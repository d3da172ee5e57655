//! A patient record store: an identifier counter and an ordered map of
//! records kept in stable memory, with create, read, update and delete
//! operations whose behaviour is proved against a mathematical model.
//!
//! - [`store`] holds the store and its primitive operations;
//! - [`handlers`] holds the four request handlers;
//! - [`model`] says what a store is and what each operation makes of it;
//! - [`laws`] proves what holds of the operations taken together;
//! - [`stable`] is the part taken on trust: the stable-memory structures.

pub mod decimal;
pub mod handlers;
pub mod laws;
pub mod model;
pub mod record;
pub mod stable;
pub mod store;

pub use handlers::{
    _get_patient_record, add_patient_record, delete_patient_record, do_insert,
    get_patient_record, update_patient_record,
};
pub use record::{Error, PatientRecord, PatientRecordPayload};
pub use store::PatientStore;
