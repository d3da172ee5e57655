//! Patient records, the payload a caller supplies, and the error a handler
//! reports.

use crate::decimal::{decimal, to_decimal};
use crate::stable::{entry_fits, ENTRY_OVERHEAD};
use vstd::prelude::*;
use vstd::string::*;

verus! {

/// A stored patient record.
#[derive(Clone, Debug, PartialEq, Eq)]
pub struct PatientRecord {
    pub name: String,
    pub id: u64,
    pub complaint: String,
}

/// A patient record as a mathematical value.
pub struct RecordView {
    pub id: u64,
    pub name: Seq<char>,
    pub complaint: Seq<char>,
}

impl View for PatientRecord {
    type V = RecordView;

    open spec fn view(&self) -> RecordView {
        RecordView { id: self.id, name: self.name@, complaint: self.complaint@ }
    }
}

impl Default for PatientRecord {
    /// The record with identifier zero and empty texts.
    fn default() -> (record: PatientRecord)
        ensures
            record@ == (RecordView { id: 0, name: Seq::empty(), complaint: Seq::empty() }),
    {
        PatientRecord { name: String::new(), id: 0, complaint: String::new() }
    }
}

/// What a caller supplies to create or update a record.
#[derive(Clone, Debug, PartialEq, Eq)]
pub struct PatientRecordPayload {
    pub name: String,
    pub complaint: String,
}

impl Default for PatientRecordPayload {
    /// The payload with empty texts.
    fn default() -> (payload: PatientRecordPayload)
        ensures
            payload.name@ == Seq::<char>::empty(),
            payload.complaint@ == Seq::<char>::empty(),
    {
        PatientRecordPayload { name: String::new(), complaint: String::new() }
    }
}

impl PatientRecordPayload {
    /// Whether a record made of this payload can be stored.
    pub open spec fn fits(&self) -> bool {
        entry_fits(self.name@, self.complaint@)
    }

    /// Tells whether a record made of this payload can be stored.
    pub fn is_storable(&self) -> (yes: bool)
        ensures
            yes == self.fits(),
    {
        texts_fit(&self.name, &self.complaint)
    }
}

impl PatientRecord {
    /// Whether this record can be stored.
    pub open spec fn fits(&self) -> bool {
        entry_fits(self.name@, self.complaint@)
    }

    /// Tells whether this record can be stored.
    pub fn is_storable(&self) -> (yes: bool)
        ensures
            yes == self.fits(),
    {
        texts_fit(&self.name, &self.complaint)
    }
}

/// Tells whether an entry with these two texts can be stored.
fn texts_fit(name: &String, complaint: &String) -> (yes: bool)
    ensures
        yes == entry_fits(name@, complaint@),
{
    let limit: u64 = 0xffff_ffff - ENTRY_OVERHEAD as u64;
    let name_bytes: u64 = name.as_str().as_bytes().len() as u64;
    let complaint_bytes: u64 = complaint.as_str().as_bytes().len() as u64;
    name_bytes <= limit && complaint_bytes <= limit - name_bytes
}

/// Why a handler did not do what it was asked.
#[derive(Clone, Debug, PartialEq, Eq)]
pub enum Error {
    /// No record has the identifier that the request named.
    NotFound { msg: String },
}

impl Error {
    /// The text of the error.
    pub open spec fn message(self) -> Seq<char> {
        match self {
            Error::NotFound { msg } => msg@,
        }
    }
}

/// The text of the error for reading a record that does not exist.
pub open spec fn missing_on_get(id: u64) -> Seq<char> {
    "Patient record with id="@ + decimal(id as nat) + " not found"@
}

/// The text of the error for updating a record that does not exist.
pub open spec fn missing_on_update(id: u64) -> Seq<char> {
    "Couldn't update patient record with id="@ + decimal(id as nat)
        + ". Record not found"@
}

/// The text of the error for deleting a record that does not exist.
pub open spec fn missing_on_delete(id: u64) -> Seq<char> {
    "Couldn't delete patient record with id="@ + decimal(id as nat)
        + ". Record not found."@
}

/// Puts the numeral of `id` between two texts.
fn around_id(before: &str, id: u64, after: &str) -> (text: String)
    ensures
        text@ == before@ + decimal(id as nat) + after@,
{
    let numeral = to_decimal(id);
    String::from_str(before).concat(numeral.as_str()).concat(after)
}

/// The error for reading a record that does not exist.
pub fn not_found_on_get(id: u64) -> (error: Error)
    ensures
        error.message() == missing_on_get(id),
{
    Error::NotFound { msg: around_id("Patient record with id=", id, " not found") }
}

/// The error for updating a record that does not exist.
pub fn not_found_on_update(id: u64) -> (error: Error)
    ensures
        error.message() == missing_on_update(id),
{
    Error::NotFound {
        msg: around_id("Couldn't update patient record with id=", id, ". Record not found"),
    }
}

/// The error for deleting a record that does not exist.
pub fn not_found_on_delete(id: u64) -> (error: Error)
    ensures
        error.message() == missing_on_delete(id),
{
    Error::NotFound {
        msg: around_id("Couldn't delete patient record with id=", id, ". Record not found."),
    }
}

} // verus!
