//! The stable-memory structures the store is built on.
//!
//! Everything in this file is taken on trust: the types hide a structure of
//! `ic-stable-structures`, and each function is a single call into that crate
//! with a contract that restates what the crate's source does. The rest of
//! the library is proved against these contracts.
//!
//! The crate asks that every structure has a region of memory to itself. The
//! contracts below hold under that discipline, which the store's constructors
//! follow: they are the only callers, and they give the counter and the map
//! different regions of one manager.
//!
//! A call that has to enlarge memory aborts when the host has no more to give,
//! as an allocation does.

use ic_stable_structures::memory_manager::{MemoryId, MemoryManager, VirtualMemory};
use ic_stable_structures::{Cell, DefaultMemoryImpl, StableBTreeMap};
use vstd::prelude::*;
use vstd::utf8::encode_utf8;

verus! {

/// What the map keeps under an identifier: name, identifier, complaint.
pub type Entry = (String, u64, String);

/// An entry as a mathematical value.
pub type EntryView = (Seq<char>, u64, Seq<char>);

/// The bytes an encoded entry takes besides its two texts: one byte that
/// says how wide the length of the name is, up to four for that length, and
/// eight for the identifier.
pub const ENTRY_OVERHEAD: u32 = 13;

/// The identifier that no region may have: the manager marks unused buckets
/// with it.
pub const RESERVED_REGION: u8 = 255;

/// Whether an entry with these texts can be stored. The map records the
/// length of an encoded entry in 32 bits.
pub open spec fn entry_fits(name: Seq<char>, complaint: Seq<char>) -> bool {
    encode_utf8(name).len() + encode_utf8(complaint).len() + ENTRY_OVERHEAD <= u32::MAX
}

/// The entries of a map that holds nothing.
pub open spec fn no_entries() -> Map<u64, EntryView> {
    Map::empty()
}

/// The host's stable memory, divided into regions. Hides a `MemoryManager`
/// over `DefaultMemoryImpl`.
#[verifier::external_body]
pub struct Regions {
    inner: MemoryManager<DefaultMemoryImpl>,
}

/// One region of stable memory. Hides a `VirtualMemory`.
#[verifier::external_body]
pub struct Region {
    inner: VirtualMemory<DefaultMemoryImpl>,
}

/// A persistent cell with one `u64` in it. Hides a `Cell<u64, _>`.
#[verifier::external_body]
pub struct IdCell {
    inner: Cell<u64, VirtualMemory<DefaultMemoryImpl>>,
}

/// A persistent ordered map from identifiers to entries. Hides a
/// `StableBTreeMap<u64, (String, u64, String), _>`.
#[verifier::external_body]
pub struct RecordMap {
    inner: StableBTreeMap<u64, Entry, VirtualMemory<DefaultMemoryImpl>>,
}

/// The number a cell holds.
pub uninterp spec fn cell_value(cell: IdCell) -> u64;

/// The entries a map holds, by identifier.
pub uninterp spec fn map_entries(map: RecordMap) -> Map<u64, EntryView>;

impl Regions {
    /// `MemoryManager::init` on `DefaultMemoryImpl::default()`. Nothing is
    /// claimed of the result: the manager takes up whatever layout the memory
    /// already holds, and aborts on one written by a version it cannot read.
    #[verifier::external_body]
    pub(crate) fn open() -> Regions {
        Regions { inner: MemoryManager::init(DefaultMemoryImpl::default()) }
    }

    /// `MemoryManager::get` with `MemoryId::new(id)`. `MemoryId::new` panics
    /// on the reserved identifier and on nothing else.
    #[verifier::external_body]
    pub(crate) fn region(&self, id: u8) -> Region
        requires
            id != RESERVED_REGION,
    {
        Region { inner: self.inner.get(MemoryId::new(id)) }
    }
}

impl IdCell {
    /// `Cell::new`: overwrites what the region held, and the cell holds
    /// `value`.
    #[verifier::external_body]
    pub(crate) fn new(region: Region, value: u64) -> (cell: IdCell)
        ensures
            cell_value(cell) == value,
    {
        IdCell { inner: Cell::new(region.inner, value) }
    }

    /// `Cell::init`: takes up the cell that the region holds, or writes
    /// `default_value` where it holds none. Which of the two happens depends
    /// on the memory, so nothing is claimed of the result. It aborts on a
    /// cell written in a layout it cannot read.
    #[verifier::external_body]
    pub(crate) fn init(region: Region, default_value: u64) -> IdCell {
        IdCell { inner: Cell::init(region.inner, default_value) }
    }

    /// `Cell::get`: the number the cell holds.
    #[verifier::external_body]
    pub(crate) fn get(&self) -> (value: u64)
        ensures
            value == cell_value(*self),
    {
        *self.inner.get()
    }

    /// `Cell::set`: the cell holds `value` afterwards, and the call returns
    /// the number it held before.
    #[verifier::external_body]
    pub(crate) fn set(&mut self, value: u64) -> (previous: u64)
        ensures
            cell_value(*final(self)) == value,
            previous == cell_value(*old(self)),
    {
        self.inner.set(value)
    }
}

impl RecordMap {
    /// `StableBTreeMap::new`: overwrites what the region held with an empty
    /// map.
    #[verifier::external_body]
    pub(crate) fn new(region: Region) -> (records: RecordMap)
        ensures
            map_entries(records) == no_entries(),
    {
        RecordMap { inner: StableBTreeMap::new(region.inner) }
    }

    /// `StableBTreeMap::init`: loads the map that the region holds, or makes
    /// an empty one where it holds none. Which of the two happens depends on
    /// the memory, so nothing is claimed of the result. It aborts on a map
    /// written in a layout it cannot read.
    #[verifier::external_body]
    pub(crate) fn init(region: Region) -> RecordMap {
        RecordMap { inner: StableBTreeMap::init(region.inner) }
    }

    /// `StableBTreeMap::get`: a copy of the entry under `id`, where there is
    /// one.
    #[verifier::external_body]
    pub(crate) fn get(&self, id: u64) -> (found: Option<Entry>)
        ensures
            found is Some <==> map_entries(*self).dom().contains(id),
            found matches Some(e) ==> (e.0@, e.1, e.2@) == map_entries(*self)[id],
    {
        self.inner.get(&id)
    }

    /// `StableBTreeMap::insert`: puts `entry` under `id`, in place of what
    /// was there, and returns what was there. The entry has to fit: the map
    /// writes the length of the encoded entry as a `u32`.
    #[verifier::external_body]
    pub(crate) fn insert(&mut self, id: u64, entry: Entry) -> (previous: Option<Entry>)
        requires
            entry_fits(entry.0@, entry.2@),
        ensures
            map_entries(*final(self)) == map_entries(*old(self)).insert(
                id,
                (entry.0@, entry.1, entry.2@),
            ),
            previous is Some <==> map_entries(*old(self)).dom().contains(id),
            previous matches Some(e) ==> (e.0@, e.1, e.2@) == map_entries(*old(self))[id],
    {
        self.inner.insert(id, entry)
    }

    /// `StableBTreeMap::remove`: takes the entry under `id` out and returns
    /// it, where there is one; the other entries stay.
    #[verifier::external_body]
    pub(crate) fn remove(&mut self, id: u64) -> (removed: Option<Entry>)
        ensures
            map_entries(*final(self)) == map_entries(*old(self)).remove(id),
            removed is Some <==> map_entries(*old(self)).dom().contains(id),
            removed matches Some(e) ==> (e.0@, e.1, e.2@) == map_entries(*old(self))[id],
    {
        self.inner.remove(&id)
    }
}

} // verus!
