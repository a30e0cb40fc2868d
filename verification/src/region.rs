//! Stable regions, and the two structures of `ic_stable_structures` that the
//! store keeps in them: an ordered map from identifier to encoded record, and
//! a cell that holds the last identifier issued.
//!
//! Nothing in this file is proved. Each function makes one call into
//! `ic_stable_structures`, and its contract says what this library takes that
//! call to do. A map or a cell stands for its contents through `map_entries`
//! and `cell_value`; the library hands each region to one structure only, so
//! that a write to one structure leaves the contents of every other alone.
//!
//! Regions that were written by anything but this library are not provided
//! for: a structure of another layout makes `region_manager`, `map_init` and
//! `cell_init` stop the process, and so does a later read of a value that is
//! longer than a record can be. There is no store to work with then.

use crate::record::MAX_RECORD_SIZE;
use ic_stable_structures::cell::{InitError, ValueError};
use ic_stable_structures::memory_manager::{MemoryId, MemoryManager, VirtualMemory};
use ic_stable_structures::storable::Blob;
use ic_stable_structures::{Cell, DefaultMemoryImpl, StableBTreeMap};
use vstd::prelude::*;

verus! {

/// Number of regions that the manager can hand out.
pub const MAX_REGIONS: u8 = 255;

/// `ic_stable_structures::memory_manager::MemoryManager` over the default
/// memory: the partitioner that divides one memory into regions.
#[verifier::external_body]
pub struct RegionManager {
    inner: MemoryManager<DefaultMemoryImpl>,
}

/// `ic_stable_structures::memory_manager::VirtualMemory`: one region.
#[verifier::external_body]
pub struct Region {
    inner: VirtualMemory<DefaultMemoryImpl>,
}

/// `ic_stable_structures::StableBTreeMap` from `u64` to a blob of at most
/// `MAX_RECORD_SIZE` bytes, in one region.
#[verifier::external_body]
pub struct RecordMap {
    inner: StableBTreeMap<u64, Blob<512>, VirtualMemory<DefaultMemoryImpl>>,
}

/// `ic_stable_structures::Cell` that holds a `u64`, in one region.
#[verifier::external_body]
pub struct IdCell {
    inner: Cell<u64, VirtualMemory<DefaultMemoryImpl>>,
}

/// `ic_stable_structures::cell::ValueError`: why a cell did not take a value.
#[verifier::external_type_specification]
#[verifier::external_body]
pub struct ExValueError(ValueError);

/// `ic_stable_structures::cell::InitError`: why a cell could not be set up.
#[verifier::external_type_specification]
#[verifier::external_body]
pub struct ExInitError(InitError);

/// The entries that a map holds: for each key, the bytes stored under it.
pub uninterp spec fn map_entries(m: RecordMap) -> Map<u64, Seq<u8>>;

/// The value that a cell holds.
pub uninterp spec fn cell_value(c: IdCell) -> u64;

/// The map without entries.
pub open spec fn no_entries() -> Map<u64, Seq<u8>> {
    Map::empty()
}

/// `pairs` holds every entry of `entries` once, by ascending key.
pub open spec fn lists_entries(pairs: Seq<(u64, Vec<u8>)>, entries: Map<u64, Seq<u8>>) -> bool {
    &&& forall|i: int, j: int| 0 <= i < j < pairs.len() ==> pairs[i].0 < pairs[j].0
    &&& forall|i: int|
        0 <= i < pairs.len() ==> #[trigger] entries.contains_pair(pairs[i].0, pairs[i].1@)
    &&& forall|k: u64| #[trigger]
        entries.dom().contains(k) ==> exists|i: int| 0 <= i < pairs.len() && pairs[i].0 == k
}

/// `MemoryManager::init` on `DefaultMemoryImpl::default()`. Nothing is
/// claimed of the manager that comes back.
#[verifier::external_body]
pub(crate) fn region_manager() -> RegionManager {
    RegionManager { inner: MemoryManager::init(DefaultMemoryImpl::default()) }
}

/// `MemoryManager::get` with `MemoryId::new(id)`. The identifier 255 is left
/// out: `MemoryId::new` refuses it. Nothing is claimed of the region.
#[verifier::external_body]
pub(crate) fn region(manager: &RegionManager, id: u8) -> Region
    requires
        id < MAX_REGIONS,
{
    Region { inner: manager.inner.get(MemoryId::new(id)) }
}

/// `StableBTreeMap::new`: a map in `region`, in place of whatever the region
/// held. The contract claims that the map is empty.
#[verifier::external_body]
pub(crate) fn map_new(region: Region) -> (m: RecordMap)
    ensures
        map_entries(m) == no_entries(),
{
    RecordMap { inner: StableBTreeMap::new(region.inner) }
}

/// `StableBTreeMap::init`: the map that `region` holds, or a new one where it
/// holds none. What the map contains depends on the region; the contract
/// claims only that it has finitely many entries.
#[verifier::external_body]
pub(crate) fn map_init(region: Region) -> (m: RecordMap)
    ensures
        map_entries(m).dom().finite(),
{
    RecordMap { inner: StableBTreeMap::init(region.inner) }
}

/// `StableBTreeMap::into_memory`, then `StableBTreeMap::init` on that memory:
/// the map as a restart finds it. The contract claims that it holds the
/// entries that `m` held.
#[verifier::external_body]
pub(crate) fn map_reload(m: RecordMap) -> (again: RecordMap)
    ensures
        map_entries(again) == map_entries(m),
{
    RecordMap { inner: StableBTreeMap::init(m.inner.into_memory()) }
}

/// `StableBTreeMap::contains_key`. The contract claims that it tells whether
/// `id` is a key of the map.
#[verifier::external_body]
pub(crate) fn map_contains(m: &RecordMap, id: u64) -> (found: bool)
    ensures
        found == map_entries(*m).dom().contains(id),
{
    m.inner.contains_key(&id)
}

/// `StableBTreeMap::get`. The contract claims that it returns the bytes
/// stored under `id`, and `None` where `id` is no key of the map.
#[verifier::external_body]
pub(crate) fn map_get(m: &RecordMap, id: u64) -> (out: Option<Vec<u8>>)
    ensures
        match out {
            Some(bytes) => map_entries(*m).contains_pair(id, bytes@),
            None => !map_entries(*m).dom().contains(id),
        },
{
    match m.inner.get(&id) {
        Some(blob) => Some(blob.as_slice().to_vec()),
        None => None,
    }
}

/// `StableBTreeMap::insert`. The contract claims that afterwards `bytes` are
/// stored under `id`, in place of what was stored there, and that every
/// other entry is as before. Longer values are left out: a blob cannot hold
/// them.
#[verifier::external_body]
pub(crate) fn map_insert(m: &mut RecordMap, id: u64, bytes: &[u8])
    requires
        bytes@.len() <= MAX_RECORD_SIZE,
    ensures
        map_entries(*final(m)) == map_entries(*old(m)).insert(id, bytes@),
{
    if let Ok(blob) = Blob::try_from(bytes) {
        m.inner.insert(id, blob);
    }
}

/// `StableBTreeMap::iter`, collected. The contract claims that the iterator
/// yields every entry of the map once, by ascending key.
#[verifier::external_body]
pub(crate) fn map_pairs(m: &RecordMap) -> (pairs: Vec<(u64, Vec<u8>)>)
    ensures
        lists_entries(pairs@, map_entries(*m)),
{
    m.inner.iter().map(|(id, blob)| (id, blob.as_slice().to_vec())).collect()
}

/// `Cell::new`: a cell in `region` that holds `value`, in place of whatever
/// the region held. The call fails where the region cannot grow to hold the
/// value.
#[verifier::external_body]
pub(crate) fn cell_new(region: Region, value: u64) -> (out: Result<IdCell, ValueError>)
    ensures
        out matches Ok(c) ==> cell_value(c) == value,
{
    match Cell::new(region.inner, value) {
        Ok(inner) => Ok(IdCell { inner }),
        Err(e) => Err(e),
    }
}

/// `Cell::init`: the cell that `region` holds, or a new one with
/// `default_value` where it holds none. What the cell contains depends on
/// the region, so nothing is claimed of it.
#[verifier::external_body]
pub(crate) fn cell_init(region: Region, default_value: u64) -> Result<IdCell, InitError> {
    match Cell::init(region.inner, default_value) {
        Ok(inner) => Ok(IdCell { inner }),
        Err(e) => Err(e),
    }
}

/// `Cell::into_memory`, then `Cell::init` on that memory: the cell as a
/// restart finds it. The contract claims that on success it holds the value
/// that `c` held.
#[verifier::external_body]
pub(crate) fn cell_reload(c: IdCell) -> (out: Result<IdCell, InitError>)
    ensures
        out matches Ok(again) ==> cell_value(again) == cell_value(c),
{
    match Cell::init(c.inner.into_memory(), 0) {
        Ok(inner) => Ok(IdCell { inner }),
        Err(e) => Err(e),
    }
}

/// `Cell::get`. The contract claims that it returns the value held.
#[verifier::external_body]
pub(crate) fn cell_get(c: &IdCell) -> (value: u64)
    ensures
        value == cell_value(*c),
{
    *c.inner.get()
}

/// `Cell::set`. The contract claims that on success the cell holds `value`
/// and the call returns what it held before, and that on failure the cell
/// holds what it held before.
#[verifier::external_body]
pub(crate) fn cell_set(c: &mut IdCell, value: u64) -> (out: Result<u64, ValueError>)
    ensures
        match out {
            Ok(previous) => previous == cell_value(*old(c)) && cell_value(*final(c)) == value,
            Err(_) => cell_value(*final(c)) == cell_value(*old(c)),
        },
{
    c.inner.set(value)
}

} // verus!
