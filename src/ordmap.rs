//! The lookup from export table index to name table position, held in an
//! FNV-hashed map.
use vstd::prelude::*;
use fnv::{FnvHasher, FnvHashMap};
use std::hash::BuildHasherDefault;

verus! {

#[verifier::external_type_specification]
#[verifier::external_body]
pub struct ExFnvHasher(FnvHasher);

#[verifier::external_type_specification]
#[verifier::external_body]
#[verifier::reject_recursive_types(H)]
pub struct ExBuildHasherDefault<H>(BuildHasherDefault<H>);

/// The entries of an index map.
pub uninterp spec fn index_map_entries(m: FnvHashMap<u16, u64>) -> Map<u16, u64>;

/// Relies on `FnvHashMap::default`: a new map holds no entries.
#[verifier::external_body]
pub(crate) fn index_map_new() -> (r: FnvHashMap<u16, u64>)
    ensures
        index_map_entries(r) =~= Map::empty(),
{
    FnvHashMap::default()
}

/// Relies on `HashMap::entry` with `or_insert`: a key already present keeps
/// its value, and a new key is added with `v`.
#[verifier::external_body]
pub(crate) fn index_map_insert_first(m: &mut FnvHashMap<u16, u64>, k: u16, v: u64)
    ensures
        index_map_entries(*final(m)) == (if index_map_entries(*old(m)).contains_key(k) {
            index_map_entries(*old(m))
        } else {
            index_map_entries(*old(m)).insert(k, v)
        }),
{
    m.entry(k).or_insert(v);
}

/// Relies on `HashMap::get`: the value of a present key, else nothing.
#[verifier::external_body]
pub(crate) fn index_map_get(m: &FnvHashMap<u16, u64>, k: u16) -> (r: Option<u64>)
    ensures
        r == (if index_map_entries(*m).contains_key(k) {
            Some(index_map_entries(*m)[k])
        } else {
            None::<u64>
        }),
{
    m.get(&k).copied()
}

} // verus!
