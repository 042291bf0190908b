//! The table of addresses whose access signals an event.

use std::hash::BuildHasherDefault;

use fnv::{FnvHashMap, FnvHasher};
use vstd::prelude::*;

verus! {

/// The hasher of the table.
#[verifier::external_type_specification]
#[verifier::external_body]
pub struct ExFnvHasher(FnvHasher);

/// What makes a hasher for the table.
#[verifier::external_type_specification]
#[verifier::external_body]
#[verifier::reject_recursive_types(H)]
pub struct ExBuildHasherDefault<H>(BuildHasherDefault<H>);

/// `fnv::FnvHashMap::default`: a new table is empty.
#[verifier::external_body]
pub(crate) fn table_new() -> (table: FnvHashMap<(u8, u64), i32>)
    ensures
        (table@ == Map::<(u8, u64), i32>::empty()),
{
    FnvHashMap::default()
}

/// `insert` of a `fnv::FnvHashMap`: the key has the new value afterwards, in
/// place of any old one, and nothing else changes. What is returned, the old
/// value, is dropped.
#[verifier::external_body]
pub(crate) fn table_insert(table: &mut FnvHashMap<(u8, u64), i32>, key: (u8, u64), event: i32)
    ensures
        final(table)@ == old(table)@.insert(key, event),
{
    table.insert(key, event);
}

/// `remove` of a `fnv::FnvHashMap`: the key is gone afterwards and nothing else
/// changes. What is returned, the old value, is dropped.
#[verifier::external_body]
pub(crate) fn table_remove(table: &mut FnvHashMap<(u8, u64), i32>, key: (u8, u64))
    ensures
        final(table)@ == old(table)@.remove(key),
{
    table.remove(&key);
}

/// `get` of a `fnv::FnvHashMap`: the value of the key, if it has one.
#[verifier::external_body]
pub(crate) fn table_get(table: &FnvHashMap<(u8, u64), i32>, key: (u8, u64)) -> (event: Option<i32>)
    ensures
        event == (if table@.contains_key(key) {
            Some(table@[key])
        } else {
            None
        }),
{
    table.get(&key).copied()
}

} // verus!
