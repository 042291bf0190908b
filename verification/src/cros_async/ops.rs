//! The table of operations that are waited for.

use slab::Slab;
use vstd::prelude::*;

verus! {

/// A slab.
#[verifier::external_type_specification]
#[verifier::external_body]
#[verifier::reject_recursive_types(T)]
pub struct ExSlab<T>(slab::Slab<T>);

/// The state of an operation.
#[derive(Clone, Copy, Debug, PartialEq, Eq)]
pub enum OpStatus {
    /// It is waited for; `fd` becomes ready, and the task that `waker` stands
    /// for is to be woken then.
    Pending { fd: i32, waker: Option<u64> },
    /// It is done.
    Completed,
    /// It is not an operation: the reactor itself is woken by it.
    WakeEvent,
}

/// What a slab holds: the entries by their keys.
pub uninterp spec fn slab_entries(ops: Slab<OpStatus>) -> Map<usize, OpStatus>;

/// The key that the next entry of a slab gets.
pub uninterp spec fn slab_next_key(ops: Slab<OpStatus>) -> usize;

/// `slab::Slab::with_capacity`: the slab is empty and hands out the key zero
/// first.
#[verifier::external_body]
pub(crate) fn slab_with_capacity(capacity: usize) -> (ops: Slab<OpStatus>)
    requires
        capacity <= 1024,
    ensures
        (slab_entries(ops) == Map::<usize, OpStatus>::empty()),
        slab_next_key(ops) == 0,
{
    Slab::with_capacity(capacity)
}

/// `slab::Slab::vacant_key`: the key that the next insertion returns, which no
/// entry has.
#[verifier::external_body]
pub(crate) fn slab_vacant_key(ops: &Slab<OpStatus>) -> (key: usize)
    ensures
        key == slab_next_key(*ops),
        !slab_entries(*ops).contains_key(key),
{
    ops.vacant_key()
}

/// `slab::Slab::insert`: the entry is added under the next key, which no other
/// entry has, and the key is returned. Which key comes next is not stated.
#[verifier::external_body]
pub(crate) fn slab_insert(ops: &mut Slab<OpStatus>, op: OpStatus) -> (key: usize)
    ensures
        key == slab_next_key(*old(ops)),
        !slab_entries(*old(ops)).contains_key(key),
        slab_entries(*final(ops)) == slab_entries(*old(ops)).insert(key, op),
{
    ops.insert(op)
}

/// `slab::Slab::get`: the entry with this key, if there is one.
#[verifier::external_body]
pub(crate) fn slab_get(ops: &Slab<OpStatus>, key: usize) -> (op: Option<OpStatus>)
    ensures
        op == (if slab_entries(*ops).contains_key(key) {
            Some(slab_entries(*ops)[key])
        } else {
            None
        }),
{
    ops.get(key).copied()
}

/// `slab::Slab::index_mut`: the entry with this key is replaced and the next
/// key stays. The outside function panics where there is no such entry.
#[verifier::external_body]
pub(crate) fn slab_set(ops: &mut Slab<OpStatus>, key: usize, op: OpStatus)
    requires
        slab_entries(*old(ops)).contains_key(key),
    ensures
        slab_entries(*final(ops)) == slab_entries(*old(ops)).insert(key, op),
        slab_next_key(*final(ops)) == slab_next_key(*old(ops)),
{
    ops[key] = op;
}

/// `slab::Slab::remove`: the entry with this key is taken out, and its key comes
/// next. The outside function panics where there is no such entry.
#[verifier::external_body]
pub(crate) fn slab_remove(ops: &mut Slab<OpStatus>, key: usize) -> (op: OpStatus)
    requires
        slab_entries(*old(ops)).contains_key(key),
    ensures
        op == slab_entries(*old(ops))[key],
        slab_entries(*final(ops)) == slab_entries(*old(ops)).remove(key),
        slab_next_key(*final(ops)) == key,
{
    ops.remove(key)
}

/// Whether `items` are the values of a map in the ascending order of their keys.
pub open spec fn values_in_key_order(entries: Map<usize, OpStatus>, items: Seq<OpStatus>) -> bool {
    exists|keys: Seq<usize>| #[trigger] lists_values(entries, items, keys)
}

/// Whether `keys` are the keys of a map in ascending order, and `items` their
/// values.
pub open spec fn lists_values(
    entries: Map<usize, OpStatus>,
    items: Seq<OpStatus>,
    keys: Seq<usize>,
) -> bool {
    &&& keys.len() == items.len()
    &&& forall|i: int, j: int| 0 <= i < j < keys.len() ==> keys[i] < keys[j]
    &&& forall|key: usize| #[trigger] entries.contains_key(key) <==> keys.contains(key)
    &&& forall|i: int| 0 <= i < keys.len() ==> entries[#[trigger] keys[i]] == items[i]
}

/// `slab::Slab::drain`: all entries are taken out, in the order of their keys,
/// and the key zero comes next.
#[verifier::external_body]
pub(crate) fn slab_drain(ops: &mut Slab<OpStatus>) -> (items: Vec<OpStatus>)
    ensures
        values_in_key_order(slab_entries(*old(ops)), items@),
        (slab_entries(*final(ops)) == Map::<usize, OpStatus>::empty()),
        slab_next_key(*final(ops)) == 0,
{
    ops.drain().collect()
}

} // verus!
