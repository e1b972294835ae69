//! The table of claimed sessions: a hash map with the Fx hasher, filed by the
//! number of the datagram peer.
//!
//! Verus knows the map type but nothing of maps built with this hasher, so
//! each operation that the registry uses is stated here, over the map's view,
//! and believed.

use crate::session::Session;
use rustc_hash::FxHashMap;
use vstd::prelude::*;

verus! {

/// The hasher builder of `rustc_hash`, which the table is built with.
#[verifier::external_type_specification]
#[verifier::external_body]
pub struct ExFxBuildHasher(rustc_hash::FxBuildHasher);

/// Calls `Default::default` for `FxHashMap`, which makes an empty map.
#[verifier::external_body]
pub(crate) fn table_new() -> (table: FxHashMap<u64, Session>)
    ensures
        table@ =~= Map::empty(),
{
    FxHashMap::default()
}

/// Calls `HashMap::len`: the number of entries.
#[verifier::external_body]
pub(crate) fn table_len(table: &FxHashMap<u64, Session>) -> (n: usize)
    ensures
        n == table@.len(),
{
    table.len()
}

/// Calls `HashMap::get`: the value filed under the key, if there is one.
#[verifier::external_body]
pub(crate) fn table_get(table: &FxHashMap<u64, Session>, key: u64) -> (r: Option<&Session>)
    ensures
        r == (if table@.contains_key(key) {
            Some(&table@[key])
        } else {
            None
        }),
{
    table.get(&key)
}

/// Calls `HashMap::insert`: files the value under the key and hands back the
/// value that was filed there before, if there was one.
#[verifier::external_body]
pub(crate) fn table_insert(table: &mut FxHashMap<u64, Session>, key: u64, value: Session) -> (r:
    Option<Session>)
    ensures
        final(table)@ == old(table)@.insert(key, value),
        r == (if old(table)@.contains_key(key) {
            Some(old(table)@[key])
        } else {
            None
        }),
{
    table.insert(key, value)
}

/// Calls `HashMap::remove`: takes the entry under the key out and hands its
/// value back, if there was one.
#[verifier::external_body]
pub(crate) fn table_remove(table: &mut FxHashMap<u64, Session>, key: u64) -> (r: Option<Session>)
    ensures
        final(table)@ == old(table)@.remove(key),
        r == (if old(table)@.contains_key(key) {
            Some(old(table)@[key])
        } else {
            None
        }),
{
    table.remove(&key)
}

/// Calls `HashMap::keys` and collects what it yields: every key once, in an
/// order that nothing is said of.
#[verifier::external_body]
pub(crate) fn table_keys(table: &FxHashMap<u64, Session>) -> (keys: Vec<u64>)
    ensures
        keys@.no_duplicates(),
        forall|k: u64| keys@.contains(k) <==> table@.contains_key(k),
{
    table.keys().copied().collect()
}

} // verus!
