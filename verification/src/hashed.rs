//! Hash collections with ahash's hasher, keyed by view id numbers.
use ahash::HashMap;
use ahash::HashSet;
use vstd::prelude::*;

verus! {

/// The hasher state of ahash.
#[verifier::external_type_specification]
#[verifier::external_body]
pub struct ExAHashState(ahash::RandomState);

/// Calls `insert` of a set hashed by ahash: the key is a member afterwards, and the result says
/// whether it was none before.
#[verifier::external_body]
pub(crate) fn set_insert(set: &mut HashSet<u128>, key: u128) -> (added: bool)
    ensures
        final(set)@ == old(set)@.insert(key),
        added == !old(set)@.contains(key),
{
    set.insert(key)
}

/// Calls `remove` of a set hashed by ahash: the key is no member afterwards, and the result says
/// whether it was one before.
#[verifier::external_body]
pub(crate) fn set_remove(set: &mut HashSet<u128>, key: u128) -> (removed: bool)
    ensures
        final(set)@ == old(set)@.remove(key),
        removed == old(set)@.contains(key),
{
    set.remove(&key)
}

/// Calls `insert` of a map hashed by ahash: the key leads to the value afterwards.
#[verifier::external_body]
pub(crate) fn map_insert<V>(map: &mut HashMap<u128, V>, key: u128, value: V)
    ensures
        final(map)@ == old(map)@.insert(key, value),
{
    map.insert(key, value);
}

/// Calls `get` of a map hashed by ahash: the value that the key leads to, if it is in the map.
#[verifier::external_body]
pub(crate) fn map_get<V>(map: &HashMap<u128, V>, key: u128) -> (res: Option<&V>)
    ensures
        res == (if map@.dom().contains(key) {
            Some(&map@[key])
        } else {
            None
        }),
{
    map.get(&key)
}

/// Calls `len` of a map hashed by ahash: the number of its keys.
#[verifier::external_body]
pub(crate) fn map_len<V>(map: &HashMap<u128, V>) -> (res: usize)
    ensures
        res == map@.dom().len(),
{
    map.len()
}

} // verus!
