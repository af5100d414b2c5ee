//! Occurrences grouped by key in an `IndexMap`, which keeps its keys in the
//! order they were first inserted.

use vstd::prelude::*;
use indexmap::IndexMap;
use crate::compressor::key_index;

verus! {

/// The `IndexMap` of the `indexmap` crate.
#[verifier::external_type_specification]
#[verifier::external_body]
#[verifier::reject_recursive_types(K)]
#[verifier::reject_recursive_types(V)]
#[verifier::reject_recursive_types(S)]
pub struct ExIndexMap<K, V, S>(IndexMap<K, V, S>);

/// What a map of groups holds: its entries in order, each a key and the
/// positions filed under it.
pub uninterp spec fn index_groups(m: IndexMap<String, Vec<usize>>) -> Seq<(Seq<char>, Seq<usize>)>;

/// Entries with `index` filed under `key`: appended to the entry for `key`
/// where there is one, else in a new entry at the end.
pub open spec fn group_pushed(e: Seq<(Seq<char>, Seq<usize>)>, key: Seq<char>, index: usize) -> Seq<
    (Seq<char>, Seq<usize>),
> {
    let j = key_index(e, key);
    if j >= 0 {
        e.update(j, (key, e[j].1.push(index)))
    } else {
        e.push((key, seq![index]))
    }
}

/// `IndexMap::new`: a map without entries.
#[verifier::external_body]
pub(crate) fn new_groups() -> (r: IndexMap<String, Vec<usize>>)
    ensures
        index_groups(r) == Seq::<(Seq<char>, Seq<usize>)>::empty(),
{
    IndexMap::new()
}

/// `IndexMap::entry` with `Entry::or_default`, then a push on the entry's
/// vector: an occupied entry keeps its place (keys are equal strings), a
/// vacant one is inserted at the end with an empty vector.
#[verifier::external_body]
pub(crate) fn push_to_group(m: &mut IndexMap<String, Vec<usize>>, key: String, index: usize)
    ensures
        index_groups(*final(m)) == group_pushed(index_groups(*old(m)), key@, index),
{
    m.entry(key).or_default().push(index);
}

/// The entries of the map, in its order (`IntoIterator` for `IndexMap`).
#[verifier::external_body]
pub(crate) fn into_groups(m: IndexMap<String, Vec<usize>>) -> (r: Vec<(String, Vec<usize>)>)
    ensures
        r@.len() == index_groups(m).len(),
        forall|i: int|
            0 <= i < r@.len() ==> (#[trigger] r@[i]).0@ == index_groups(m)[i].0 && r@[i].1@ == index_groups(m)[i].1,
{
    m.into_iter().collect()
}

} // verus!
