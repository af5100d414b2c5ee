//! Citation grouping and group sorting.

use vstd::prelude::*;

verus! {

/// Keys by which grouped citations are sorted.
#[derive(Debug, Clone, Copy, PartialEq, Eq, Structural)]
pub enum SortKey {
    Author,
    Issued,
    Title,
    RefType,
}

/// One key of a group sort, with its direction and optional explicit order.
#[derive(Debug, Clone, PartialEq)]
pub struct GroupSortKey {
    pub key: SortKey,
    pub ascending: bool,
    /// Explicit order of values for this key, if any.
    pub order: Option<Vec<String>>,
    /// Name sort order for contributor keys, if any.
    pub sort_order: Option<String>,
}

/// A sequence of group sort keys.
#[derive(Debug, Clone, PartialEq)]
pub struct GroupSort {
    pub template: Vec<GroupSortKey>,
}

/// Whether `k` sorts ascending by `key` with no explicit order.
pub open spec fn is_plain_group_key(k: GroupSortKey, key: SortKey) -> bool {
    k.key == key && k.ascending && k.order is None && k.sort_order is None
}

/// Whether `g` sorts ascending by exactly `keys`, with no explicit orders.
pub open spec fn is_plain_group_sort(g: GroupSort, keys: Seq<SortKey>) -> bool {
    g.template@.len() == keys.len() && forall|i: int|
        0 <= i < keys.len() ==> is_plain_group_key(#[trigger] g.template@[i], keys[i])
}

/// An ascending key with no explicit order.
pub fn plain_group_key(key: SortKey) -> (r: GroupSortKey)
    ensures
        is_plain_group_key(r, key),
{
    GroupSortKey { key, ascending: true, order: None, sort_order: None }
}

} // verus!
