//! Merging occurrences of the same component into one component whose
//! suppression and type-specific overrides say in which branches it was
//! found.

use vstd::prelude::*;
use crate::template_compiler::TemplateCompiler;
use crate::legacy::ItemType;
use crate::passes::common::{add_override, lemma_ov_insert_lookup, sel_index, single, tcv_overrides, with_override};
use crate::passes::deduplicate::{items_signature, list_signature};
use crate::passes::names::{
    contributor_role_debug_name, contributor_role_name, date_variable_debug_name, date_variable_name,
    general_term_debug_name, general_term_name, number_variable_debug_name, number_variable_name,
    simple_variable_debug_name, simple_variable_name, title_type_debug_name, title_type_name,
};
use crate::template::{ComponentOverride, Rendering, TemplateComponent, TemplateList, TypeSelector};
use crate::template_compiler::collect::{
    occs_view, tcv_rendering, with_rendering,
    BranchContext, ComponentOccurrence, ContextV, OccurrenceV,
};
use crate::template_compiler::copy::copy_component;
use crate::template_compiler::groups::{group_pushed, index_groups, into_groups, new_groups, push_to_group};
use crate::compressor::{key_index, lemma_key_index};
use crate::template_compiler::nodes::item_type_name;
use crate::template_view::{lemma_tcs_view, no_rendering, rendering_view, tc_view, tcs_view, ListV, OverrideV, RenderingV, TCV};
use crate::text::{append_str, to_owned_string};

verus! {

/// The key occurrences are grouped by: the kind and variable of a
/// component, a list by its signature.
pub open spec fn occurrence_key(c: TCV) -> Seq<char> {
    match c {
        TCV::Contributor(x, _, _) => "contributor:"@ + contributor_role_name(x.contributor),
        TCV::Date(d, _, _, _) => "date:"@ + date_variable_name(d.date),
        TCV::Title(t, _, _) => "title:"@ + title_type_name(t.title),
        TCV::Number(n, _, _) => "number:"@ + number_variable_name(n.number),
        TCV::Variable(v, _, _) => "variable:"@ + simple_variable_name(v.variable),
        TCV::Term(t, _, _) => "term:"@ + general_term_name(t.term),
        TCV::List(l) => "list:"@ + items_signature(l.items),
    }
}

impl TemplateCompiler {
    /// The grouping key of a component (`occurrence_key`).
    pub fn occurrence_key_of(&self, c: &TemplateComponent) -> (r: String)
        ensures
            r@ == occurrence_key(tc_view(*c)),
    {
        match c {
            TemplateComponent::Contributor(x) => append_str(
                to_owned_string("contributor:"),
                contributor_role_debug_name(x.contributor),
            ),
            TemplateComponent::Date(x) => append_str(to_owned_string("date:"), date_variable_debug_name(x.date)),
            TemplateComponent::Title(x) => append_str(to_owned_string("title:"), title_type_debug_name(x.title)),
            TemplateComponent::Number(x) => append_str(to_owned_string("number:"), number_variable_debug_name(x.number)),
            TemplateComponent::Variable(x) => append_str(
                to_owned_string("variable:"),
                simple_variable_debug_name(x.variable),
            ),
            TemplateComponent::Term(x) => append_str(to_owned_string("term:"), general_term_debug_name(x.term)),
            TemplateComponent::List(l) => {
                let sig = list_signature(l);
                append_str(to_owned_string("list:"), sig.as_str())
            },
        }
    }

}

/// The sort key of a source order: none sorts last.
pub open spec fn order_key(o: Option<usize>) -> usize {
    match o {
        Some(x) => x,
        None => usize::MAX,
    }
}

/// The position in sorted `t` where an element with key `k` goes after
/// all elements whose key is at most `k`.
pub open spec fn insert_position(t: Seq<usize>, k: usize, key: spec_fn(usize) -> usize) -> int
    decreases t.len(),
{
    if t.len() == 0 {
        0
    } else if key(t[0]) > k {
        0
    } else {
        1 + insert_position(t.drop_first(), k, key)
    }
}

/// `s` sorted by `key`, elements with equal keys in their order in `s`.
pub open spec fn stable_sorted(s: Seq<usize>, key: spec_fn(usize) -> usize) -> Seq<usize>
    decreases s.len(),
{
    if s.len() == 0 {
        Seq::empty()
    } else {
        let t = stable_sorted(s.drop_last(), key);
        t.insert(insert_position(t, key(s.last()), key), s.last())
    }
}

proof fn lemma_insert_position(t: Seq<usize>, k: usize, key: spec_fn(usize) -> usize)
    ensures
        0 <= insert_position(t, k, key) <= t.len(),
        forall|j: int| 0 <= j < insert_position(t, k, key) ==> key(#[trigger] t[j]) <= k,
        insert_position(t, k, key) < t.len() ==> key(t[insert_position(t, k, key)]) > k,
    decreases t.len(),
{
    if t.len() > 0 && key(t[0]) <= k {
        lemma_insert_position(t.drop_first(), k, key);
        assert forall|j: int| 0 <= j < insert_position(t, k, key) implies key(#[trigger] t[j]) <= k by {
            if j > 0 {
                assert(t[j] == t.drop_first()[j - 1]);
            }
        }
    }
}

/// `stable_sorted` keeps the length and the elements.
/// Sorting orders by key: keys never decrease along the result.
pub proof fn lemma_stable_sorted_ordered(s: Seq<usize>, key: spec_fn(usize) -> usize)
    ensures
        forall|i: int, j: int|
            0 <= i < j < stable_sorted(s, key).len() ==> key(#[trigger] stable_sorted(s, key)[i]) <= key(
                #[trigger] stable_sorted(s, key)[j],
            ),
    decreases s.len(),
{
    if s.len() > 0 {
        let t = stable_sorted(s.drop_last(), key);
        lemma_stable_sorted_ordered(s.drop_last(), key);
        let x = s.last();
        let k = key(x);
        lemma_insert_position(t, k, key);
        let p = insert_position(t, k, key);
        let r = t.insert(p, x);
        assert(r == stable_sorted(s, key));
        assert forall|j: int| p <= j < t.len() implies key(#[trigger] t[j]) > k by {
            if j > p {
                assert(key(t[p]) <= key(t[j]));
            }
        }
        assert forall|i: int, j: int| 0 <= i < j < r.len() implies key(#[trigger] r[i]) <= key(#[trigger] r[j]) by {
            if i < p {
                assert(r[i] == t[i]);
                if j < p {
                    assert(r[j] == t[j]);
                } else if j == p {
                    assert(r[j] == x);
                } else {
                    assert(r[j] == t[j - 1]);
                }
            } else if i == p {
                assert(r[i] == x);
                assert(r[j] == t[j - 1]);
            } else {
                assert(r[i] == t[i - 1]);
                assert(r[j] == t[j - 1]);
            }
        }
    }
}

pub proof fn lemma_stable_sorted(s: Seq<usize>, key: spec_fn(usize) -> usize)
    ensures
        stable_sorted(s, key).len() == s.len(),
        forall|x: usize| stable_sorted(s, key).contains(x) <==> s.contains(x),
    decreases s.len(),
{
    if s.len() > 0 {
        let t = stable_sorted(s.drop_last(), key);
        lemma_stable_sorted(s.drop_last(), key);
        lemma_insert_position(t, key(s.last()), key);
        let p = insert_position(t, key(s.last()), key);
        let r = t.insert(p, s.last());
        assert forall|x: usize| r.contains(x) <==> s.contains(x) by {
            if r.contains(x) {
                let j = choose|j: int| 0 <= j < r.len() && r[j] == x;
                if j < p {
                    assert(t[j] == x);
                    assert(s.drop_last().contains(x));
                    let i = choose|i: int| 0 <= i < s.drop_last().len() && s.drop_last()[i] == x;
                    assert(s[i] == x);
                } else if j == p {
                    assert(s[s.len() - 1] == x);
                } else {
                    assert(t[j - 1] == x);
                    assert(s.drop_last().contains(x));
                    let i = choose|i: int| 0 <= i < s.drop_last().len() && s.drop_last()[i] == x;
                    assert(s[i] == x);
                }
            }
            if s.contains(x) {
                let i = choose|i: int| 0 <= i < s.len() && s[i] == x;
                if i == s.len() - 1 {
                    assert(r[p] == x);
                } else {
                    assert(s.drop_last()[i] == x);
                    assert(s.drop_last().contains(x));
                    assert(t.contains(x));
                    let j = choose|j: int| 0 <= j < t.len() && t[j] == x;
                    if j < p {
                        assert(r[j] == x);
                    } else {
                        assert(r[j + 1] == x);
                    }
                }
            }
        }
    }
}

/// Sorts `s` by the keys in `keys` (`stable_sorted`).
pub fn stable_sort_indices(s: &Vec<usize>, keys: &Vec<usize>) -> (r: Vec<usize>)
    requires
        forall|i: int| 0 <= i < s@.len() ==> s@[i] < keys@.len(),
    ensures
        r@ == stable_sorted(s@, |e: usize| keys@[e as int]),
{
    let ghost key = |e: usize| keys@[e as int];
    let mut out: Vec<usize> = Vec::new();
    let mut i: usize = 0;
    while i < s.len()
        invariant
            i <= s@.len(),
            key == (|e: usize| keys@[e as int]),
            forall|j: int| 0 <= j < s@.len() ==> s@[j] < keys@.len(),
            out@ == stable_sorted(s@.subrange(0, i as int), key),
            forall|x: usize| out@.contains(x) ==> x < keys@.len(),
        decreases s@.len() - i,
    {
        let x = s[i];
        let kx = keys[x];
        proof {
            assert(s@.subrange(0, i + 1).drop_last() =~= s@.subrange(0, i as int));
            assert(s@.subrange(0, i + 1).last() == x);
            lemma_insert_position(out@, kx, key);
        }
        let mut p: usize = 0;
        while p < out.len()
            invariant
                p <= out@.len(),
                key == (|e: usize| keys@[e as int]),
                forall|x: usize| out@.contains(x) ==> x < keys@.len(),
                forall|j: int| 0 <= j < p ==> key(#[trigger] out@[j]) <= kx,
            ensures
                p <= out@.len(),
                forall|j: int| 0 <= j < p ==> key(#[trigger] out@[j]) <= kx,
                p < out@.len() ==> key(out@[p as int]) > kx,
            decreases out@.len() - p,
        {
            proof {
                assert(out@.contains(out@[p as int]));
            }
            if keys[out[p]] > kx {
                break;
            }
            p = p + 1;
        }
        proof {
            let ip = insert_position(out@, kx, key);
            if p < ip {
                assert(key(out@[p as int]) <= kx);
            }
            if ip < p {
                assert(key(out@[ip]) <= kx);
            }
            assert(p == ip);
        }
        let ghost before = out@;
        out.insert(p, x);
        proof {
            assert forall|y: usize| out@.contains(y) implies y < keys@.len() by {
                let j = choose|j: int| 0 <= j < out@.len() && out@[j] == y;
                if j < p {
                    assert(before[j] == y);
                    assert(before.contains(y));
                } else if j > p {
                    assert(before[j - 1] == y);
                    assert(before.contains(y));
                }
            }
        }
        i = i + 1;
    }
    proof {
        assert(s@.subrange(0, s@.len() as int) =~= s@);
    }
    out
}

/// A component with the rendering `r` set for the type named `t`; nothing
/// happens for a rendering that sets nothing.
pub open spec fn override_for_type(c: TCV, t: Seq<char>, r: RenderingV) -> TCV {
    if r == no_rendering() {
        c
    } else {
        with_override(c, single(t), OverrideV::Rendering(r))
    }
}

/// A component with the rendering `r` set for each of `types`, in order.
pub open spec fn overrides_for_types(c: TCV, types: Seq<ItemType>, r: RenderingV) -> TCV
    decreases types.len(),
{
    if types.len() == 0 {
        c
    } else {
        override_for_type(overrides_for_types(c, types.drop_last(), r), item_type_name(types.last()), r)
    }
}

/// A rendering with `suppress` set to `b`.
pub open spec fn with_suppress(r: RenderingV, b: bool) -> RenderingV {
    RenderingV { suppress: Some(b), ..r }
}

/// An item of a list found in branches for `types`: hidden by default and
/// shown, with its rendering, for each of them; nested lists item by item.
pub open spec fn item_for_types(c: TCV, types: Seq<ItemType>) -> TCV
    decreases c, 1nat,
{
    match c {
        TCV::List(l) => {
            proof {
                assert(decreases_to!(c => c->List_0));
                assert(decreases_to!(c->List_0 => c->List_0.items));
            }
            TCV::List(ListV { items: items_for_types(c->List_0.items, types), ..l })
        },
        _ => {
            let r = with_suppress(tcv_rendering(c), true);
            overrides_for_types(with_rendering(c, r), types, with_suppress(r, false))
        },
    }
}

/// The items of a list, each as `item_for_types` says.
pub open spec fn items_for_types(s: Seq<TCV>, types: Seq<ItemType>) -> Seq<TCV>
    decreases s, 0nat,
{
    if s.len() == 0 {
        Seq::empty()
    } else {
        items_for_types(s.drop_last(), types).push(item_for_types(s.last(), types))
    }
}

/// A list component after the members `ms`: each member found in branches
/// for some types gives the list's items those types (`items_for_types`);
/// other components are left as they are.
pub open spec fn type_list_overrides(c: TCV, occs: Seq<OccurrenceV>, ms: Seq<usize>) -> TCV
    decreases ms.len(),
{
    if ms.len() == 0 {
        c
    } else {
        let c1 = type_list_overrides(c, occs, ms.drop_last());
        match occs[ms.last() as int].context {
            ContextV::TypeSpecific(types) => match c1 {
                TCV::List(l) => TCV::List(ListV { items: items_for_types(l.items, types), ..l }),
                _ => c1,
            },
            ContextV::Default => c1,
        }
    }
}

/// A component after the members `ms`: each member found in branches for
/// some types sets, for each of them, its own rendering made visible.
pub open spec fn member_overrides(c: TCV, occs: Seq<OccurrenceV>, ms: Seq<usize>) -> TCV
    decreases ms.len(),
{
    if ms.len() == 0 {
        c
    } else {
        let c1 = member_overrides(c, occs, ms.drop_last());
        let o = occs[ms.last() as int];
        match o.context {
            ContextV::TypeSpecific(types) => overrides_for_types(c1, types, with_suppress(tcv_rendering(o.component), false)),
            ContextV::Default => c1,
        }
    }
}

/// Whether one of the members was found in a branch for every type.
pub open spec fn has_default_member(occs: Seq<OccurrenceV>, ms: Seq<usize>) -> bool {
    exists|j: int| 0 <= j < ms.len() && (#[trigger] occs[ms[j] as int]).context is Default
}

/// The members `ms` (sorted) merged into one component: the first one,
/// its list items given the members' types, visible by default when a
/// member was found in a branch for every type and hidden otherwise, then
/// each member's types made visible with that member's rendering.
pub open spec fn merged_members(occs: Seq<OccurrenceV>, ms: Seq<usize>) -> TCV {
    let base = type_list_overrides(occs[ms[0] as int].component, occs, ms);
    member_overrides(
        with_rendering(base, with_suppress(tcv_rendering(base), !has_default_member(occs, ms))),
        occs,
        ms,
    )
}

/// The least source order of the members, where any has one.
pub open spec fn min_order(occs: Seq<OccurrenceV>, ms: Seq<usize>) -> Option<usize>
    decreases ms.len(),
{
    if ms.len() == 0 {
        None
    } else {
        let m = min_order(occs, ms.drop_last());
        match occs[ms.last() as int].source_order {
            Some(x) => match m {
                Some(y) => Some(
                    if x < y {
                        x
                    } else {
                        y
                    },
                ),
                None => Some(x),
            },
            None => m,
        }
    }
}

/// Positions grouped by their keys: groups in the order their keys first
/// occur, each with its positions in order.
pub open spec fn grouping(keys: Seq<Seq<char>>) -> Seq<(Seq<char>, Seq<usize>)>
    decreases keys.len(),
{
    if keys.len() == 0 {
        Seq::empty()
    } else {
        group_pushed(grouping(keys.drop_last()), keys.last(), (keys.len() - 1) as usize)
    }
}

/// The sort keys of occurrences by their source order.
pub open spec fn order_keys(occs: Seq<OccurrenceV>) -> Seq<usize> {
    occs.map_values(|o: OccurrenceV| order_key(o.source_order))
}

/// The grouping keys of occurrences.
pub open spec fn occurrence_keys(occs: Seq<OccurrenceV>) -> Seq<Seq<char>> {
    occs.map_values(|o: OccurrenceV| occurrence_key(o.component))
}

/// The members of a group sorted by source order.
pub open spec fn sorted_members(occs: Seq<OccurrenceV>, members: Seq<usize>) -> Seq<usize> {
    stable_sorted(members, |e: usize| order_keys(occs)[e as int])
}

/// The sort keys of the groups: their least source order.
pub open spec fn group_keys(occs: Seq<OccurrenceV>, groups: Seq<(Seq<char>, Seq<usize>)>) -> Seq<usize> {
    Seq::new(groups.len(), |g: int| order_key(min_order(occs, sorted_members(occs, groups[g].1))))
}

/// `0, 1, ..., n - 1`.
pub open spec fn positions(n: nat) -> Seq<usize> {
    Seq::new(n, |g: int| g as usize)
}

/// Occurrences merged: grouped by key, each group merged
/// (`merged_members` of its members sorted by source order), and the
/// merged components sorted by the least source order of their groups.
pub open spec fn merged_components(occs: Seq<OccurrenceV>) -> Seq<TCV> {
    let groups = grouping(occurrence_keys(occs));
    let keys = group_keys(occs, groups);
    stable_sorted(positions(groups.len()), |g: usize| keys[g as int]).map_values(
        |g: usize| merged_members(occs, sorted_members(occs, groups[g as int].1)),
    )
}

/// Every group of a grouping is nonempty and holds positions below the
/// number of keys.
pub proof fn lemma_grouping(keys: Seq<Seq<char>>)
    requires
        keys.len() <= usize::MAX,
    ensures
        forall|g: int|
            0 <= g < grouping(keys).len() ==> (#[trigger] grouping(keys)[g]).1.len() > 0 && forall|j: int|
                0 <= j < grouping(keys)[g].1.len() ==> grouping(keys)[g].1[j] < keys.len(),
    decreases keys.len(),
{
    if keys.len() > 0 {
        let pre = grouping(keys.drop_last());
        lemma_grouping(keys.drop_last());
        lemma_key_index(pre, keys.last());
        let r = grouping(keys);
        assert forall|g: int| 0 <= g < r.len() implies (#[trigger] r[g]).1.len() > 0 && forall|j: int|
            0 <= j < r[g].1.len() ==> r[g].1[j] < keys.len() by {
            if g < pre.len() {
                assert(pre[g].1.len() > 0);
                assert forall|j: int| 0 <= j < r[g].1.len() implies r[g].1[j] < keys.len() by {
                    if j < pre[g].1.len() {
                        assert(pre[g].1[j] < keys.drop_last().len());
                    }
                }
            }
        }
    }
}

impl TemplateCompiler {
    /// Whether a rendering sets nothing.
    fn is_empty_rendering(&self, r: &Rendering) -> (b: bool)
        ensures
            b == (rendering_view(*r) == no_rendering()),
    {
        r.emph.is_none() && r.quote.is_none() && r.strong.is_none() && r.small_caps.is_none() && r.prefix.is_none()
            && r.suffix.is_none() && r.inner_prefix.is_none() && r.inner_suffix.is_none() && r.wrap.is_none()
            && r.suppress.is_none() && r.initialize_with.is_none() && r.strip_periods.is_none()
    }

    /// Sets the rendering for the type named `type_str` (`override_for_type`).
    pub fn add_override_to_component(&self, component: &mut TemplateComponent, type_str: String, rendering: Rendering)
        ensures
            tc_view(*final(component)) == override_for_type(tc_view(*old(component)), type_str@, rendering_view(rendering)),
    {
        if self.is_empty_rendering(&rendering) {
            return;
        }
        add_override(component, TypeSelector::Single(type_str), ComponentOverride::Rendering(rendering));
    }

    /// Sets the rendering `r` for each of `types` (`overrides_for_types`).
    fn set_for_types(&self, component: &mut TemplateComponent, types: &Vec<ItemType>, r: &Rendering)
        ensures
            tc_view(*final(component)) == overrides_for_types(tc_view(*old(component)), types@, rendering_view(*r)),
    {
        let ghost start = tc_view(*component);
        let mut k: usize = 0;
        while k < types.len()
            invariant
                k <= types@.len(),
                tc_view(*component) == overrides_for_types(start, types@.subrange(0, k as int), rendering_view(*r)),
            decreases types@.len() - k,
        {
            proof {
                assert(types@.subrange(0, k + 1).drop_last() =~= types@.subrange(0, k as int));
            }
            self.add_override_to_component(component, self.item_type_to_string(&types[k]), r.clone());
            k = k + 1;
        }
        proof {
            assert(types@.subrange(0, types@.len() as int) =~= types@);
        }
    }

    /// One list item given `types` (`item_for_types`).
    pub(crate) fn add_type_overrides_to_list_item(&self, c: TemplateComponent, types: &Vec<ItemType>) -> (r: TemplateComponent)
        ensures
            tc_view(r) == item_for_types(tc_view(c), types@),
        decreases c, 1nat,
    {
        match c {
            TemplateComponent::List(l) => {
                proof {
                    assert(decreases_to!(c => l));
                    assert(decreases_to!(l => l.items));
                    assert(decreases_to!(l.items => l.items@));
                }
                let TemplateList { items, delimiter, rendering, overrides } = l;
                let items = self.add_type_overrides_to_list_items(items, types);
                TemplateComponent::List(TemplateList { items, delimiter, rendering, overrides })
            },
            other => {
                let mut c = other;
                let mut r = self.get_component_rendering(&c);
                r.suppress = Some(true);
                self.set_component_rendering(&mut c, r.clone());
                let mut shown = r.clone();
                shown.suppress = Some(false);
                self.set_for_types(&mut c, types, &shown);
                c
            },
        }
    }

    /// Gives the items of a list found in branches for `types` those types:
    /// each hidden by default and shown for each of them, nested lists
    /// item by item (`items_for_types`).
    fn add_type_overrides_to_list_items(&self, items: Vec<TemplateComponent>, types: &Vec<ItemType>) -> (r: Vec<TemplateComponent>)
        ensures
            tcs_view(r@) == items_for_types(tcs_view(items@), types@),
        decreases items@, 0nat,
    {
        let ghost s = items@;
        let mut items = items;
        match items.pop() {
            None => {
                assert(s =~= Seq::<TemplateComponent>::empty());
                Vec::new()
            },
            Some(last) => {
                proof {
                    assert(items@ =~= s.subrange(0, s.len() - 1));
                    assert(decreases_to!(s => items@));
                    assert(decreases_to!(s => s[s.len() - 1]));
                }
                let mut out = self.add_type_overrides_to_list_items(items, types);
                let c = self.add_type_overrides_to_list_item(last, types);
                let ghost before = out@;
                out.push(c);
                proof {
                    assert(out@.drop_last() =~= before);
                    assert(s.drop_last() =~= items@);
                    lemma_tcs_view(s);
                    assert(tcs_view(s).drop_last() =~= tcs_view(s.drop_last())) by {
                        lemma_tcs_view(s.drop_last());
                    }
                }
                out
            },
        }
    }

    /// A list given `types` for its items; other components unchanged.
    fn list_for_types(&self, c: TemplateComponent, types: &Vec<ItemType>) -> (r: TemplateComponent)
        ensures
            tc_view(r) == (match tc_view(c) {
                TCV::List(l) => TCV::List(ListV { items: items_for_types(l.items, types@), ..l }),
                other => other,
            }),
    {
        match c {
            TemplateComponent::List(l) => {
                let TemplateList { items, delimiter, rendering, overrides } = l;
                let items = self.add_type_overrides_to_list_items(items, types);
                TemplateComponent::List(TemplateList { items, delimiter, rendering, overrides })
            },
            other => other,
        }
    }

    /// Merges the members `ms` of a group (`merged_members`).
    fn merge_group(&self, occs: &Vec<ComponentOccurrence>, ms: &Vec<usize>) -> (r: TemplateComponent)
        requires
            ms@.len() > 0,
            forall|j: int| 0 <= j < ms@.len() ==> ms@[j] < occs@.len(),
        ensures
            tc_view(r) == merged_members(occs_view(occs@), ms@),
    {
        let ghost ov = occs_view(occs@);
        let ghost first = ov[ms@[0] as int].component;
        let mut merged = copy_component(&occs[ms[0]].component);
        let mut k: usize = 0;
        proof {
            assert(ms@.subrange(0, 0) =~= Seq::<usize>::empty());
        }
        while k < ms.len()
            invariant
                k <= ms@.len(),
                ov == occs_view(occs@),
                forall|j: int| 0 <= j < ms@.len() ==> ms@[j] < occs@.len(),
                tc_view(merged) == type_list_overrides(first, ov, ms@.subrange(0, k as int)),
            decreases ms@.len() - k,
        {
            proof {
                assert(ms@.subrange(0, k + 1).drop_last() =~= ms@.subrange(0, k as int));
            }
            match &occs[ms[k]].context {
                BranchContext::TypeSpecific(types) => {
                    merged = self.list_for_types(merged, types);
                },
                BranchContext::Default => {},
            }
            k = k + 1;
        }
        let mut has_default = false;
        let mut k: usize = 0;
        while k < ms.len()
            invariant
                k <= ms@.len(),
                ov == occs_view(occs@),
                forall|j: int| 0 <= j < ms@.len() ==> ms@[j] < occs@.len(),
                has_default == exists|j: int| 0 <= j < k && (#[trigger] ov[ms@[j] as int]).context is Default,
            decreases ms@.len() - k,
        {
            let d = match &occs[ms[k]].context {
                BranchContext::Default => true,
                _ => false,
            };
            proof {
                assert(d == (ov[ms@[k as int] as int].context is Default));
            }
            has_default = has_default || d;
            k = k + 1;
        }
        proof {
            assert(ms@.subrange(0, ms@.len() as int) =~= ms@);
        }
        let ghost base = tc_view(merged);
        let mut r = self.get_component_rendering(&merged);
        r.suppress = Some(!has_default);
        self.set_component_rendering(&mut merged, r);
        let ghost start = tc_view(merged);
        let mut k: usize = 0;
        proof {
            assert(ms@.subrange(0, 0) =~= Seq::<usize>::empty());
        }
        while k < ms.len()
            invariant
                k <= ms@.len(),
                ov == occs_view(occs@),
                forall|j: int| 0 <= j < ms@.len() ==> ms@[j] < occs@.len(),
                tc_view(merged) == member_overrides(start, ov, ms@.subrange(0, k as int)),
            decreases ms@.len() - k,
        {
            proof {
                assert(ms@.subrange(0, k + 1).drop_last() =~= ms@.subrange(0, k as int));
            }
            let o = &occs[ms[k]];
            match &o.context {
                BranchContext::TypeSpecific(types) => {
                    let mut shown = self.get_component_rendering(&o.component);
                    shown.suppress = Some(false);
                    self.set_for_types(&mut merged, types, &shown);
                },
                BranchContext::Default => {},
            }
            k = k + 1;
        }
        proof {
            assert(ms@.subrange(0, ms@.len() as int) =~= ms@);
        }
        merged
    }

    /// The least source order of the members, as a sort key (`min_order`).
    fn min_order_key(&self, occs: &Vec<ComponentOccurrence>, ms: &Vec<usize>) -> (r: usize)
        requires
            forall|j: int| 0 <= j < ms@.len() ==> ms@[j] < occs@.len(),
        ensures
            r == order_key(min_order(occs_view(occs@), ms@)),
    {
        let ghost ov = occs_view(occs@);
        let mut m: Option<usize> = None;
        let mut k: usize = 0;
        proof {
            assert(ms@.subrange(0, 0) =~= Seq::<usize>::empty());
        }
        while k < ms.len()
            invariant
                k <= ms@.len(),
                ov == occs_view(occs@),
                forall|j: int| 0 <= j < ms@.len() ==> ms@[j] < occs@.len(),
                m == min_order(ov, ms@.subrange(0, k as int)),
            decreases ms@.len() - k,
        {
            proof {
                assert(ms@.subrange(0, k + 1).drop_last() =~= ms@.subrange(0, k as int));
            }
            match occs[ms[k]].source_order {
                Some(x) => {
                    m = match m {
                        Some(y) => Some(if x < y { x } else { y }),
                        None => Some(x),
                    };
                },
                None => {},
            }
            k = k + 1;
        }
        proof {
            assert(ms@.subrange(0, ms@.len() as int) =~= ms@);
        }
        match m {
            Some(x) => x,
            None => usize::MAX,
        }
    }

    /// Merges occurrences (`merged_components`).
    pub fn merge_occurrences(&self, occurrences: Vec<ComponentOccurrence>) -> (r: Vec<TemplateComponent>)
        ensures
            tcs_view(r@) == merged_components(occs_view(occurrences@)),
    {
        let ghost ov = occs_view(occurrences@);
        let n = occurrences.len();
        let mut okeys: Vec<usize> = Vec::new();
        let mut groups_map = new_groups();
        let mut i: usize = 0;
        while i < n
            invariant
                i <= n,
                n == occurrences@.len(),
                ov == occs_view(occurrences@),
                okeys@ == order_keys(ov).subrange(0, i as int),
                index_groups(groups_map) == grouping(occurrence_keys(ov).subrange(0, i as int)),
            decreases n - i,
        {
            let key = self.occurrence_key_of(&occurrences[i].component);
            push_to_group(&mut groups_map, key, i);
            let o = match occurrences[i].source_order {
                Some(x) => x,
                None => usize::MAX,
            };
            okeys.push(o);
            proof {
                assert(okeys@ =~= order_keys(ov).subrange(0, i + 1));
                let ks = occurrence_keys(ov).subrange(0, i + 1);
                assert(ks.drop_last() =~= occurrence_keys(ov).subrange(0, i as int));
            }
            i = i + 1;
        }
        proof {
            assert(okeys@ =~= order_keys(ov));
            assert(occurrence_keys(ov).subrange(0, n as int) =~= occurrence_keys(ov));
            lemma_grouping(occurrence_keys(ov));
        }
        let ghost groups = grouping(occurrence_keys(ov));
        let ghost imap = index_groups(groups_map);
        let gs = into_groups(groups_map);
        proof {
            assert(imap == groups);
            assert forall|h: int| 0 <= h < gs@.len() implies #[trigger] gs@[h].1@ == groups[h].1 by {
                assert(gs@[h].1@ == imap[h].1);
            }
        }
        let mut merged: Vec<TemplateComponent> = Vec::new();
        let mut gkeys: Vec<usize> = Vec::new();
        let mut range: Vec<usize> = Vec::new();
        let mut g: usize = 0;
        while g < gs.len()
            invariant
                g <= gs@.len(),
                gs@.len() == groups.len(),
                n == occurrences@.len(),
                ov == occs_view(occurrences@),
                okeys@ == order_keys(ov),
                forall|h: int| 0 <= h < gs@.len() ==> #[trigger] gs@[h].1@ == groups[h].1,
                forall|h: int|
                    0 <= h < groups.len() ==> (#[trigger] groups[h]).1.len() > 0 && forall|j: int|
                        0 <= j < groups[h].1.len() ==> groups[h].1[j] < n,
                merged@.len() == g,
                forall|h: int|
                    0 <= h < g ==> tc_view(#[trigger] merged@[h]) == merged_members(ov, sorted_members(ov, groups[h].1)),
                gkeys@ == group_keys(ov, groups).subrange(0, g as int),
                range@ == positions(groups.len()).subrange(0, g as int),
            decreases gs@.len() - g,
        {
            let members = &gs[g].1;
            proof {
                assert(members@ == groups[g as int].1);
            }
            let sorted = stable_sort_indices(members, &okeys);
            proof {
                lemma_stable_sorted(members@, |e: usize| okeys@[e as int]);
                assert(sorted@ == sorted_members(ov, groups[g as int].1));
                assert forall|j: int| 0 <= j < sorted@.len() implies sorted@[j] < occurrences@.len() by {
                    assert(sorted@.contains(sorted@[j]));
                    assert(members@.contains(sorted@[j]));
                }
            }
            let c = self.merge_group(&occurrences, &sorted);
            let k = self.min_order_key(&occurrences, &sorted);
            merged.push(c);
            gkeys.push(k);
            range.push(g);
            proof {
                assert(gkeys@ =~= group_keys(ov, groups).subrange(0, g + 1));
                assert(range@ =~= positions(groups.len()).subrange(0, g + 1));
            }
            g = g + 1;
        }
        proof {
            assert(gkeys@ =~= group_keys(ov, groups));
            assert(range@ =~= positions(groups.len()));
        }
        let order = stable_sort_indices(&range, &gkeys);
        proof {
            lemma_stable_sorted(range@, |e: usize| gkeys@[e as int]);
            assert forall|j: int| 0 <= j < order@.len() implies order@[j] < merged@.len() by {
                assert(order@.contains(order@[j]));
                assert(range@.contains(order@[j]));
            }
        }
        let mut out: Vec<TemplateComponent> = Vec::new();
        let mut k: usize = 0;
        while k < order.len()
            invariant
                k <= order@.len(),
                forall|j: int| 0 <= j < order@.len() ==> order@[j] < merged@.len(),
                out@.len() == k,
                forall|j: int| 0 <= j < k ==> tc_view(#[trigger] out@[j]) == tc_view(merged@[order@[j] as int]),
            decreases order@.len() - k,
        {
            out.push(copy_component(&merged[order[k]]));
            k = k + 1;
        }
        proof {
            lemma_tcs_view(out@);
            let keys = group_keys(ov, groups);
            assert(order@ == stable_sorted(positions(groups.len()), |g: usize| keys[g as int]));
            assert(tcs_view(out@) =~= merged_components(ov));
        }
        out
    }

}

pub proof fn lemma_override_keeps_rendering(c: TCV, t: Seq<char>, r: RenderingV)
    ensures
        tcv_rendering(override_for_type(c, t, r)) == tcv_rendering(c),
{
}

proof fn lemma_types_keep_rendering(c: TCV, types: Seq<ItemType>, r: RenderingV)
    ensures
        tcv_rendering(overrides_for_types(c, types, r)) == tcv_rendering(c),
    decreases types.len(),
{
    if types.len() > 0 {
        lemma_types_keep_rendering(c, types.drop_last(), r);
        lemma_override_keeps_rendering(overrides_for_types(c, types.drop_last(), r), item_type_name(types.last()), r);
    }
}

proof fn lemma_members_keep_rendering(c: TCV, occs: Seq<OccurrenceV>, ms: Seq<usize>)
    ensures
        tcv_rendering(member_overrides(c, occs, ms)) == tcv_rendering(c),
    decreases ms.len(),
{
    if ms.len() > 0 {
        lemma_members_keep_rendering(c, occs, ms.drop_last());
        let c1 = member_overrides(c, occs, ms.drop_last());
        let o = occs[ms.last() as int];
        match o.context {
            ContextV::TypeSpecific(types) => {
                lemma_types_keep_rendering(c1, types, with_suppress(tcv_rendering(o.component), false));
            },
            ContextV::Default => {},
        }
    }
}

/// A merged component states its visibility: visible by default exactly
/// when one of its occurrences was found in a branch for every type,
/// hidden by default otherwise.
pub proof fn law_merged_visibility(occs: Seq<OccurrenceV>, ms: Seq<usize>)
    ensures
        tcv_rendering(merged_members(occs, ms)).suppress == Some(!has_default_member(occs, ms)),
{
    let base = type_list_overrides(occs[ms[0] as int].component, occs, ms);
    let c = with_rendering(base, with_suppress(tcv_rendering(base), !has_default_member(occs, ms)));
    lemma_members_keep_rendering(c, occs, ms);
}

/// Whether an override makes its component visible.
pub open spec fn shows(v: OverrideV) -> bool {
    match v {
        OverrideV::Rendering(r) => r.suppress == Some(false),
        OverrideV::Component(_) => false,
    }
}

/// Whether `c` has an override for the type named `t`, and the override
/// found for it makes `c` visible.
pub open spec fn shown_for_type(c: TCV, t: Seq<char>) -> bool {
    let o = tcv_overrides(c);
    &&& o is Some
    &&& sel_index(o.unwrap(), single(t)) >= 0
    &&& shows(o.unwrap()[sel_index(o.unwrap(), single(t))].1)
}

proof fn lemma_override_for_type_shown(c: TCV, t: Seq<char>, r: RenderingV, u: Seq<char>)
    requires
        r.suppress == Some(false),
        shown_for_type(c, u) || u == t,
    ensures
        shown_for_type(override_for_type(c, t, r), u),
{
    assert(r != no_rendering());
    lemma_ov_insert_lookup(tcv_overrides(c), single(t), OverrideV::Rendering(r), single(u));
}

proof fn lemma_overrides_for_types_shown(c: TCV, types: Seq<ItemType>, r: RenderingV)
    requires
        r.suppress == Some(false),
    ensures
        forall|u: Seq<char>| shown_for_type(c, u) ==> shown_for_type(overrides_for_types(c, types, r), u),
        forall|i: int| 0 <= i < types.len() ==> shown_for_type(overrides_for_types(c, types, r), item_type_name(#[trigger] types[i])),
    decreases types.len(),
{
    if types.len() > 0 {
        let p = types.drop_last();
        let c1 = overrides_for_types(c, p, r);
        lemma_overrides_for_types_shown(c, p, r);
        assert forall|u: Seq<char>| shown_for_type(c1, u) || u == item_type_name(types.last()) implies shown_for_type(
            overrides_for_types(c, types, r),
            u,
        ) by {
            lemma_override_for_type_shown(c1, item_type_name(types.last()), r, u);
        }
        assert forall|i: int| 0 <= i < types.len() implies shown_for_type(overrides_for_types(c, types, r), item_type_name(#[trigger] types[i])) by {
            if i < p.len() {
                assert(p[i] == types[i]);
                assert(shown_for_type(c1, item_type_name(p[i])));
            } else {
                assert(types[i] == types.last());
            }
            lemma_override_for_type_shown(c1, item_type_name(types.last()), r, item_type_name(types[i]));
        }
    }
}

proof fn lemma_member_overrides_shown(c: TCV, occs: Seq<OccurrenceV>, ms: Seq<usize>)
    ensures
        forall|u: Seq<char>| shown_for_type(c, u) ==> shown_for_type(member_overrides(c, occs, ms), u),
        forall|j: int, i: int|
            0 <= j < ms.len() && occs[ms[j] as int].context is TypeSpecific && 0 <= i
                < occs[ms[j] as int].context->TypeSpecific_0.len() ==> shown_for_type(
                member_overrides(c, occs, ms),
                item_type_name(#[trigger] occs[ms[j] as int].context->TypeSpecific_0[i]),
            ),
    decreases ms.len(),
{
    if ms.len() > 0 {
        let p = ms.drop_last();
        let c1 = member_overrides(c, occs, p);
        lemma_member_overrides_shown(c, occs, p);
        let o = occs[ms.last() as int];
        match o.context {
            ContextV::TypeSpecific(types) => {
                lemma_overrides_for_types_shown(c1, types, with_suppress(tcv_rendering(o.component), false));
            },
            ContextV::Default => {},
        }
        assert forall|j: int, i: int|
            0 <= j < ms.len() && occs[ms[j] as int].context is TypeSpecific && 0 <= i
                < occs[ms[j] as int].context->TypeSpecific_0.len() implies shown_for_type(
                member_overrides(c, occs, ms),
                item_type_name(#[trigger] occs[ms[j] as int].context->TypeSpecific_0[i]),
            ) by {
            if j < p.len() {
                assert(p[j] == ms[j]);
            }
        }
    }
}

/// A merged component is shown for every type under which one of its
/// occurrences was found: its override for that type makes it visible.
pub proof fn law_merged_shown_for_member_types(occs: Seq<OccurrenceV>, ms: Seq<usize>, j: int, i: int)
    requires
        0 <= j < ms.len(),
        occs[ms[j] as int].context is TypeSpecific,
        0 <= i < occs[ms[j] as int].context->TypeSpecific_0.len(),
    ensures
        shown_for_type(merged_members(occs, ms), item_type_name(occs[ms[j] as int].context->TypeSpecific_0[i])),
{
    let base = type_list_overrides(occs[ms[0] as int].component, occs, ms);
    let c = with_rendering(base, with_suppress(tcv_rendering(base), !has_default_member(occs, ms)));
    lemma_member_overrides_shown(c, occs, ms);
}

/// Merging gives one component per group of occurrences with the same key.
pub proof fn law_merged_count(occs: Seq<OccurrenceV>)
    ensures
        merged_components(occs).len() == grouping(occurrence_keys(occs)).len(),
{
    let groups = grouping(occurrence_keys(occs));
    let keys = group_keys(occs, groups);
    lemma_stable_sorted(positions(groups.len()), |g: usize| keys[g as int]);
}

/// Every merged component states whether it is shown by default.
pub proof fn law_merged_all_visibility(occs: Seq<OccurrenceV>)
    ensures
        forall|i: int|
            0 <= i < merged_components(occs).len() ==> (#[trigger] tcv_rendering(merged_components(occs)[i])).suppress is Some,
{
    let groups = grouping(occurrence_keys(occs));
    let keys = group_keys(occs, groups);
    let order = stable_sorted(positions(groups.len()), |g: usize| keys[g as int]);
    assert forall|i: int| 0 <= i < merged_components(occs).len() implies (#[trigger] tcv_rendering(
        merged_components(occs)[i],
    )).suppress is Some by {
        law_merged_visibility(occs, sorted_members(occs, groups[order[i] as int].1));
    }
}

/// Whether two components have the same kind and the same own fields (a
/// list: the same items), whatever their renderings and overrides.
pub open spec fn same_base(a: TCV, b: TCV) -> bool {
    match (a, b) {
        (TCV::Contributor(x, _, _), TCV::Contributor(y, _, _)) => x == y,
        (TCV::Date(x, f, _, _), TCV::Date(y, g, _, _)) => x == y && f == g,
        (TCV::Title(x, _, _), TCV::Title(y, _, _)) => x == y,
        (TCV::Number(x, _, _), TCV::Number(y, _, _)) => x == y,
        (TCV::Variable(x, _, _), TCV::Variable(y, _, _)) => x == y,
        (TCV::Term(x, _, _), TCV::Term(y, _, _)) => x == y,
        (TCV::List(l), TCV::List(m)) => l.items == m.items,
        _ => false,
    }
}

proof fn lemma_types_keep_base(c: TCV, types: Seq<ItemType>, r: RenderingV)
    ensures
        same_base(overrides_for_types(c, types, r), c),
    decreases types.len(),
{
    if types.len() > 0 {
        lemma_types_keep_base(c, types.drop_last(), r);
    }
}

proof fn lemma_members_keep_base(c: TCV, occs: Seq<OccurrenceV>, ms: Seq<usize>)
    ensures
        same_base(member_overrides(c, occs, ms), c),
    decreases ms.len(),
{
    if ms.len() > 0 {
        lemma_members_keep_base(c, occs, ms.drop_last());
        let c1 = member_overrides(c, occs, ms.drop_last());
        let o = occs[ms.last() as int];
        match o.context {
            ContextV::TypeSpecific(types) => {
                lemma_types_keep_base(c1, types, with_suppress(tcv_rendering(o.component), false));
            },
            ContextV::Default => {},
        }
    }
}

proof fn lemma_item_signature_kept(c: TCV, types: Seq<ItemType>)
    ensures
        crate::passes::deduplicate::item_signature(item_for_types(c, types))
            == crate::passes::deduplicate::item_signature(c),
    decreases c, 1nat,
{
    match c {
        TCV::List(l) => {
            lemma_items_signature_kept(c->List_0.items, types);
        },
        _ => {
            let r = with_suppress(tcv_rendering(c), true);
            lemma_types_keep_base(with_rendering(c, r), types, with_suppress(r, false));
        },
    }
}

proof fn lemma_items_signature_kept(s: Seq<TCV>, types: Seq<ItemType>)
    ensures
        items_signature(items_for_types(s, types)) == items_signature(s),
    decreases s, 0nat,
{
    if s.len() > 0 {
        lemma_items_signature_kept(s.drop_last(), types);
        lemma_item_signature_kept(s.last(), types);
        let t = items_for_types(s, types);
        assert(t.drop_last() =~= items_for_types(s.drop_last(), types));
    }
}

proof fn lemma_list_overrides_keep_key(c: TCV, occs: Seq<OccurrenceV>, ms: Seq<usize>)
    ensures
        occurrence_key(type_list_overrides(c, occs, ms)) == occurrence_key(c),
    decreases ms.len(),
{
    if ms.len() > 0 {
        lemma_list_overrides_keep_key(c, occs, ms.drop_last());
        let c1 = type_list_overrides(c, occs, ms.drop_last());
        match occs[ms.last() as int].context {
            ContextV::TypeSpecific(types) => match c1 {
                TCV::List(l) => {
                    lemma_items_signature_kept(l.items, types);
                },
                _ => {},
            },
            ContextV::Default => {},
        }
    }
}

proof fn lemma_same_base_same_key(a: TCV, b: TCV)
    requires
        same_base(a, b),
    ensures
        occurrence_key(a) == occurrence_key(b),
{
}

/// A merged component keeps the key of its first member.
proof fn lemma_merged_key(occs: Seq<OccurrenceV>, ms: Seq<usize>)
    ensures
        occurrence_key(merged_members(occs, ms)) == occurrence_key(occs[ms[0] as int].component),
{
    let first = occs[ms[0] as int].component;
    let base = type_list_overrides(first, occs, ms);
    lemma_list_overrides_keep_key(first, occs, ms);
    let c = with_rendering(base, with_suppress(tcv_rendering(base), !has_default_member(occs, ms)));
    assert(same_base(c, base));
    lemma_members_keep_base(c, occs, ms);
    lemma_same_base_same_key(member_overrides(c, occs, ms), c);
    lemma_same_base_same_key(c, base);
}

/// Every position is filed under some group.
proof fn lemma_grouping_covers(keys: Seq<Seq<char>>, m: int)
    requires
        0 <= m < keys.len(),
        keys.len() <= usize::MAX,
    ensures
        exists|g: int| 0 <= g < grouping(keys).len() && (#[trigger] grouping(keys)[g]).1.contains(m as usize),
    decreases keys.len(),
{
    let pre = grouping(keys.drop_last());
    lemma_key_index(pre, keys.last());
    let r = grouping(keys);
    let j = key_index(pre, keys.last());
    let last = (keys.len() - 1) as usize;
    if m < keys.len() - 1 {
        lemma_grouping_covers(keys.drop_last(), m);
        let g = choose|g: int| 0 <= g < pre.len() && (#[trigger] pre[g]).1.contains(m as usize);
        let p = choose|p: int| 0 <= p < pre[g].1.len() && pre[g].1[p] == m as usize;
        if j >= 0 && g == j {
            assert(r[g].1 == pre[g].1.push(last));
            assert(r[g].1[p] == m as usize);
        } else {
            assert(r[g] == pre[g]);
        }
        assert(r[g].1.contains(m as usize));
    } else if j >= 0 {
        assert(r[j].1 == pre[j].1.push(last));
        assert(r[j].1[pre[j].1.len() as int] == last);
        assert(r[j].1.contains(m as usize));
    } else {
        assert(r[pre.len() as int].1 == seq![last]);
        assert(r[pre.len() as int].1[0] == last);
        assert(r[pre.len() as int].1.contains(m as usize));
    }
}

/// After merging, the component that an occurrence found in branches for
/// some types went into (the one with its key) is shown for each of
/// those types: a variable in two type-conditional branches becomes one
/// component shown for both types.
pub proof fn law_merged_components_shown(occs: Seq<OccurrenceV>, m: int, i: int)
    requires
        occs.len() <= usize::MAX,
        0 <= m < occs.len(),
        occs[m].context is TypeSpecific,
        0 <= i < occs[m].context->TypeSpecific_0.len(),
    ensures
        exists|k: int|
            0 <= k < merged_components(occs).len() && occurrence_key(#[trigger] merged_components(occs)[k])
                == occurrence_key(occs[m].component) && shown_for_type(
                merged_components(occs)[k],
                item_type_name(occs[m].context->TypeSpecific_0[i]),
            ),
{
    let keys = occurrence_keys(occs);
    let groups = grouping(keys);
    let gk = group_keys(occs, groups);
    let key = |g: usize| gk[g as int];
    let order = stable_sorted(positions(groups.len()), key);
    lemma_grouping_covers(keys, m);
    lemma_grouping_keys(keys);
    lemma_grouping(keys);
    let g = choose|g: int| 0 <= g < groups.len() && (#[trigger] groups[g]).1.contains(m as usize);
    let ms = sorted_members(occs, groups[g].1);
    lemma_stable_sorted(groups[g].1, |e: usize| order_keys(occs)[e as int]);
    assert(ms.contains(m as usize));
    let j = choose|j: int| 0 <= j < ms.len() && ms[j] == m as usize;
    law_merged_shown_for_member_types(occs, ms, j, i);
    lemma_merged_key(occs, ms);
    assert(ms.contains(ms[0]));
    assert(groups[g].1.contains(ms[0]));
    let a = choose|a: int| 0 <= a < groups[g].1.len() && groups[g].1[a] == ms[0];
    assert(keys[groups[g].1[a] as int] == groups[g].0);
    let b = choose|b: int| 0 <= b < groups[g].1.len() && groups[g].1[b] == m as usize;
    assert(keys[groups[g].1[b] as int] == groups[g].0);
    assert(keys[m] == occurrence_key(occs[m].component));
    assert(keys[ms[0] as int] == occurrence_key(occs[ms[0] as int].component));
    lemma_stable_sorted(positions(groups.len()), key);
    assert(positions(groups.len())[g] == g as usize);
    assert(positions(groups.len()).contains(g as usize));
    assert(order.contains(g as usize));
    let k = choose|k: int| 0 <= k < order.len() && order[k] == g as usize;
    assert(merged_components(occs)[k] == merged_members(occs, ms));
}

/// Groups have distinct keys, and each position filed under a key has it.
proof fn lemma_grouping_keys(keys: Seq<Seq<char>>)
    requires
        keys.len() <= usize::MAX,
    ensures
        grouping(keys).len() <= keys.len(),
        forall|g: int, h: int|
            0 <= g < h < grouping(keys).len() ==> #[trigger] grouping(keys)[g].0 != #[trigger] grouping(keys)[h].0,
        forall|g: int, j: int|
            0 <= g < grouping(keys).len() && 0 <= j < grouping(keys)[g].1.len() ==> grouping(keys)[g].1[j]
                < keys.len() && keys[#[trigger] grouping(keys)[g].1[j] as int] == grouping(keys)[g].0,
    decreases keys.len(),
{
    if keys.len() > 0 {
        let pre = grouping(keys.drop_last());
        lemma_grouping_keys(keys.drop_last());
        lemma_key_index(pre, keys.last());
        let r = grouping(keys);
        assert forall|g: int, j: int| 0 <= g < r.len() && 0 <= j < r[g].1.len() implies r[g].1[j] < keys.len()
            && keys[#[trigger] r[g].1[j] as int] == r[g].0 by {
            if g < pre.len() && j < pre[g].1.len() {
                assert(pre[g].1[j] < keys.drop_last().len());
                assert(keys.drop_last()[pre[g].1[j] as int] == pre[g].0);
            }
        }
    }
}

/// Sorting keeps a sequence free of repeated elements.
proof fn lemma_stable_sorted_distinct(s: Seq<usize>, key: spec_fn(usize) -> usize)
    requires
        forall|i: int, j: int| 0 <= i < j < s.len() ==> s[i] != s[j],
    ensures
        forall|i: int, j: int| 0 <= i < j < stable_sorted(s, key).len() ==> stable_sorted(s, key)[i] != stable_sorted(s, key)[j],
    decreases s.len(),
{
    if s.len() > 0 {
        let d = s.drop_last();
        let t = stable_sorted(d, key);
        lemma_stable_sorted_distinct(d, key);
        lemma_stable_sorted(d, key);
        lemma_insert_position(t, key(s.last()), key);
        let p = insert_position(t, key(s.last()), key);
        let x = s.last();
        assert(!d.contains(x)) by {
            if d.contains(x) {
                let i = choose|i: int| 0 <= i < d.len() && d[i] == x;
                assert(s[i] == s[s.len() - 1]);
            }
        }
        assert(!t.contains(x));
        let r = t.insert(p, x);
        assert forall|i: int, j: int| 0 <= i < j < r.len() implies r[i] != r[j] by {
            if i == p {
                assert(r[j] == t[j - 1]);
                assert(t.contains(t[j - 1]));
            } else if j == p {
                assert(r[i] == t[i]);
                assert(t.contains(t[i]));
            } else {
                let ii = if i < p { i } else { i - 1 };
                let jj = if j < p { j } else { j - 1 };
                assert(r[i] == t[ii]);
                assert(r[j] == t[jj]);
            }
        }
    }
}

/// Merging never gives two components with the same key: occurrences of
/// one variable (or of one list) become a single component.
pub proof fn law_merged_keys_distinct(occs: Seq<OccurrenceV>)
    requires
        occs.len() <= usize::MAX,
    ensures
        forall|i: int, j: int|
            0 <= i < j < merged_components(occs).len() ==> occurrence_key(#[trigger] merged_components(occs)[i])
                != occurrence_key(#[trigger] merged_components(occs)[j]),
{
    let keys = occurrence_keys(occs);
    let groups = grouping(keys);
    let gk = group_keys(occs, groups);
    let key = |g: usize| gk[g as int];
    let order = stable_sorted(positions(groups.len()), key);
    lemma_grouping(keys);
    lemma_grouping_keys(keys);
    lemma_stable_sorted(positions(groups.len()), key);
    assert forall|i: int, j: int| 0 <= i < j < positions(groups.len()).len() implies positions(groups.len())[i]
        != positions(groups.len())[j] by {
        assert(positions(groups.len())[i] == i as usize);
        assert(positions(groups.len())[j] == j as usize);
    }
    lemma_stable_sorted_distinct(positions(groups.len()), key);
    assert forall|g: int| 0 <= g < groups.len() implies occurrence_key(
        merged_members(occs, #[trigger] sorted_members(occs, groups[g].1)),
    ) == groups[g].0 by {
        let ms = sorted_members(occs, groups[g].1);
        lemma_stable_sorted(groups[g].1, |e: usize| order_keys(occs)[e as int]);
        lemma_merged_key(occs, ms);
        assert(ms.contains(ms[0]));
        assert(groups[g].1.contains(ms[0]));
        let j = choose|j: int| 0 <= j < groups[g].1.len() && groups[g].1[j] == ms[0];
        assert(keys[groups[g].1[j] as int] == groups[g].0);
    }
    assert forall|i: int| 0 <= i < order.len() implies order[i] < groups.len() by {
        assert(order.contains(order[i]));
        assert(positions(groups.len()).contains(order[i]));
    }
    assert forall|i: int, j: int| 0 <= i < j < merged_components(occs).len() implies occurrence_key(
        #[trigger] merged_components(occs)[i],
    ) != occurrence_key(#[trigger] merged_components(occs)[j]) by {
        assert(order[i] != order[j]);
        let gi = order[i] as int;
        let gj = order[j] as int;
        if gi < gj {
            assert(groups[gi].0 != groups[gj].0);
        } else {
            assert(groups[gj].0 != groups[gi].0);
        }
    }
}

} // verus!
