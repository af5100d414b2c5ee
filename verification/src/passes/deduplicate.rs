//! Deduplication passes: repeated titles, numbers, dates and identical nested
//! lists are removed from lists, and a variable rendered again in a later
//! sibling is suppressed.

use vstd::prelude::*;
use crate::passes::common::{
    add_override, find_selector, insert_override, lemma_sel_index, title_is, is_number, is_title, sel_index, single, single_selector, suppress_only, suppress_rendering,
    tcv_overrides, with_override, with_overrides, ov_insert,
};
use crate::passes::names::{
    contributor_role_debug_name, contributor_role_name, date_variable_debug_name, date_variable_name,
    number_variable_debug_name, number_variable_name, simple_variable_debug_name, simple_variable_name,
    title_type_debug_name, title_type_name,
};
use crate::sorting::views;
use crate::preset_detector::StylePreset;
use crate::template::{ComponentOverride, NumberVariable, Rendering, TemplateComponent, TemplateList, TitleType, TypeSelector};
use crate::template_view::{
    lemma_ov_entries_view, lemma_tcs_view, ov_entries_view, ov_view, ovs_view, rendering_view, selector_view, tc_view,
    tcs_view, ListV, OverrideV, OverridesV, RenderingV, TCV,
};
use crate::text::{append_str, str_eq, to_owned_string};

verus! {

/// The signature of a sequence of components, as `list_signature` gives it.
pub open spec fn items_signature(s: Seq<TCV>) -> Seq<char>
    decreases s, 0nat,
{
    if s.len() == 0 {
        Seq::empty()
    } else {
        items_signature(s.drop_last()) + item_signature(s.last())
    }
}

/// The signature of one component: its kind and variable, a nested list by
/// the signature of its items.
pub open spec fn item_signature(c: TCV) -> Seq<char>
    decreases c, 1nat,
{
    match c {
        TCV::Variable(v, _, _) => "v:"@ + simple_variable_name(v.variable) + ","@,
        TCV::Number(n, _, _) => "n:"@ + number_variable_name(n.number) + ","@,
        TCV::Title(t, _, _) => "t:"@ + title_type_name(t.title) + ","@,
        TCV::Contributor(x, _, _) => "c:"@ + contributor_role_name(x.contributor) + ","@,
        TCV::Date(d, _, _, _) => "d:"@ + date_variable_name(d.date) + ","@,
        TCV::List(_) => "l("@ + items_signature(c->List_0.items) + "),"@,
        TCV::Term(..) => "unknown,"@,
    }
}

fn push_str(s: String, t: &str) -> (r: String)
    ensures
        r@ == s@ + t@,
{
    append_str(s, t)
}

/// The signature of a list: each item's kind and variable, nested lists
/// by their own signature.
pub fn list_signature(list: &TemplateList) -> (r: String)
    ensures
        r@ == items_signature(tcs_view(list.items@)),
    decreases list,
{
    let items = &list.items;
    let mut sig = String::new();
    let mut i: usize = 0;
    proof {
        lemma_tcs_view(items@);
        assert(tcs_view(items@).subrange(0, 0) =~= Seq::<TCV>::empty());
    }
    while i < items.len()
        invariant
            list.items == *items,
            i <= items@.len(),
            sig@ == items_signature(tcs_view(items@).subrange(0, i as int)),
            tcs_view(items@).len() == items@.len(),
            forall|k: int| 0 <= k < items@.len() ==> #[trigger] tcs_view(items@)[k] == tc_view(items@[k]),
        decreases items@.len() - i,
    {
        let item = &items[i];
        let ghost iv = tc_view(*item);
        let part = match item {
            TemplateComponent::Variable(v) => {
                let s = push_str(to_owned_string("v:"), simple_variable_debug_name(v.variable));
                push_str(s, ",")
            },
            TemplateComponent::Number(n) => {
                let s = push_str(to_owned_string("n:"), number_variable_debug_name(n.number));
                push_str(s, ",")
            },
            TemplateComponent::Title(t) => {
                let s = push_str(to_owned_string("t:"), title_type_debug_name(t.title));
                push_str(s, ",")
            },
            TemplateComponent::Contributor(c) => {
                let s = push_str(to_owned_string("c:"), contributor_role_debug_name(c.contributor));
                push_str(s, ",")
            },
            TemplateComponent::Date(d) => {
                let s = push_str(to_owned_string("d:"), date_variable_debug_name(d.date));
                push_str(s, ",")
            },
            TemplateComponent::List(l) => {
                proof {
                    assert(decreases_to!(*list => list.items));
                    assert(decreases_to!(list.items => list.items@));
                    assert(decreases_to!(list.items@ => list.items@[i as int]));
                    assert(decreases_to!(list.items@[i as int] => *l));
                }
                let inner = list_signature(l);
                let s = push_str(to_owned_string("l("), inner.as_str());
                push_str(s, "),")
            },
            TemplateComponent::Term(_) => to_owned_string("unknown,"),
        };
        assert(part@ == item_signature(iv));
        sig = push_str(sig, part.as_str());
        proof {
            let t = tcs_view(items@).subrange(0, i + 1);
            assert(t.drop_last() =~= tcs_view(items@).subrange(0, i as int));
            assert(t.last() == iv);
        }
        i = i + 1;
    }
    proof {
        assert(tcs_view(items@).subrange(0, items@.len() as int) =~= tcs_view(items@));
    }
    sig
}

/// What a deduplication pass compares.
#[derive(Debug, Clone, Copy, PartialEq, Eq, Structural)]
pub enum DedupKind {
    /// Nested lists, by signature.
    Lists,
    /// Titles, by title type.
    Titles,
    /// Numbers, by number variable.
    Numbers,
    /// Dates, by date variable.
    Dates,
}

/// The key by which a pass compares a component, when it compares it.
pub open spec fn dedup_key(kind: DedupKind, c: TCV) -> Option<Seq<char>> {
    match (kind, c) {
        (DedupKind::Lists, TCV::List(l)) => Some(items_signature(l.items)),
        (DedupKind::Titles, TCV::Title(t, _, _)) => Some(title_type_name(t.title)),
        (DedupKind::Numbers, TCV::Number(n, _, _)) => Some(number_variable_name(n.number)),
        (DedupKind::Dates, TCV::Date(d, _, _, _)) => Some(date_variable_name(d.date)),
        _ => None,
    }
}

/// Whether the component at `k` repeats the key of an earlier one.
pub open spec fn is_dup(kind: DedupKind, s: Seq<TCV>, k: int) -> bool {
    dedup_key(kind, s[k]) is Some && exists|j: int|
        0 <= j < k && #[trigger] dedup_key(kind, s[j]) == dedup_key(kind, s[k])
}

/// One level of deduplication: each component whose key repeats that of an
/// earlier one is removed.
pub open spec fn dedup_level(kind: DedupKind, s: Seq<TCV>) -> Seq<TCV>
    decreases s.len(),
{
    if s.len() == 0 {
        Seq::empty()
    } else if is_dup(kind, s, s.len() - 1) {
        dedup_level(kind, s.drop_last())
    } else {
        dedup_level(kind, s.drop_last()).push(s.last())
    }
}

/// Deduplication of a list's items, then of the lists among those that stay.
pub open spec fn dedup_items(kind: DedupKind, s: Seq<TCV>) -> Seq<TCV>
    decreases s, 0nat,
{
    if s.len() == 0 {
        Seq::empty()
    } else if is_dup(kind, s, s.len() - 1) {
        dedup_items(kind, s.drop_last())
    } else {
        dedup_items(kind, s.drop_last()).push(dedup_item(kind, s.last()))
    }
}

/// A component with the items of each list in it deduplicated.
pub open spec fn dedup_item(kind: DedupKind, c: TCV) -> TCV
    decreases c, 1nat,
{
    match c {
        TCV::List(l) => TCV::List(ListV { items: dedup_items(kind, c->List_0.items), ..l }),
        _ => c,
    }
}

/// Each component deduplicated within.
pub open spec fn dedup_all(kind: DedupKind, s: Seq<TCV>) -> Seq<TCV>
    decreases s.len(),
{
    if s.len() == 0 {
        Seq::empty()
    } else {
        dedup_all(kind, s.drop_last()).push(dedup_item(kind, s.last()))
    }
}

proof fn lemma_is_dup_prefix(kind: DedupKind, s: Seq<TCV>, m: int, k: int)
    requires
        0 <= k < m <= s.len(),
    ensures
        is_dup(kind, s.subrange(0, m), k) == is_dup(kind, s, k),
{
    let t = s.subrange(0, m);
    assert(t[k] == s[k]);
    if is_dup(kind, s, k) {
        let j = choose|j: int| 0 <= j < k && #[trigger] dedup_key(kind, s[j]) == dedup_key(kind, s[k]);
        assert(t[j] == s[j]);
    }
    if is_dup(kind, t, k) {
        let j = choose|j: int| 0 <= j < k && #[trigger] dedup_key(kind, t[j]) == dedup_key(kind, t[k]);
        assert(t[j] == s[j]);
    }
}

fn key_of(kind: DedupKind, c: &TemplateComponent) -> (r: Option<String>)
    ensures
        opt_view_eq(r, dedup_key(kind, tc_view(*c))),
{
    match (kind, c) {
        (DedupKind::Lists, TemplateComponent::List(l)) => Some(list_signature(l)),
        (DedupKind::Titles, TemplateComponent::Title(t)) => Some(to_owned_string(title_type_debug_name(t.title))),
        (DedupKind::Numbers, TemplateComponent::Number(n)) => Some(
            to_owned_string(number_variable_debug_name(n.number)),
        ),
        (DedupKind::Dates, TemplateComponent::Date(d)) => Some(to_owned_string(date_variable_debug_name(d.date))),
        _ => None,
    }
}

/// Whether an optional string has the given optional view.
pub open spec fn opt_view_eq(r: Option<String>, v: Option<Seq<char>>) -> bool {
    match (r, v) {
        (Some(x), Some(y)) => x@ == y,
        (None, None) => true,
        _ => false,
    }
}

fn holds_string(seen: &Vec<String>, k: &str) -> (r: bool)
    ensures
        r == views(seen@).contains(k@),
{
    let mut i: usize = 0;
    while i < seen.len()
        invariant
            i <= seen@.len(),
            forall|j: int| 0 <= j < i ==> seen@[j]@ != k@,
        decreases seen@.len() - i,
    {
        if str_eq(seen[i].as_str(), k) {
            assert(views(seen@)[i as int] == k@);
            return true;
        }
        i = i + 1;
    }
    assert forall|j: int| 0 <= j < views(seen@).len() implies views(seen@)[j] != k@ by {
        assert(views(seen@)[j] == seen@[j]@);
    }
    false
}

/// For each item, whether it stays: `false` exactly where it repeats the
/// key of an earlier item.
fn keep_mask(kind: DedupKind, items: &Vec<TemplateComponent>) -> (r: Vec<bool>)
    ensures
        r@.len() == items@.len(),
        forall|k: int| 0 <= k < items@.len() ==> #[trigger] r@[k] == !is_dup(kind, tcs_view(items@), k),
{
    proof {
        lemma_tcs_view(items@);
    }
    let ghost s = tcs_view(items@);
    let mut seen: Vec<String> = Vec::new();
    let mut keep: Vec<bool> = Vec::new();
    let mut i: usize = 0;
    while i < items.len()
        invariant
            i <= items@.len(),
            s == tcs_view(items@),
            s.len() == items@.len(),
            forall|k: int| 0 <= k < items@.len() ==> #[trigger] s[k] == tc_view(items@[k]),
            keep@.len() == i,
            forall|k: int| 0 <= k < i ==> #[trigger] keep@[k] == !is_dup(kind, s, k),
            forall|x: Seq<char>| views(seen@).contains(x) <==> exists|j: int|
                0 <= j < i && #[trigger] dedup_key(kind, s[j]) == Some(x),
        decreases items@.len() - i,
    {
        let key = key_of(kind, &items[i]);
        let ghost kv = dedup_key(kind, s[i as int]);
        let ghost old_seen = views(seen@);
        match key {
            None => {
                keep.push(true);
                proof {
                    assert forall|x: Seq<char>| views(seen@).contains(x) <==> exists|j: int|
                        0 <= j < i + 1 && #[trigger] dedup_key(kind, s[j]) == Some(x) by {
                        if exists|j: int| 0 <= j < i + 1 && #[trigger] dedup_key(kind, s[j]) == Some(x) {
                            let j = choose|j: int| 0 <= j < i + 1 && #[trigger] dedup_key(kind, s[j]) == Some(x);
                            assert(j != i);
                        }
                    }
                }
            },
            Some(k) => {
                if holds_string(&seen, k.as_str()) {
                    proof {
                        let j = choose|j: int| 0 <= j < i && #[trigger] dedup_key(kind, s[j]) == Some(k@);
                        assert(is_dup(kind, s, i as int));
                    }
                    keep.push(false);
                    proof {
                        assert forall|x: Seq<char>| views(seen@).contains(x) <==> exists|j: int|
                            0 <= j < i + 1 && #[trigger] dedup_key(kind, s[j]) == Some(x) by {
                            if exists|j: int| 0 <= j < i + 1 && #[trigger] dedup_key(kind, s[j]) == Some(x) {
                                let j = choose|j: int| 0 <= j < i + 1 && #[trigger] dedup_key(kind, s[j]) == Some(x);
                                if j == i {
                                    assert(x == k@);
                                }
                            }
                        }
                    }
                } else {
                    proof {
                        if is_dup(kind, s, i as int) {
                            let j = choose|j: int| 0 <= j < i && #[trigger] dedup_key(kind, s[j]) == dedup_key(kind, s[i as int]);
                            assert(views(seen@).contains(k@));
                        }
                    }
                    keep.push(true);
                    let ghost before = seen@;
                    seen.push(k);
                    proof {
                        assert(views(seen@) =~= views(before).push(kv.unwrap()));
                        assert forall|x: Seq<char>| views(seen@).contains(x) <==> exists|j: int|
                            0 <= j < i + 1 && #[trigger] dedup_key(kind, s[j]) == Some(x) by {
                            if views(seen@).contains(x) {
                                if !old_seen.contains(x) {
                                    let m = choose|m: int| 0 <= m < views(seen@).len() && views(seen@)[m] == x;
                                    if m < old_seen.len() {
                                        assert(old_seen[m] == x);
                                    }
                                    assert(dedup_key(kind, s[i as int]) == Some(x));
                                }
                            }
                            if exists|j: int| 0 <= j < i + 1 && #[trigger] dedup_key(kind, s[j]) == Some(x) {
                                let j = choose|j: int| 0 <= j < i + 1 && #[trigger] dedup_key(kind, s[j]) == Some(x);
                                if j == i {
                                    assert(views(seen@)[views(seen@).len() - 1] == x);
                                } else {
                                    assert(old_seen.contains(x));
                                    let m = choose|m: int| 0 <= m < old_seen.len() && old_seen[m] == x;
                                    assert(views(seen@)[m] == x);
                                }
                            }
                        }
                    }
                }
            },
        }
        i = i + 1;
    }
    keep
}

/// The items kept by `keep`, each deduplicated within.
fn dedup_kept(kind: DedupKind, items: Vec<TemplateComponent>, keep: &Vec<bool>, Ghost(full): Ghost<Seq<TCV>>) -> (r: Vec<TemplateComponent>)
    requires
        items@.len() <= keep@.len(),
        items@.len() <= full.len(),
        tcs_view(items@) == full.subrange(0, items@.len() as int),
        forall|k: int| 0 <= k < keep@.len() && k < full.len() ==> #[trigger] keep@[k] == !is_dup(kind, full, k),
    ensures
        tcs_view(r@) == dedup_items(kind, tcs_view(items@)),
    decreases items@, 1nat,
{
    let ghost s = items@;
    let mut items = items;
    match items.pop() {
        None => {
            assert(s =~= Seq::<TemplateComponent>::empty());
            Vec::new()
        },
        Some(last) => {
            let n = items.len();
            proof {
                assert(items@ =~= s.subrange(0, s.len() - 1));
                assert(decreases_to!(s => items@));
                assert(decreases_to!(s => s[s.len() - 1]));
                assert(tcs_view(s).drop_last() == tcs_view(items@));
                assert(tcs_view(s).last() == tc_view(last));
                assert(tcs_view(items@) =~= full.subrange(0, n as int));
                lemma_is_dup_prefix(kind, full, s.len() as int, n as int);
                assert(full.subrange(0, s.len() as int) =~= tcs_view(s));
            }
            let mut out = dedup_kept(kind, items, keep, Ghost(full));
            if keep[n] {
                let c = dedup_component(kind, last);
                let ghost before = out@;
                out.push(c);
                proof {
                    assert(out@.drop_last() =~= before);
                }
            }
            out
        },
    }
}

/// Deduplicates a list's items, then the lists among those that stay.
fn dedup_vec(kind: DedupKind, items: Vec<TemplateComponent>) -> (r: Vec<TemplateComponent>)
    ensures
        tcs_view(r@) == dedup_items(kind, tcs_view(items@)),
    decreases items@, 2nat,
{
    let keep = keep_mask(kind, &items);
    let ghost full = tcs_view(items@);
    proof {
        lemma_tcs_view(items@);
        assert(full.subrange(0, items@.len() as int) =~= full);
    }
    dedup_kept(kind, items, &keep, Ghost(full))
}

/// A component with the items of each list in it deduplicated.
fn dedup_component(kind: DedupKind, c: TemplateComponent) -> (r: TemplateComponent)
    ensures
        tc_view(r) == dedup_item(kind, tc_view(c)),
    decreases c, 0nat,
{
    match c {
        TemplateComponent::List(l) => {
            proof {
                assert(decreases_to!(c => l));
                assert(decreases_to!(l => l.items));
                assert(decreases_to!(l.items => l.items@));
            }
            let TemplateList { items, delimiter, rendering, overrides } = l;
            let items = dedup_vec(kind, items);
            TemplateComponent::List(TemplateList { items, delimiter, rendering, overrides })
        },
        _ => c,
    }
}

/// Each component deduplicated within.
fn dedup_each(kind: DedupKind, v: Vec<TemplateComponent>) -> (r: Vec<TemplateComponent>)
    ensures
        tcs_view(r@) == dedup_all(kind, tcs_view(v@)),
    decreases v@.len(),
{
    let ghost s = v@;
    let mut v = v;
    match v.pop() {
        None => {
            assert(s =~= Seq::<TemplateComponent>::empty());
            Vec::new()
        },
        Some(last) => {
            proof {
                assert(v@ =~= s.drop_last());
            }
            let mut out = dedup_each(kind, v);
            let c = dedup_component(kind, last);
            let ghost before = out@;
            out.push(c);
            proof {
                assert(out@.drop_last() =~= before);
                assert(tcs_view(s).drop_last() == tcs_view(v@));
            }
            out
        },
    }
}

/// Whether some component of `s` has the key `x`.
pub open spec fn has_key(kind: DedupKind, s: Seq<TCV>, x: Seq<char>) -> bool {
    exists|i: int| 0 <= i < s.len() && #[trigger] dedup_key(kind, s[i]) == Some(x)
}

/// Whether no two components of `s` share a key.
pub open spec fn keys_distinct(kind: DedupKind, s: Seq<TCV>) -> bool {
    forall|i: int, j: int|
        0 <= i < j < s.len() && dedup_key(kind, s[i]) is Some ==> #[trigger] dedup_key(kind, s[i])
            != #[trigger] dedup_key(kind, s[j])
}

proof fn lemma_dedup_item_key(kind: DedupKind, c: TCV)
    requires
        kind != DedupKind::Lists,
    ensures
        dedup_key(kind, dedup_item(kind, c)) == dedup_key(kind, c),
{
}

/// Deduplicating a list's titles, numbers or dates leaves each of their
/// variables once among its items: no two items share one, and each one
/// that was there still is.
pub proof fn law_deduplicated_items_keys_distinct(kind: DedupKind, s: Seq<TCV>)
    requires
        kind != DedupKind::Lists,
    ensures
        keys_distinct(kind, dedup_items(kind, s)),
        forall|x: Seq<char>| has_key(kind, dedup_items(kind, s), x) <==> has_key(kind, s, x),
    decreases s.len(),
{
    if s.len() > 0 {
        let p = s.drop_last();
        let last = s.last();
        let rp = dedup_items(kind, p);
        law_deduplicated_items_keys_distinct(kind, p);
        assert forall|j: int| 0 <= j < p.len() implies s[j] == #[trigger] p[j] by {}
        assert(s[s.len() - 1] == last);
        if is_dup(kind, s, s.len() - 1) {
            let j = choose|j: int| 0 <= j < s.len() - 1 && #[trigger] dedup_key(kind, s[j]) == dedup_key(kind, s[s.len() - 1]);
            assert(dedup_key(kind, p[j]) == dedup_key(kind, last));
            assert forall|x: Seq<char>| has_key(kind, rp, x) <==> has_key(kind, s, x) by {
                if has_key(kind, s, x) {
                    let i = choose|i: int| 0 <= i < s.len() && #[trigger] dedup_key(kind, s[i]) == Some(x);
                    if i < p.len() {
                        assert(dedup_key(kind, p[i]) == Some(x));
                    } else {
                        assert(dedup_key(kind, p[j]) == Some(x));
                    }
                    assert(has_key(kind, p, x));
                }
                if has_key(kind, p, x) {
                    let i = choose|i: int| 0 <= i < p.len() && #[trigger] dedup_key(kind, p[i]) == Some(x);
                    assert(dedup_key(kind, s[i]) == Some(x));
                }
            }
        } else {
            let d = dedup_item(kind, last);
            lemma_dedup_item_key(kind, last);
            let r = rp.push(d);
            assert(dedup_items(kind, s) == r);
            assert forall|i: int| 0 <= i < rp.len() implies #[trigger] r[i] == rp[i] by {}
            assert(r[rp.len() as int] == d);
            if dedup_key(kind, last) is Some {
                assert forall|i: int| 0 <= i < rp.len() implies dedup_key(kind, #[trigger] rp[i]) != dedup_key(kind, last) by {
                    if dedup_key(kind, rp[i]) == dedup_key(kind, last) {
                        let x = dedup_key(kind, last).unwrap();
                        assert(has_key(kind, rp, x));
                        assert(has_key(kind, p, x));
                        let m = choose|m: int| 0 <= m < p.len() && #[trigger] dedup_key(kind, p[m]) == Some(x);
                        assert(dedup_key(kind, s[m]) == dedup_key(kind, s[s.len() - 1]));
                    }
                }
            }
            assert forall|a: int, b: int|
                0 <= a < b < r.len() && dedup_key(kind, r[a]) is Some implies #[trigger] dedup_key(kind, r[a])
                    != #[trigger] dedup_key(kind, r[b]) by {
                if b < rp.len() {
                    assert(r[a] == rp[a] && r[b] == rp[b]);
                } else {
                    assert(r[a] == rp[a]);
                    assert(r[b] == d);
                }
            }
            assert forall|x: Seq<char>| has_key(kind, r, x) <==> has_key(kind, s, x) by {
                if has_key(kind, r, x) {
                    let i = choose|i: int| 0 <= i < r.len() && #[trigger] dedup_key(kind, r[i]) == Some(x);
                    if i < rp.len() {
                        assert(dedup_key(kind, rp[i]) == Some(x));
                        assert(has_key(kind, p, x));
                        let m = choose|m: int| 0 <= m < p.len() && #[trigger] dedup_key(kind, p[m]) == Some(x);
                        assert(dedup_key(kind, s[m]) == Some(x));
                    } else {
                        assert(dedup_key(kind, s[s.len() - 1]) == Some(x));
                    }
                }
                if has_key(kind, s, x) {
                    let i = choose|i: int| 0 <= i < s.len() && #[trigger] dedup_key(kind, s[i]) == Some(x);
                    if i < p.len() {
                        assert(dedup_key(kind, p[i]) == Some(x));
                        assert(has_key(kind, p, x));
                        assert(has_key(kind, rp, x));
                        let m = choose|m: int| 0 <= m < rp.len() && #[trigger] dedup_key(kind, rp[m]) == Some(x);
                        assert(dedup_key(kind, r[m]) == Some(x));
                    } else {
                        assert(dedup_key(kind, r[rp.len() as int]) == Some(x));
                    }
                }
            }
        }
    }
}

proof fn lemma_dedup_all_index(kind: DedupKind, s: Seq<TCV>)
    ensures
        dedup_all(kind, s).len() == s.len(),
        forall|i: int| 0 <= i < s.len() ==> #[trigger] dedup_all(kind, s)[i] == dedup_item(kind, s[i]),
    decreases s.len(),
{
    if s.len() > 0 {
        lemma_dedup_all_index(kind, s.drop_last());
        assert forall|i: int| 0 <= i < s.len() implies #[trigger] dedup_all(kind, s)[i] == dedup_item(kind, s[i]) by {
            if i < s.len() - 1 {
                assert(s.drop_last()[i] == s[i]);
            }
        }
    }
}

/// After a pass over a template's titles, numbers or dates, each list of
/// the template holds each of their variables once among its items.
pub proof fn law_deduplicated_lists_keys_distinct(kind: DedupKind, s: Seq<TCV>, i: int)
    requires
        kind != DedupKind::Lists,
        0 <= i < s.len(),
        s[i] is List,
    ensures
        dedup_all(kind, s).len() == s.len(),
        dedup_all(kind, s)[i] is List,
        keys_distinct(kind, dedup_all(kind, s)[i]->List_0.items),
        forall|x: Seq<char>|
            has_key(kind, dedup_all(kind, s)[i]->List_0.items, x) <==> has_key(kind, s[i]->List_0.items, x),
{
    lemma_dedup_all_index(kind, s);
    law_deduplicated_items_keys_distinct(kind, s[i]->List_0.items);
}

fn apply_each(kind: DedupKind, components: &mut Vec<TemplateComponent>)
    ensures
        tcs_view(final(components)@) == dedup_all(kind, tcs_view(old(components)@)),
{
    let mut taken: Vec<TemplateComponent> = Vec::new();
    std::mem::swap(components, &mut taken);
    *components = dedup_each(kind, taken);
}

/// Removes repeated titles (by title type) from lists, at every depth.
pub fn deduplicate_titles_in_lists(components: &mut Vec<TemplateComponent>)
    ensures
        tcs_view(final(components)@) == dedup_all(DedupKind::Titles, tcs_view(old(components)@)),
{
    apply_each(DedupKind::Titles, components)
}

/// Removes repeated numbers (edition, volume, issue, ...) from lists, at
/// every depth.
pub fn deduplicate_numbers_in_lists(components: &mut Vec<TemplateComponent>)
    ensures
        tcs_view(final(components)@) == dedup_all(DedupKind::Numbers, tcs_view(old(components)@)),
{
    apply_each(DedupKind::Numbers, components)
}

/// Removes repeated dates (issued, accessed, ...) from lists, at every depth.
pub fn deduplicate_dates_in_lists(components: &mut Vec<TemplateComponent>)
    ensures
        tcs_view(final(components)@) == dedup_all(DedupKind::Dates, tcs_view(old(components)@)),
{
    apply_each(DedupKind::Dates, components)
}

/// Removes nested lists identical (by signature) to an earlier sibling, at
/// every depth.
pub fn deduplicate_nested_lists(components: &mut Vec<TemplateComponent>)
    ensures
        tcs_view(final(components)@) == dedup_all(DedupKind::Lists, tcs_view(old(components)@)),
{
    apply_each(DedupKind::Lists, components)
}

/// Removes each list identical (by signature) to an earlier list among
/// `items`; nested lists are left as they are.
pub fn deduplicate_lists_in_items(items: &mut Vec<TemplateComponent>)
    ensures
        tcs_view(final(items)@) == dedup_level(DedupKind::Lists, tcs_view(old(items)@)),
{
    let keep = keep_mask(DedupKind::Lists, items);
    let mut taken: Vec<TemplateComponent> = Vec::new();
    std::mem::swap(items, &mut taken);
    let ghost full = tcs_view(taken@);
    proof {
        lemma_tcs_view(taken@);
        assert(full.subrange(0, taken@.len() as int) =~= full);
    }
    *items = level_kept(taken, &keep, Ghost(full));
}

fn level_kept(items: Vec<TemplateComponent>, keep: &Vec<bool>, Ghost(full): Ghost<Seq<TCV>>) -> (r: Vec<TemplateComponent>)
    requires
        items@.len() <= keep@.len(),
        items@.len() <= full.len(),
        tcs_view(items@) == full.subrange(0, items@.len() as int),
        forall|k: int| 0 <= k < keep@.len() && k < full.len() ==> #[trigger] keep@[k] == !is_dup(DedupKind::Lists, full, k),
    ensures
        tcs_view(r@) == dedup_level(DedupKind::Lists, tcs_view(items@)),
    decreases items@.len(),
{
    let ghost s = items@;
    let mut items = items;
    match items.pop() {
        None => {
            assert(s =~= Seq::<TemplateComponent>::empty());
            Vec::new()
        },
        Some(last) => {
            let n = items.len();
            proof {
                assert(items@ =~= s.subrange(0, s.len() - 1));
                assert(tcs_view(s).drop_last() == tcs_view(items@));
                assert(tcs_view(s).last() == tc_view(last));
                assert(tcs_view(items@) =~= full.subrange(0, n as int));
                lemma_is_dup_prefix(DedupKind::Lists, full, s.len() as int, n as int);
                assert(full.subrange(0, s.len() as int) =~= tcs_view(s));
            }
            let mut out = level_kept(items, keep, Ghost(full));
            if keep[n] {
                let ghost before = out@;
                out.push(last);
                proof {
                    assert(out@.drop_last() =~= before);
                }
            }
            out
        },
    }
}

// ---------------------------------------------------------------------------
// Variables rendered again in a later sibling
// ---------------------------------------------------------------------------

/// The name by which the cross-list pass tracks a component: the variant
/// name of its variable, role, title type, date or number.
pub open spec fn cross_key(c: TCV) -> Option<Seq<char>> {
    match c {
        TCV::Variable(v, _, _) => Some(simple_variable_name(v.variable)),
        TCV::Contributor(x, _, _) => Some(contributor_role_name(x.contributor)),
        TCV::Title(t, _, _) => Some(title_type_name(t.title)),
        TCV::Date(d, _, _, _) => Some(date_variable_name(d.date)),
        TCV::Number(n, _, _) => Some(number_variable_name(n.number)),
        _ => None,
    }
}

/// A component suppressed for every reference type.
pub open spec fn suppressed_for_all(c: TCV) -> TCV {
    with_override(c, single("all"@), OverrideV::Rendering(suppress_only(true)))
}

/// The cross-list pass over a sequence, from left to right, with the names
/// already rendered: the new sequence and the names rendered after it.
pub open spec fn cross_items(s: Seq<TCV>, seen: Seq<Seq<char>>) -> (Seq<TCV>, Seq<Seq<char>>)
    decreases s, 0nat,
{
    if s.len() == 0 {
        (Seq::empty(), seen)
    } else {
        let (p, seen1) = cross_items(s.drop_last(), seen);
        let (x, seen2) = cross_item(s.last(), seen1);
        (p.push(x), seen2)
    }
}

/// The cross-list pass over one component: a list goes through its items;
/// a component whose name was rendered before is suppressed; otherwise its
/// name is recorded.
pub open spec fn cross_item(c: TCV, seen: Seq<Seq<char>>) -> (TCV, Seq<Seq<char>>)
    decreases c, 1nat,
{
    match c {
        TCV::List(l) => {
            let (items, seen2) = cross_items(c->List_0.items, seen);
            (TCV::List(ListV { items, ..l }), seen2)
        },
        _ => match cross_key(c) {
            Some(k) => if seen.contains(k) {
                (suppressed_for_all(c), seen)
            } else {
                (c, seen.push(k))
            },
            None => (c, seen),
        },
    }
}

fn cross_key_of(c: &TemplateComponent) -> (r: Option<&'static str>)
    ensures
        match (r, cross_key(tc_view(*c))) {
            (Some(x), Some(y)) => x@ == y,
            (None, None) => true,
            _ => false,
        },
{
    match c {
        TemplateComponent::Variable(v) => Some(simple_variable_debug_name(v.variable)),
        TemplateComponent::Contributor(x) => Some(contributor_role_debug_name(x.contributor)),
        TemplateComponent::Title(t) => Some(title_type_debug_name(t.title)),
        TemplateComponent::Date(d) => Some(date_variable_debug_name(d.date)),
        TemplateComponent::Number(n) => Some(number_variable_debug_name(n.number)),
        _ => None,
    }
}

fn cross_vec(v: Vec<TemplateComponent>, seen: &mut Vec<String>) -> (r: Vec<TemplateComponent>)
    ensures
        (tcs_view(r@), views(final(seen)@)) == cross_items(tcs_view(v@), views(old(seen)@)),
    decreases v@, 0nat,
{
    let ghost s = v@;
    let mut v = v;
    match v.pop() {
        None => {
            assert(s =~= Seq::<TemplateComponent>::empty());
            Vec::new()
        },
        Some(last) => {
            proof {
                assert(v@ =~= s.subrange(0, s.len() - 1));
                assert(decreases_to!(s => v@));
                assert(decreases_to!(s => s[s.len() - 1]));
                assert(tcs_view(s).drop_last() == tcs_view(v@));
                assert(tcs_view(s).last() == tc_view(last));
            }
            let mut out = cross_vec(v, seen);
            let c = cross_component(last, seen);
            let ghost before = out@;
            out.push(c);
            proof {
                assert(out@.drop_last() =~= before);
            }
            out
        },
    }
}

fn cross_component(c: TemplateComponent, seen: &mut Vec<String>) -> (r: TemplateComponent)
    ensures
        (tc_view(r), views(final(seen)@)) == cross_item(tc_view(c), views(old(seen)@)),
    decreases c, 1nat,
{
    match c {
        TemplateComponent::List(l) => {
            proof {
                assert(decreases_to!(c => l));
                assert(decreases_to!(l => l.items));
                assert(decreases_to!(l.items => l.items@));
            }
            let TemplateList { items, delimiter, rendering, overrides } = l;
            let items = cross_vec(items, seen);
            TemplateComponent::List(TemplateList { items, delimiter, rendering, overrides })
        },
        _ => {
            let mut c = c;
            match cross_key_of(&c) {
                Some(k) => {
                    if holds_string(seen, k) {
                        add_override(
                            &mut c,
                            single_selector("all"),
                            ComponentOverride::Rendering(suppress_rendering(true)),
                        );
                    } else {
                        let ghost before = seen@;
                        seen.push(to_owned_string(k));
                        proof {
                            assert(views(seen@) =~= views(before).push(k@));
                        }
                    }
                    c
                },
                None => c,
            }
        },
    }
}

/// Suppresses, for every reference type, each variable, contributor,
/// title, date or number whose name was already rendered earlier in the
/// template (in a sibling, a list before it, or a list around it).
pub fn deduplicate_variables_cross_lists(components: &mut Vec<TemplateComponent>)
    ensures
        tcs_view(final(components)@) == cross_items(tcs_view(old(components)@), Seq::empty()).0,
{
    let mut seen: Vec<String> = Vec::new();
    let mut taken: Vec<TemplateComponent> = Vec::new();
    std::mem::swap(components, &mut taken);
    assert(views(seen@) =~= Seq::<Seq<char>>::empty());
    *components = cross_vec(taken, &mut seen);
}

// ---------------------------------------------------------------------------
// Issue in the parent-monograph list of journal articles
// ---------------------------------------------------------------------------

/// Whether `s` holds the parent-monograph title, directly or directly in one
/// of its lists.
pub open spec fn has_parent_monograph(s: Seq<TCV>) -> bool {
    exists|i: int|
        0 <= i < s.len() && (is_title(#[trigger] s[i], TitleType::ParentMonograph) || (s[i] is List && exists|j: int|
            0 <= j < s[i]->List_0.items.len() && is_title(
                #[trigger] s[i]->List_0.items[j],
                TitleType::ParentMonograph,
            )))
}

/// Overrides with journal articles suppressed: an existing rendering
/// override for "article-journal" gets `suppress` set; otherwise a
/// suppress-only rendering is set for it.
pub open spec fn suppress_for_articles(o: OverridesV) -> OverridesV {
    let s = match o {
        Some(x) => x,
        None => Seq::empty(),
    };
    let k = single("article-journal"@);
    let j = sel_index(s, k);
    if j >= 0 && s[j].1 is Rendering {
        Some(s.update(j, (k, OverrideV::Rendering(RenderingV { suppress: Some(true), ..s[j].1->Rendering_0 }))))
    } else {
        ov_insert(o, k, OverrideV::Rendering(suppress_only(true)))
    }
}

/// The issue pass over the items of a list: when they hold the
/// parent-monograph title, each issue number among them is suppressed for
/// journal articles; nested lists go through the pass too.
pub open spec fn issue_pass_items(s: Seq<TCV>) -> Seq<TCV>
    decreases s, 2nat, 0int,
{
    issue_pass_prefix(s, has_parent_monograph(s), s.len() as int)
}

/// The issue pass over the first `n` items of `s`, given whether the whole
/// of `s` holds the parent-monograph title.
pub open spec fn issue_pass_prefix(s: Seq<TCV>, has: bool, n: int) -> Seq<TCV>
    decreases s, 1nat, n,
{
    if n <= 0 || n > s.len() {
        Seq::empty()
    } else {
        issue_pass_prefix(s, has, n - 1).push(issue_pass_item(s[n - 1], has))
    }
}

/// The issue pass over one item of a list.
pub open spec fn issue_pass_item(c: TCV, has: bool) -> TCV
    decreases c, 0nat, 0int,
{
    match c {
        TCV::List(l) => TCV::List(ListV { items: issue_pass_items(c->List_0.items), ..l }),
        _ => if has && is_number(c, NumberVariable::Issue) {
            with_overrides(c, suppress_for_articles(tcv_overrides(c)))
        } else {
            c
        },
    }
}

/// The issue pass over a top-level component: a list goes through it.
pub open spec fn issue_top_item(c: TCV) -> TCV {
    match c {
        TCV::List(l) => TCV::List(ListV { items: issue_pass_items(l.items), ..l }),
        _ => c,
    }
}

/// The issue pass over each top-level list.
pub open spec fn issue_pass_top(s: Seq<TCV>) -> Seq<TCV>
    decreases s.len(),
{
    if s.len() == 0 {
        Seq::empty()
    } else {
        issue_pass_top(s.drop_last()).push(issue_top_item(s.last()))
    }
}

fn title_in(items: &Vec<TemplateComponent>) -> (r: bool)
    ensures
        r == exists|j: int| 0 <= j < tcs_view(items@).len() && is_title(
            #[trigger] tcs_view(items@)[j],
            TitleType::ParentMonograph,
        ),
{
    proof {
        lemma_tcs_view(items@);
    }
    let mut j: usize = 0;
    while j < items.len()
        invariant
            j <= items@.len(),
            tcs_view(items@).len() == items@.len(),
            forall|k: int| 0 <= k < items@.len() ==> #[trigger] tcs_view(items@)[k] == tc_view(items@[k]),
            forall|k: int| 0 <= k < j ==> !is_title(#[trigger] tcs_view(items@)[k], TitleType::ParentMonograph),
        decreases items@.len() - j,
    {
        if title_is(&items[j], TitleType::ParentMonograph) {
            assert(is_title(tcs_view(items@)[j as int], TitleType::ParentMonograph));
            return true;
        }
        j = j + 1;
    }
    false
}

fn holds_parent_monograph(items: &Vec<TemplateComponent>) -> (r: bool)
    ensures
        r == has_parent_monograph(tcs_view(items@)),
{
    proof {
        lemma_tcs_view(items@);
    }
    let ghost s = tcs_view(items@);
    let mut i: usize = 0;
    while i < items.len()
        invariant
            i <= items@.len(),
            s == tcs_view(items@),
            s.len() == items@.len(),
            forall|k: int| 0 <= k < items@.len() ==> #[trigger] s[k] == tc_view(items@[k]),
            forall|k: int|
                0 <= k < i ==> !(is_title(#[trigger] s[k], TitleType::ParentMonograph) || (s[k] is List && exists|j: int|
                    0 <= j < s[k]->List_0.items.len() && is_title(
                        #[trigger] s[k]->List_0.items[j],
                        TitleType::ParentMonograph,
                    ))),
        decreases items@.len() - i,
    {
        let found = match &items[i] {
            TemplateComponent::Title(t) => t.title == TitleType::ParentMonograph,
            TemplateComponent::List(l) => {
                assert(s[i as int]->List_0.items == tcs_view(l.items@));
                title_in(&l.items)
            },
            _ => false,
        };
        if found {
            assert(is_title(s[i as int], TitleType::ParentMonograph) || (s[i as int] is List && exists|j: int|
                0 <= j < s[i as int]->List_0.items.len() && is_title(
                    #[trigger] s[i as int]->List_0.items[j],
                    TitleType::ParentMonograph,
                )));
            return true;
        }
        i = i + 1;
    }
    false
}

fn suppress_articles(ovs: &mut Option<Vec<(TypeSelector, ComponentOverride)>>)
    ensures
        ovs_view(*final(ovs)) == suppress_for_articles(ovs_view(*old(ovs))),
{
    let key = single_selector("article-journal");
    let mut cur: Option<Vec<(TypeSelector, ComponentOverride)>> = None;
    std::mem::swap(ovs, &mut cur);
    let ghost o = ovs_view(cur);
    match cur {
        Some(entries) => {
            let mut entries = entries;
            let ghost s = ov_entries_view(entries@);
            proof {
                lemma_ov_entries_view(entries@);
                assert(o == Some(s));
                lemma_sel_index(s, selector_view(key));
            }
            match find_selector(&entries, &key) {
                Some(j) => {
                    let (k, ov) = entries.remove(j);
                    proof {
                        assert(s[j as int] == (selector_view(k), ov_view(ov)));
                        assert(selector_view(k) == selector_view(key));
                    }
                    match ov {
                        ComponentOverride::Rendering(r) => {
                            let r2 = Rendering { suppress: Some(true), ..r };
                            let ghost before = entries@;
                            entries.insert(j, (k, ComponentOverride::Rendering(r2)));
                            proof {
                                lemma_ov_entries_view(entries@);
                                assert(ov_entries_view(entries@) =~= s.update(
                                    j as int,
                                    (selector_view(k), OverrideV::Rendering(rendering_view(r2))),
                                ));
                            }
                            *ovs = Some(entries);
                        },
                        other => {
                            entries.insert(j, (k, other));
                            proof {
                                lemma_ov_entries_view(entries@);
                                assert(ov_entries_view(entries@) =~= s);
                            }
                            *ovs = Some(entries);
                            insert_override(ovs, key, ComponentOverride::Rendering(suppress_rendering(true)));
                        },
                    }
                },
                None => {
                    *ovs = Some(entries);
                    insert_override(ovs, key, ComponentOverride::Rendering(suppress_rendering(true)));
                },
            }
        },
        None => {
            insert_override(ovs, key, ComponentOverride::Rendering(suppress_rendering(true)));
        },
    }
}

fn issue_prefix(items: Vec<TemplateComponent>, has: bool, Ghost(full): Ghost<Seq<TCV>>) -> (r: Vec<TemplateComponent>)
    requires
        items@.len() <= full.len(),
        tcs_view(items@) == full.subrange(0, items@.len() as int),
    ensures
        tcs_view(r@) == issue_pass_prefix(full, has, items@.len() as int),
    decreases items@, 1nat,
{
    let ghost s = items@;
    let mut items = items;
    match items.pop() {
        None => Vec::new(),
        Some(last) => {
            proof {
                assert(items@ =~= s.subrange(0, s.len() - 1));
                assert(decreases_to!(s => items@));
                assert(decreases_to!(s => s[s.len() - 1]));
                assert(tcs_view(s).drop_last() == tcs_view(items@));
                assert(tcs_view(s).last() == tc_view(last));
                assert(tcs_view(items@) =~= full.subrange(0, items@.len() as int));
                assert(full[s.len() - 1] == tcs_view(s)[s.len() - 1]);
            }
            let mut out = issue_prefix(items, has, Ghost(full));
            let c = issue_component(last, has);
            let ghost before = out@;
            out.push(c);
            proof {
                assert(out@.drop_last() =~= before);
            }
            out
        },
    }
}

fn issue_vec(items: Vec<TemplateComponent>) -> (r: Vec<TemplateComponent>)
    ensures
        tcs_view(r@) == issue_pass_items(tcs_view(items@)),
    decreases items@, 2nat,
{
    let has = holds_parent_monograph(&items);
    let ghost full = tcs_view(items@);
    proof {
        lemma_tcs_view(items@);
        assert(full.subrange(0, items@.len() as int) =~= full);
    }
    issue_prefix(items, has, Ghost(full))
}

fn issue_component(c: TemplateComponent, has: bool) -> (r: TemplateComponent)
    ensures
        tc_view(r) == issue_pass_item(tc_view(c), has),
    decreases c, 0nat,
{
    match c {
        TemplateComponent::List(l) => {
            proof {
                assert(decreases_to!(c => l));
                assert(decreases_to!(l => l.items));
                assert(decreases_to!(l.items => l.items@));
            }
            let TemplateList { items, delimiter, rendering, overrides } = l;
            let items = issue_vec(items);
            TemplateComponent::List(TemplateList { items, delimiter, rendering, overrides })
        },
        TemplateComponent::Number(n) => {
            if has && n.number == NumberVariable::Issue {
                let mut n = n;
                suppress_articles(&mut n.overrides);
                TemplateComponent::Number(n)
            } else {
                TemplateComponent::Number(n)
            }
        },
        _ => c,
    }
}

fn issue_top_component(c: TemplateComponent) -> (r: TemplateComponent)
    ensures
        tc_view(r) == issue_top_item(tc_view(c)),
{
    match c {
        TemplateComponent::List(l) => {
            let TemplateList { items, delimiter, rendering, overrides } = l;
            let items = issue_vec(items);
            TemplateComponent::List(TemplateList { items, delimiter, rendering, overrides })
        },
        other => other,
    }
}

fn issue_top(v: Vec<TemplateComponent>) -> (r: Vec<TemplateComponent>)
    ensures
        tcs_view(r@) == issue_pass_top(tcs_view(v@)),
    decreases v@.len(),
{
    let ghost s = v@;
    let mut v = v;
    match v.pop() {
        None => {
            assert(s =~= Seq::<TemplateComponent>::empty());
            Vec::new()
        },
        Some(last) => {
            proof {
                assert(v@ =~= s.drop_last());
                assert(tcs_view(s).drop_last() == tcs_view(v@));
            }
            let mut out = issue_top(v);
            let c = issue_top_component(last);
            let ghost before = out@;
            out.push(c);
            proof {
                assert(out@.drop_last() =~= before);
            }
            out
        },
    }
}

/// For Chicago styles: in each list that holds the parent-monograph title,
/// directly or directly in a nested list, each issue number is suppressed
/// for journal articles; nested lists are treated the same way.
pub fn suppress_duplicate_issue_for_journals(components: &mut Vec<TemplateComponent>, style_preset: Option<StylePreset>)
    ensures
        style_preset != Some(StylePreset::Chicago) ==> *final(components) == *old(components),
        style_preset == Some(StylePreset::Chicago) ==> tcs_view(final(components)@) == issue_pass_top(
            tcs_view(old(components)@),
        ),
{
    if style_preset != Some(StylePreset::Chicago) {
        return;
    }
    let mut taken: Vec<TemplateComponent> = Vec::new();
    std::mem::swap(components, &mut taken);
    *components = issue_top(taken);
}

} // verus!
