//! Grouping of volume and issue into one list, "volume(issue)".

use vstd::prelude::*;
use crate::options::Config;
use crate::passes::common::{first_index, is_number, lemma_first_index, number_is, tcv_overrides};
use crate::preset_detector::StylePreset;
use crate::template::{
    empty_rendering, DelimiterPunctuation, NumberVariable, Rendering, TemplateComponent, TemplateList,
    TemplateNumber, WrapPunctuation,
};
use crate::template_view::{
    lemma_tcs_view, lemma_tcs_view_step, no_rendering, ovs_view, rendering_view, tc_view, tcs_view, ListV, OverridesV, RenderingV, TCV,
};

verus! {

/// Whether `s` holds the volume number, directly or in nested lists.
pub open spec fn has_volume(s: Seq<TCV>) -> bool
    decreases s,
{
    if s.len() == 0 {
        false
    } else {
        has_volume(s.drop_last()) || is_number(s.last(), NumberVariable::Volume) || (s.last() is List
            && has_volume(s.last()->List_0.items))
    }
}

/// Whether `s` holds the issue number, directly or in nested lists.
pub open spec fn has_issue(s: Seq<TCV>) -> bool
    decreases s,
{
    if s.len() == 0 {
        false
    } else {
        has_issue(s.drop_last()) || is_number(s.last(), NumberVariable::Issue) || (s.last() is List
            && has_issue(s.last()->List_0.items))
    }
}

/// Whether `s` holds a title, directly or in nested lists.
pub open spec fn has_title(s: Seq<TCV>) -> bool
    decreases s,
{
    if s.len() == 0 {
        false
    } else {
        has_title(s.drop_last()) || s.last() is Title || (s.last() is List && has_title(s.last()->List_0.items))
    }
}

/// Whether a component is the volume number.
pub open spec fn is_volume(c: TCV) -> bool {
    is_number(c, NumberVariable::Volume)
}

/// Whether a component is the issue number.
pub open spec fn is_issue(c: TCV) -> bool {
    is_number(c, NumberVariable::Issue)
}

/// Whether a component is a list that holds the volume.
pub open spec fn is_volume_list(c: TCV) -> bool {
    c is List && has_volume(c->List_0.items)
}

/// The test for the volume number.
pub open spec fn volume_pred() -> spec_fn(TCV) -> bool {
    |c: TCV| is_volume(c)
}

/// The test for the issue number.
pub open spec fn issue_pred() -> spec_fn(TCV) -> bool {
    |c: TCV| is_issue(c)
}

/// The test for a list that holds the volume.
pub open spec fn volume_list_pred() -> spec_fn(TCV) -> bool {
    |c: TCV| is_volume_list(c)
}

/// A fresh number component: only its variable, its wrap and its overrides set.
pub open spec fn fresh_number(v: NumberVariable, wrap: Option<WrapPunctuation>, o: OverridesV) -> TCV {
    TCV::Number(
        TemplateNumber {
            number: v,
            form: None,
            label_form: None,
            rendering: empty_rendering(),
            links: None,
            overrides: None,
        },
        RenderingV { wrap, ..no_rendering() },
        o,
    )
}

/// A fresh list of `items` joined by `d`.
pub open spec fn fresh_list(items: Seq<TCV>, d: DelimiterPunctuation) -> TCV {
    TCV::List(ListV { items, delimiter: Some(d), rendering: no_rendering(), overrides: None })
}

/// `s` with the component `x` put after the volume: the first volume at this
/// level becomes a list of it and `x`; failing that, the same is done inside
/// the first list that holds the volume.
pub open spec fn with_issue(s: Seq<TCV>, x: TCV, d: DelimiterPunctuation) -> Seq<TCV>
    decreases s,
{
    let v = first_index(s, volume_pred());
    if v >= 0 {
        proof {
            lemma_first_index(s, volume_pred());
        }
        s.update(v, fresh_list(seq![s[v], x], d))
    } else {
        let k = first_index(s, volume_list_pred());
        if k >= 0 {
            proof {
                lemma_first_index(s, volume_list_pred());
            }
            s.update(k, TCV::List(ListV { items: with_issue(s[k]->List_0.items, x, d), ..s[k]->List_0 }))
        } else {
            s
        }
    }
}

/// The delimiter between volume and issue: none where the style joins
/// volume and pages with a comma (APA, "2(2)"), a space otherwise
/// (Chicago, "2 (2)").
pub open spec fn volume_issue_delimiter(volume_pages: Option<DelimiterPunctuation>) -> DelimiterPunctuation {
    if volume_pages == Some(DelimiterPunctuation::Comma) {
        DelimiterPunctuation::Empty
    } else {
        DelimiterPunctuation::Space
    }
}

/// The issue in parentheses, with the given overrides.
pub open spec fn issue_in_parens(o: OverridesV) -> TCV {
    fresh_number(NumberVariable::Issue, Some(WrapPunctuation::Parentheses), o)
}

/// Volume and issue grouped:
/// - both at the top level: both are removed and a fresh "volume (issue)"
///   list takes the place of the first;
/// - only the issue at the top level: it is removed and a fresh issue with
///   its overrides goes after the volume inside the first top-level list
///   holding the volume, whose delimiter becomes a comma for APA when it
///   holds no title (nothing happens when no such list exists);
/// - neither at the top level: when both occur nested, a fresh issue goes
///   after the volume inside the first top-level list holding the volume.
pub open spec fn grouped(s: Seq<TCV>, d: DelimiterPunctuation, apa: bool) -> Seq<TCV> {
    let ii = first_index(s, issue_pred());
    let vi = first_index(s, volume_pred());
    let li = first_index(s, volume_list_pred());
    if ii >= 0 && vi >= 0 {
        grouped_both(s, vi, ii, d)
    } else if ii >= 0 {
        if li >= 0 {
            grouped_into_list(s, ii, li, d, apa)
        } else {
            s
        }
    } else if vi < 0 && has_issue(s) && li >= 0 {
        grouped_nested(s, li, d)
    } else {
        s
    }
}

/// Volume (at `vi`) and issue (at `ii`) both at the top level: both removed,
/// and a fresh "volume (issue)" list in place of the first.
pub open spec fn grouped_both(s: Seq<TCV>, vi: int, ii: int, d: DelimiterPunctuation) -> Seq<TCV> {
    let lo = if vi < ii { vi } else { ii };
    let hi = if vi < ii { ii } else { vi };
    s.remove(hi).remove(lo).insert(
        lo,
        fresh_list(seq![fresh_number(NumberVariable::Volume, None, None), issue_in_parens(None)], d),
    )
}

/// The issue (at `ii`) at the top level, the volume in the list at `li`:
/// the issue removed and a fresh issue with its overrides put after the
/// volume in that list, whose delimiter becomes a comma for APA when it
/// holds no title.
pub open spec fn grouped_into_list(s: Seq<TCV>, ii: int, li: int, d: DelimiterPunctuation, apa: bool) -> Seq<TCV> {
    let t = s.remove(ii);
    let adj = if ii < li { li - 1 } else { li };
    let l = t[adj]->List_0;
    let items = with_issue(l.items, issue_in_parens(tcv_overrides(s[ii])), d);
    t.update(
        adj,
        TCV::List(
            ListV {
                items,
                delimiter: if apa && !has_title(items) {
                    Some(DelimiterPunctuation::Comma)
                } else {
                    l.delimiter
                },
                ..l
            },
        ),
    )
}

/// Volume and issue both nested: a fresh issue put after the volume in the
/// list at `k`.
pub open spec fn grouped_nested(s: Seq<TCV>, k: int, d: DelimiterPunctuation) -> Seq<TCV> {
    s.update(k, TCV::List(ListV { items: with_issue(s[k]->List_0.items, issue_in_parens(None), d), ..s[k]->List_0 }))
}

/// Whether `list` holds the volume, directly or in nested lists.
pub fn find_volume_in_list(list: &TemplateList) -> (r: Option<()>)
    ensures
        r is Some <==> has_volume(tcs_view(list.items@)),
{
    if holds_volume(&list.items) {
        Some(())
    } else {
        None
    }
}

fn holds_volume(items: &Vec<TemplateComponent>) -> (r: bool)
    ensures
        r == has_volume(tcs_view(items@)),
    decreases items,
{
    let mut i: usize = 0;
    proof {
        assert(items@.subrange(0, 0) =~= Seq::<TemplateComponent>::empty());
    }
    while i < items.len()
        invariant
            i <= items@.len(),
            !has_volume(tcs_view(items@.subrange(0, i as int))),
        decreases items@.len() - i,
    {
        let found = match &items[i] {
            TemplateComponent::Number(n) => n.number == NumberVariable::Volume,
            TemplateComponent::List(l) => {
                proof {
                    assert(decreases_to!(*items => items@));
                    assert(decreases_to!(items@ => items@[i as int]));
                    assert(decreases_to!(items@[i as int] => *l));
                    assert(decreases_to!(*l => l.items));
                }
                holds_volume(&l.items)
            },
            _ => false,
        };
        let ghost t = items@.subrange(0, i + 1);
        proof {
            assert(t.drop_last() =~= items@.subrange(0, i as int));
            assert(t.last() == items@[i as int]);
            lemma_tcs_view_step(t);
        }
        if found {
            proof {
                lemma_has_volume_prefix(items@, i + 1);
            }
            return true;
        }
        i = i + 1;
    }
    proof {
        assert(items@.subrange(0, items@.len() as int) =~= items@);
    }
    false
}

proof fn lemma_has_volume_prefix(s: Seq<TemplateComponent>, k: int)
    requires
        0 <= k <= s.len(),
        has_volume(tcs_view(s.subrange(0, k))),
    ensures
        has_volume(tcs_view(s)),
    decreases s.len() - k,
{
    if k < s.len() {
        let t = s.subrange(0, k + 1);
        assert(t.drop_last() =~= s.subrange(0, k));
        lemma_tcs_view_step(t);
        lemma_has_volume_prefix(s, k + 1);
    } else {
        assert(s.subrange(0, k) =~= s);
    }
}

/// Whether `components` hold the issue number, directly or in nested lists.
pub fn find_issue_in_components(components: &Vec<TemplateComponent>) -> (r: bool)
    ensures
        r == has_issue(tcs_view(components@)),
    decreases components,
{
    let mut i: usize = 0;
    proof {
        assert(components@.subrange(0, 0) =~= Seq::<TemplateComponent>::empty());
    }
    while i < components.len()
        invariant
            i <= components@.len(),
            !has_issue(tcs_view(components@.subrange(0, i as int))),
        decreases components@.len() - i,
    {
        let found = match &components[i] {
            TemplateComponent::Number(n) => n.number == NumberVariable::Issue,
            TemplateComponent::List(l) => {
                proof {
                    assert(decreases_to!(*components => components@));
                    assert(decreases_to!(components@ => components@[i as int]));
                    assert(decreases_to!(components@[i as int] => *l));
                    assert(decreases_to!(*l => l.items));
                }
                find_issue_in_components(&l.items)
            },
            _ => false,
        };
        let ghost t = components@.subrange(0, i + 1);
        proof {
            assert(t.drop_last() =~= components@.subrange(0, i as int));
            assert(t.last() == components@[i as int]);
            lemma_tcs_view_step(t);
        }
        if found {
            proof {
                lemma_has_issue_prefix(components@, i + 1);
            }
            return true;
        }
        i = i + 1;
    }
    proof {
        assert(components@.subrange(0, components@.len() as int) =~= components@);
    }
    false
}

proof fn lemma_has_issue_prefix(s: Seq<TemplateComponent>, k: int)
    requires
        0 <= k <= s.len(),
        has_issue(tcs_view(s.subrange(0, k))),
    ensures
        has_issue(tcs_view(s)),
    decreases s.len() - k,
{
    if k < s.len() {
        let t = s.subrange(0, k + 1);
        assert(t.drop_last() =~= s.subrange(0, k));
        lemma_tcs_view_step(t);
        lemma_has_issue_prefix(s, k + 1);
    } else {
        assert(s.subrange(0, k) =~= s);
    }
}

/// Whether `list` holds a title, directly or in nested lists.
pub fn list_contains_title(list: &TemplateList) -> (r: bool)
    ensures
        r == has_title(tcs_view(list.items@)),
{
    holds_title(&list.items)
}

fn holds_title(items: &Vec<TemplateComponent>) -> (r: bool)
    ensures
        r == has_title(tcs_view(items@)),
    decreases items,
{
    let mut i: usize = 0;
    proof {
        assert(items@.subrange(0, 0) =~= Seq::<TemplateComponent>::empty());
    }
    while i < items.len()
        invariant
            i <= items@.len(),
            !has_title(tcs_view(items@.subrange(0, i as int))),
        decreases items@.len() - i,
    {
        let found = match &items[i] {
            TemplateComponent::Title(_) => true,
            TemplateComponent::List(l) => {
                proof {
                    assert(decreases_to!(*items => items@));
                    assert(decreases_to!(items@ => items@[i as int]));
                    assert(decreases_to!(items@[i as int] => *l));
                    assert(decreases_to!(*l => l.items));
                }
                holds_title(&l.items)
            },
            _ => false,
        };
        let ghost t = items@.subrange(0, i + 1);
        proof {
            assert(t.drop_last() =~= items@.subrange(0, i as int));
            assert(t.last() == items@[i as int]);
            lemma_tcs_view_step(t);
        }
        if found {
            proof {
                lemma_has_title_prefix(items@, i + 1);
            }
            return true;
        }
        i = i + 1;
    }
    proof {
        assert(items@.subrange(0, items@.len() as int) =~= items@);
    }
    false
}

proof fn lemma_has_title_prefix(s: Seq<TemplateComponent>, k: int)
    requires
        0 <= k <= s.len(),
        has_title(tcs_view(s.subrange(0, k))),
    ensures
        has_title(tcs_view(s)),
    decreases s.len() - k,
{
    if k < s.len() {
        let t = s.subrange(0, k + 1);
        assert(t.drop_last() =~= s.subrange(0, k));
        lemma_tcs_view_step(t);
        lemma_has_title_prefix(s, k + 1);
    } else {
        assert(s.subrange(0, k) =~= s);
    }
}

proof fn lemma_has_volume_exists(s: Seq<TCV>)
    ensures
        has_volume(s) <==> exists|j: int| 0 <= j < s.len() && (is_volume(#[trigger] s[j]) || is_volume_list(s[j])),
    decreases s.len(),
{
    if s.len() > 0 {
        lemma_has_volume_exists(s.drop_last());
        if exists|j: int| 0 <= j < s.len() && (is_volume(#[trigger] s[j]) || is_volume_list(s[j])) {
            let j = choose|j: int| 0 <= j < s.len() && (is_volume(#[trigger] s[j]) || is_volume_list(s[j]));
            if j < s.len() - 1 {
                assert(s.drop_last()[j] == s[j]);
            }
        }
        if has_volume(s.drop_last()) {
            let j = choose|j: int| 0 <= j < s.len() - 1 && (is_volume(#[trigger] s.drop_last()[j]) || is_volume_list(s.drop_last()[j]));
            assert(s.drop_last()[j] == s[j]);
        }
    }
}

fn position(items: &Vec<TemplateComponent>, which: u8) -> (r: Option<usize>)
    requires
        which < 3,
    ensures
        match r {
            Some(j) => j < items@.len() && j == first_index(tcs_view(items@), which_pred(which)),
            None => first_index(tcs_view(items@), which_pred(which)) == -1,
        },
{
    proof {
        lemma_tcs_view(items@);
        lemma_first_index(tcs_view(items@), which_pred(which));
    }
    let ghost s = tcs_view(items@);
    let mut i: usize = 0;
    while i < items.len()
        invariant
            which < 3,
            i <= items@.len(),
            s == tcs_view(items@),
            s.len() == items@.len(),
            forall|k: int| 0 <= k < items@.len() ==> #[trigger] s[k] == tc_view(items@[k]),
            forall|k: int| 0 <= k < i ==> !(which_pred(which))(#[trigger] s[k]),
        decreases items@.len() - i,
    {
        let hit = match &items[i] {
            TemplateComponent::Number(n) => (which == 0 && n.number == NumberVariable::Volume) || (which == 1
                && n.number == NumberVariable::Issue),
            TemplateComponent::List(l) => which == 2 && holds_volume(&l.items),
            _ => false,
        };
        assert(hit == (which_pred(which))(s[i as int]));
        if hit {
            proof {
                lemma_first_index(s, which_pred(which));
            }
            return Some(i);
        }
        i = i + 1;
    }
    proof {
        lemma_first_index(s, which_pred(which));
    }
    None
}

/// The test that `position` applies: 0 the volume, 1 the issue, 2 a list
/// holding the volume.
pub open spec fn which_pred(which: u8) -> spec_fn(TCV) -> bool {
    if which == 0 {
        volume_pred()
    } else if which == 1 {
        issue_pred()
    } else {
        volume_list_pred()
    }
}

fn default_rendering() -> (r: Rendering)
    ensures
        rendering_view(r) == no_rendering(),
{
    Rendering {
        emph: None,
        quote: None,
        strong: None,
        small_caps: None,
        prefix: None,
        suffix: None,
        inner_prefix: None,
        inner_suffix: None,
        wrap: None,
        suppress: None,
        initialize_with: None,
        strip_periods: None,
    }
}

fn pair_list(a: TemplateComponent, b: TemplateComponent, d: &DelimiterPunctuation) -> (r: TemplateComponent)
    ensures
        tc_view(r) == fresh_list(seq![tc_view(a), tc_view(b)], *d),
{
    let mut items: Vec<TemplateComponent> = Vec::new();
    items.push(a);
    items.push(b);
    proof {
        lemma_tcs_view(items@);
        assert(tcs_view(items@) =~= seq![tc_view(a), tc_view(b)]);
    }
    TemplateComponent::List(TemplateList { items, delimiter: Some(d.copy()), rendering: default_rendering(), overrides: None })
}

fn fresh_number_component(v: NumberVariable, parens: bool, overrides: Option<Vec<(crate::template::TypeSelector, crate::template::ComponentOverride)>>) -> (r: TemplateComponent)
    ensures
        tc_view(r) == fresh_number(v, if parens { Some(WrapPunctuation::Parentheses) } else { None }, ovs_view(overrides)),
{
    let mut rendering = default_rendering();
    if parens {
        rendering.wrap = Some(WrapPunctuation::Parentheses);
    }
    TemplateComponent::Number(
        TemplateNumber {
            number: v,
            form: None,
            label_form: None,
            rendering,
            links: None,
            overrides,
        },
    )
}

/// Replaces the component at `j` by the list of it and `issue`.
fn pair_at(items: Vec<TemplateComponent>, j: usize, issue: TemplateComponent, d: &DelimiterPunctuation) -> (r: Vec<TemplateComponent>)
    requires
        j < items@.len(),
    ensures
        tcs_view(r@) == tcs_view(items@).update(j as int, fresh_list(seq![tcs_view(items@)[j as int], tc_view(issue)], *d)),
{
    let ghost s = tcs_view(items@);
    proof {
        lemma_tcs_view(items@);
    }
    let mut items = items;
    let vol = items.remove(j);
    let list = pair_list(vol, issue, d);
    items.insert(j, list);
    proof {
        lemma_tcs_view(items@);
        assert(tcs_view(items@) =~= s.update(j as int, fresh_list(seq![s[j as int], tc_view(issue)], *d)));
    }
    items
}

/// Puts `issue` after the volume inside the list at `k`.
fn put_issue_in_list(items: Vec<TemplateComponent>, k: usize, issue: TemplateComponent, d: &DelimiterPunctuation) -> (r: Vec<TemplateComponent>)
    requires
        k < items@.len(),
        is_volume_list(tcs_view(items@)[k as int]),
    ensures
        tcs_view(r@) == tcs_view(items@).update(
            k as int,
            TCV::List(ListV { items: with_issue(tcs_view(items@)[k as int]->List_0.items, tc_view(issue), *d), ..tcs_view(items@)[k as int]->List_0 }),
        ),
    decreases items@, 0nat,
{
    let ghost s = tcs_view(items@);
    let ghost s0 = items@;
    proof {
        lemma_tcs_view(items@);
    }
    let mut items = items;
    let l = items.remove(k);
    proof {
        assert(l == s0[k as int]);
        assert(decreases_to!(s0 => s0[k as int]));
    }
    match l {
        TemplateComponent::List(tl) => {
            proof {
                assert(decreases_to!(s0[k as int] => tl));
                assert(decreases_to!(tl => tl.items));
                assert(decreases_to!(tl.items => tl.items@));
            }
            let TemplateList { items: inner, delimiter, rendering, overrides } = tl;
            let inner2 = put_issue(inner, issue, d);
            items.insert(k, TemplateComponent::List(TemplateList { items: inner2, delimiter, rendering, overrides }));
            proof {
                lemma_tcs_view(items@);
                assert(tcs_view(items@) =~= s.update(
                    k as int,
                    TCV::List(ListV { items: with_issue(s[k as int]->List_0.items, tc_view(issue), *d), ..s[k as int]->List_0 }),
                ));
            }
            items
        },
        other => {
            items.insert(k, other);
            items
        },
    }
}

/// Puts `issue` after the volume of `items` (as `with_issue` says).
fn put_issue(items: Vec<TemplateComponent>, issue: TemplateComponent, d: &DelimiterPunctuation) -> (r: Vec<TemplateComponent>)
    requires
        has_volume(tcs_view(items@)),
    ensures
        tcs_view(r@) == with_issue(tcs_view(items@), tc_view(issue), *d),
    decreases items@, 1nat,
{
    let ghost s = tcs_view(items@);
    proof {
        lemma_tcs_view(items@);
        lemma_first_index(s, volume_pred());
        lemma_first_index(s, volume_list_pred());
    }
    match position(&items, 0) {
        Some(j) => pair_at(items, j, issue, d),
        None => {
            proof {
                lemma_has_volume_exists(s);
                let j = choose|j: int| 0 <= j < s.len() && (is_volume(#[trigger] s[j]) || is_volume_list(s[j]));
                assert((volume_list_pred())(s[j]));
            }
            match position(&items, 2) {
                Some(k) => put_issue_in_list(items, k, issue, d),
                None => items,
            }
        },
    }
}

/// Inserts `issue` after the volume of `items`, directly or in the first
/// nested list that holds it; `false`, and `items` unchanged, when there is
/// no volume.
pub fn insert_issue_after_volume(items: &mut Vec<TemplateComponent>, issue: TemplateComponent, delimiter: DelimiterPunctuation) -> (r: bool)
    ensures
        r == has_volume(tcs_view(old(items)@)),
        r ==> tcs_view(final(items)@) == with_issue(tcs_view(old(items)@), tc_view(issue), delimiter),
        !r ==> *final(items) == *old(items),
{
    if !holds_volume(items) {
        return false;
    }
    let mut taken: Vec<TemplateComponent> = Vec::new();
    std::mem::swap(items, &mut taken);
    *items = put_issue(taken, issue, &delimiter);
    true
}

fn group_both(components: &mut Vec<TemplateComponent>, vi: usize, ii: usize, d: &DelimiterPunctuation)
    requires
        vi < old(components)@.len(),
        ii < old(components)@.len(),
        vi != ii,
    ensures
        tcs_view(final(components)@) == grouped_both(tcs_view(old(components)@), vi as int, ii as int, *d),
{
    let ghost s = tcs_view(components@);
    let ghost c0 = components@;
    let lo = if vi < ii { vi } else { ii };
    let hi = if vi < ii { ii } else { vi };
    components.remove(hi);
    components.remove(lo);
    let v = fresh_number_component(NumberVariable::Volume, false, None);
    let i = fresh_number_component(NumberVariable::Issue, true, None);
    let list = pair_list(v, i, d);
    components.insert(lo, list);
    proof {
        lemma_tcs_view(c0);
        lemma_tcs_view(components@);
        lemma_tcs_view(c0.remove(hi as int));
        lemma_tcs_view(c0.remove(hi as int).remove(lo as int));
        assert(tcs_view(c0.remove(hi as int)) =~= s.remove(hi as int));
        assert(tcs_view(c0.remove(hi as int).remove(lo as int)) =~= s.remove(hi as int).remove(lo as int));
        assert(tcs_view(components@) =~= grouped_both(s, vi as int, ii as int, *d));
    }
}

fn group_into_list(components: &mut Vec<TemplateComponent>, ii: usize, li: usize, d: &DelimiterPunctuation, apa: bool)
    requires
        ii < old(components)@.len(),
        li < old(components)@.len(),
        ii != li,
        is_issue(tcs_view(old(components)@)[ii as int]),
        is_volume_list(tcs_view(old(components)@)[li as int]),
    ensures
        tcs_view(final(components)@) == grouped_into_list(tcs_view(old(components)@), ii as int, li as int, *d, apa),
{
    let ghost s = tcs_view(components@);
    proof {
        lemma_tcs_view(components@);
    }
    let issue = components.remove(ii);
    let overrides = match issue {
        TemplateComponent::Number(n) => n.overrides,
        _ => None,
    };
    assert(ovs_view(overrides) == tcv_overrides(s[ii as int]));
    let adj = if ii < li { li - 1 } else { li };
    let ghost t = s.remove(ii as int);
    proof {
        lemma_tcs_view(components@);
        assert(tcs_view(components@) =~= t);
    }
    let l = components.remove(adj);
    let ghost c1 = components@;
    match l {
        TemplateComponent::List(tl) => {
            let TemplateList { items, delimiter, rendering, overrides: lov } = tl;
            let fresh = fresh_number_component(NumberVariable::Issue, true, overrides);
            let items2 = put_issue(items, fresh, d);
            let delimiter = if apa && !holds_title(&items2) {
                Some(DelimiterPunctuation::Comma)
            } else {
                delimiter
            };
            components.insert(adj, TemplateComponent::List(TemplateList { items: items2, delimiter, rendering, overrides: lov }));
            proof {
                lemma_tcs_view(c1);
                lemma_tcs_view(components@);
                assert(tcs_view(components@) =~= grouped_into_list(s, ii as int, li as int, *d, apa));
            }
        },
        other => {
            proof {
                assert(false);
            }
            components.insert(adj, other);
        },
    }
}

fn group_nested(components: &mut Vec<TemplateComponent>, k: usize, d: &DelimiterPunctuation)
    requires
        k < old(components)@.len(),
        is_volume_list(tcs_view(old(components)@)[k as int]),
    ensures
        tcs_view(final(components)@) == grouped_nested(tcs_view(old(components)@), k as int, *d),
{
    let ghost s = tcs_view(components@);
    proof {
        lemma_tcs_view(components@);
    }
    let l = components.remove(k);
    let ghost c1 = components@;
    match l {
        TemplateComponent::List(tl) => {
            let TemplateList { items, delimiter, rendering, overrides } = tl;
            let fresh = fresh_number_component(NumberVariable::Issue, true, None);
            let items2 = put_issue(items, fresh, d);
            components.insert(k, TemplateComponent::List(TemplateList { items: items2, delimiter, rendering, overrides }));
            proof {
                lemma_tcs_view(c1);
                lemma_tcs_view(components@);
                assert(tcs_view(components@) =~= grouped_nested(s, k as int, *d));
            }
        },
        other => {
            proof {
                assert(false);
            }
            components.insert(k, other);
        },
    }
}

/// Groups volume and issue into "volume(issue)" (as `grouped` says), with
/// no delimiter between them where the style joins volume and pages with a
/// comma and a space otherwise.
pub fn group_volume_and_issue(components: &mut Vec<TemplateComponent>, options: &Config, style_preset: Option<StylePreset>)
    ensures
        tcs_view(final(components)@) == grouped(
            tcs_view(old(components)@),
            volume_issue_delimiter(options.volume_pages_delimiter),
            style_preset == Some(StylePreset::Apa),
        ),
{
    let d = match &options.volume_pages_delimiter {
        Some(DelimiterPunctuation::Comma) => DelimiterPunctuation::Empty,
        _ => DelimiterPunctuation::Space,
    };
    let apa = match style_preset {
        Some(StylePreset::Apa) => true,
        _ => false,
    };
    let ghost s = tcs_view(components@);
    proof {
        lemma_tcs_view(components@);
        lemma_first_index(s, issue_pred());
        lemma_first_index(s, volume_pred());
        lemma_first_index(s, volume_list_pred());
    }
    let issue_pos = position(components, 1);
    let vol_pos = position(components, 0);
    let list_pos = position(components, 2);
    match (vol_pos, issue_pos) {
        (Some(vi), Some(ii)) => {
            assert((issue_pred())(s[ii as int]) && (volume_pred())(s[vi as int]));
            group_both(components, vi, ii, &d);
        },
        (_, Some(ii)) => {
            match list_pos {
                Some(li) => {
                    assert((issue_pred())(s[ii as int]) && (volume_list_pred())(s[li as int]));
                    group_into_list(components, ii, li, &d, apa);
                },
                None => {},
            }
        },
        (None, None) => {
            if find_issue_in_components(components) {
                match list_pos {
                    Some(k) => {
                        assert((volume_list_pred())(s[k as int]));
                        group_nested(components, k, &d);
                    },
                    None => {},
                }
            }
        },
        (Some(_), None) => {},
    }
}

} // verus!
