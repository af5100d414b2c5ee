//! What the migration passes share: setting a type-specific override and
//! asking what kind of component a component is.

use vstd::prelude::*;
use crate::template::{
    empty_rendering, same_selector, ComponentOverride, ContributorRole, DateVariable, NumberVariable,
    Rendering, SimpleVariable, TemplateComponent, TitleType, TypeSelector,
};
use crate::template_view::{
    lemma_ov_entries_view, no_rendering, ov_entries_view, ov_view, ovs_view, selector_view, tc_view,
    OverrideV, OverridesV, RenderingV, SelV, TCV,
};

verus! {

/// Index of the first entry of `s` whose selector is `k`, or -1.
pub open spec fn sel_index(s: Seq<(SelV, OverrideV)>, k: SelV) -> int
    decreases s.len(),
{
    if s.len() == 0 {
        -1
    } else {
        let j = sel_index(s.drop_last(), k);
        if j >= 0 {
            j
        } else if s.last().0 == k {
            s.len() - 1
        } else {
            -1
        }
    }
}

/// `o` with the override for `k` set to `v`: the entry for `k` replaced in
/// place, or a new entry at the end (the overrides created when absent).
pub open spec fn ov_insert(o: OverridesV, k: SelV, v: OverrideV) -> OverridesV {
    let s = match o {
        Some(x) => x,
        None => Seq::empty(),
    };
    let j = sel_index(s, k);
    Some(if j >= 0 { s.update(j, (k, v)) } else { s.push((k, v)) })
}

/// The rendering that only sets `suppress`.
pub open spec fn suppress_only(b: bool) -> RenderingV {
    RenderingV { suppress: Some(b), ..no_rendering() }
}

/// A single-type selector.
pub open spec fn single(t: Seq<char>) -> SelV {
    SelV::Single(t)
}

pub proof fn lemma_sel_index(s: Seq<(SelV, OverrideV)>, k: SelV)
    ensures
        -1 <= sel_index(s, k) < s.len(),
        sel_index(s, k) >= 0 ==> s[sel_index(s, k)].0 == k,
        sel_index(s, k) >= 0 ==> forall|i: int| 0 <= i < sel_index(s, k) ==> s[i].0 != k,
        sel_index(s, k) == -1 ==> forall|i: int| 0 <= i < s.len() ==> s[i].0 != k,
    decreases s.len(),
{
    if s.len() > 0 {
        lemma_sel_index(s.drop_last(), k);
        assert forall|i: int| 0 <= i < s.len() - 1 implies s.drop_last()[i] == s[i] by {}
    }
}

pub proof fn lemma_same_selector(a: TypeSelector, b: TypeSelector)
    ensures
        same_selector(a, b) <==> selector_view(a) == selector_view(b),
{
    match (a, b) {
        (TypeSelector::Multiple(xs), TypeSelector::Multiple(ys)) => {
            let vx = xs@.map_values(|x: String| x@);
            let vy = ys@.map_values(|x: String| x@);
            assert(vx.len() == xs@.len() && vy.len() == ys@.len());
            assert(forall|i: int| 0 <= i < xs@.len() ==> #[trigger] vx[i] == xs@[i]@);
            assert(forall|i: int| 0 <= i < ys@.len() ==> #[trigger] vy[i] == ys@[i]@);
            if same_selector(a, b) {
                assert(vx =~= vy);
            }
            if vx == vy {
                assert forall|i: int| 0 <= i < xs@.len() implies #[trigger] xs@[i]@ == ys@[i]@ by {
                    assert(vx[i] == xs@[i]@);
                    assert(vy[i] == ys@[i]@);
                }
            }
        },
        _ => {},
    }
}


/// Finds the entry whose selector has the contents of `key`.
pub fn find_selector(entries: &Vec<(TypeSelector, ComponentOverride)>, key: &TypeSelector) -> (r: Option<usize>)
    ensures
        match r {
            Some(j) => j < entries@.len() && j == sel_index(ov_entries_view(entries@), selector_view(*key)),
            None => sel_index(ov_entries_view(entries@), selector_view(*key)) == -1,
        },
{
    let ghost s = ov_entries_view(entries@);
    proof {
        lemma_ov_entries_view(entries@);
        lemma_sel_index(s, selector_view(*key));
    }
    let mut i: usize = 0;
    while i < entries.len()
        invariant
            i <= entries@.len(),
            s == ov_entries_view(entries@),
            s.len() == entries@.len(),
            forall|j: int| 0 <= j < entries@.len() ==> #[trigger] s[j] == (selector_view(entries@[j].0), ov_view(entries@[j].1)),
            forall|j: int| 0 <= j < i ==> s[j].0 != selector_view(*key),
        decreases entries@.len() - i,
    {
        proof {
            lemma_same_selector(entries@[i as int].0, *key);
        }
        if entries[i].0.same_as(key) {
            proof {
                assert(s[i as int].0 == selector_view(*key));
                lemma_sel_index(s, selector_view(*key));
            }
            return Some(i);
        }
        assert(s[i as int].0 != selector_view(*key));
        i = i + 1;
    }
    proof {
        lemma_sel_index(s, selector_view(*key));
    }
    None
}

/// Sets the override for `key` to `value`, creating the overrides when
/// absent and replacing an entry with the same selector.
pub fn insert_override(
    ovs: &mut Option<Vec<(TypeSelector, ComponentOverride)>>,
    key: TypeSelector,
    value: ComponentOverride,
)
    ensures
        ovs_view(*final(ovs)) == ov_insert(ovs_view(*old(ovs)), selector_view(key), ov_view(value)),
{
    let mut cur: Option<Vec<(TypeSelector, ComponentOverride)>> = None;
    std::mem::swap(ovs, &mut cur);
    let ghost old_view = ovs_view(cur);
    let mut entries = match cur {
        Some(v) => v,
        None => Vec::new(),
    };
    let ghost s = ov_entries_view(entries@);
    proof {
        lemma_ov_entries_view(entries@);
        assert(s == match old_view { Some(x) => x, None => Seq::empty() });
        lemma_sel_index(s, selector_view(key));
    }
    let mut i: usize = 0;
    while i < entries.len()
        invariant
            i <= entries@.len(),
            old_view == ovs_view(*old(ovs)),
            s == (match old_view { Some(x) => x, None => Seq::empty() }),
            s == ov_entries_view(entries@),
            s.len() == entries@.len(),
            forall|j: int| 0 <= j < entries@.len() ==> #[trigger] s[j] == (selector_view(entries@[j].0), ov_view(entries@[j].1)),
            forall|j: int| 0 <= j < i ==> s[j].0 != selector_view(key),
        decreases entries@.len() - i,
    {
        if entries[i].0.same_as(&key) {
            proof {
                lemma_same_selector(entries@[i as int].0, key);
                assert(s[i as int].0 == selector_view(key));
                lemma_sel_index(s, selector_view(key));
                assert(sel_index(s, selector_view(key)) == i);
            }
            let ghost before = entries@;
            entries.set(i, (key, value));
            proof {
                lemma_ov_entries_view(entries@);
                assert(ov_entries_view(entries@) =~= s.update(i as int, (selector_view(key), ov_view(value))));
            }
            *ovs = Some(entries);
            return;
        }
        proof {
            lemma_same_selector(entries@[i as int].0, key);
            assert(s[i as int].0 != selector_view(key));
        }
        i = i + 1;
    }
    proof {
        lemma_sel_index(s, selector_view(key));
    }
    let ghost before = entries@;
    entries.push((key, value));
    proof {
        assert(entries@.drop_last() =~= before);
    }
    *ovs = Some(entries);
}

/// After setting the override for `k` to `v`, the entry found for `k` is
/// `(k, v)`, and the entry found for any other selector is the one found
/// before, at the same place.
pub proof fn lemma_ov_insert_lookup(o: OverridesV, k: SelV, v: OverrideV, other: SelV)
    ensures
        sel_index(ov_insert(o, k, v).unwrap(), k) >= 0,
        ov_insert(o, k, v).unwrap()[sel_index(ov_insert(o, k, v).unwrap(), k)] == (k, v),
        other != k && o is Some && sel_index(o.unwrap(), other) >= 0 ==> {
            let i = sel_index(o.unwrap(), other);
            &&& sel_index(ov_insert(o, k, v).unwrap(), other) == i
            &&& ov_insert(o, k, v).unwrap()[i] == o.unwrap()[i]
        },
{
    let s = match o {
        Some(x) => x,
        None => Seq::<(SelV, OverrideV)>::empty(),
    };
    let n = ov_insert(o, k, v).unwrap();
    let j = sel_index(s, k);
    lemma_sel_index(s, k);
    lemma_sel_index(n, k);
    lemma_sel_index(s, other);
    lemma_sel_index(n, other);
    if j >= 0 {
        assert(n == s.update(j, (k, v)));
    } else {
        assert(n == s.push((k, v)));
    }
    assert forall|i: int| 0 <= i < s.len() implies (#[trigger] n[i]).0 == s[i].0 by {}
    let at = if j >= 0 { j } else { s.len() as int };
    assert(n[at] == (k, v));
    assert forall|i: int| 0 <= i < at implies n[i].0 != k by {
        assert(n[i].0 == s[i].0);
    }
    if sel_index(n, k) != at {
        assert(n[at].0 == k);
    }
    if other != k && o is Some && sel_index(s, other) >= 0 {
        let i = sel_index(s, other);
        assert(n[i].0 == other);
        assert forall|m: int| 0 <= m < i implies n[m].0 != other by {
            assert(n[m].0 == s[m].0);
        }
        if sel_index(n, other) != i {
            assert(n[i].0 == other);
        }
        assert(i != j);
    }
}

/// Whether no selector occurs twice among the overrides, as in a map keyed
/// by selector.
pub open spec fn selectors_unique(o: OverridesV) -> bool {
    match o {
        Some(s) => forall|i: int, j: int| 0 <= i < j < s.len() ==> #[trigger] s[i].0 != #[trigger] s[j].0,
        None => true,
    }
}

/// Setting an override keeps each selector at most once, and the entry
/// found for the selector is then the one just set.
pub proof fn law_override_insert_keeps_selectors_unique(o: OverridesV, k: SelV, v: OverrideV)
    requires
        selectors_unique(o),
    ensures
        selectors_unique(ov_insert(o, k, v)),
        sel_index(ov_insert(o, k, v).unwrap(), k) >= 0,
        ov_insert(o, k, v).unwrap()[sel_index(ov_insert(o, k, v).unwrap(), k)] == (k, v),
{
    let s = match o {
        Some(x) => x,
        None => Seq::<(SelV, OverrideV)>::empty(),
    };
    lemma_sel_index(s, k);
    let j = sel_index(s, k);
    let n = ov_insert(o, k, v).unwrap();
    if j >= 0 {
        assert(n == s.update(j, (k, v)));
        assert forall|i: int| 0 <= i < n.len() implies #[trigger] n[i].0 == s[i].0 by {}
        assert forall|a: int, b: int| 0 <= a < b < n.len() implies #[trigger] n[a].0 != #[trigger] n[b].0 by {
            assert(n[a].0 == s[a].0 && n[b].0 == s[b].0);
        }
        lemma_sel_index(n, k);
        assert forall|i: int| 0 <= i < j implies n[i].0 != k by {
            assert(n[i].0 == s[i].0);
        }
        if sel_index(n, k) != j {
            assert(n[j].0 == k);
        }
    } else {
        assert(n == s.push((k, v)));
        assert forall|a: int, b: int| 0 <= a < b < n.len() implies #[trigger] n[a].0 != #[trigger] n[b].0 by {
            assert(n[a] == s[a]);
            if b < s.len() {
                assert(n[b] == s[b]);
            }
        }
        lemma_sel_index(n, k);
        assert forall|i: int| 0 <= i < s.len() implies n[i].0 != k by {
            assert(n[i] == s[i]);
        }
        assert(n[s.len() as int] == (k, v));
    }
}

/// A rendering that only sets `suppress`.
pub fn suppress_rendering(b: bool) -> (r: Rendering)
    ensures
        crate::template_view::rendering_view(r) == suppress_only(b),
{
    Rendering {
        emph: None,
        quote: None,
        strong: None,
        small_caps: None,
        prefix: None,
        suffix: None,
        inner_prefix: None,
        inner_suffix: None,
        wrap: None,
        suppress: Some(b),
        initialize_with: None,
        strip_periods: None,
    }
}

/// A single-type selector for `t`.
pub fn single_selector(t: &str) -> (r: TypeSelector)
    ensures
        selector_view(r) == single(t@),
{
    TypeSelector::Single(crate::text::to_owned_string(t))
}

/// The overrides of a component by their contents.
pub open spec fn tcv_overrides(c: TCV) -> OverridesV {
    match c {
        TCV::Contributor(_, _, o) => o,
        TCV::Date(_, _, _, o) => o,
        TCV::Title(_, _, o) => o,
        TCV::Number(_, _, o) => o,
        TCV::Variable(_, _, o) => o,
        TCV::List(l) => l.overrides,
        TCV::Term(_, _, o) => o,
    }
}

/// A component with its overrides replaced by `o`.
pub open spec fn with_overrides(c: TCV, o: OverridesV) -> TCV {
    match c {
        TCV::Contributor(b, r, _) => TCV::Contributor(b, r, o),
        TCV::Date(b, f, r, _) => TCV::Date(b, f, r, o),
        TCV::Title(b, r, _) => TCV::Title(b, r, o),
        TCV::Number(b, r, _) => TCV::Number(b, r, o),
        TCV::Variable(b, r, _) => TCV::Variable(b, r, o),
        TCV::List(l) => TCV::List(crate::template_view::ListV { overrides: o, ..l }),
        TCV::Term(b, r, _) => TCV::Term(b, r, o),
    }
}

/// A component with the override for `k` set to `v`.
pub open spec fn with_override(c: TCV, k: SelV, v: OverrideV) -> TCV {
    with_overrides(c, ov_insert(tcv_overrides(c), k, v))
}

/// Sets the override for `key` to `value` on a component.
pub fn add_override(c: &mut TemplateComponent, key: TypeSelector, value: ComponentOverride)
    ensures
        tc_view(*final(c)) == with_override(tc_view(*old(c)), selector_view(key), ov_view(value)),
{
    match c {
        TemplateComponent::Contributor(x) => insert_override(&mut x.overrides, key, value),
        TemplateComponent::Date(x) => insert_override(&mut x.overrides, key, value),
        TemplateComponent::Title(x) => insert_override(&mut x.overrides, key, value),
        TemplateComponent::Number(x) => insert_override(&mut x.overrides, key, value),
        TemplateComponent::Variable(x) => insert_override(&mut x.overrides, key, value),
        TemplateComponent::List(x) => insert_override(&mut x.overrides, key, value),
        TemplateComponent::Term(x) => insert_override(&mut x.overrides, key, value),
    }
}

/// Whether a component is the number `v`.
pub open spec fn is_number(c: TCV, v: NumberVariable) -> bool {
    c matches TCV::Number(n, _, _) && n.number == v
}

/// Whether a component is the title `t`.
pub open spec fn is_title(c: TCV, t: TitleType) -> bool {
    c matches TCV::Title(x, _, _) && x.title == t
}

/// Whether a component is the contributor `role`.
pub open spec fn is_contributor(c: TCV, role: ContributorRole) -> bool {
    c matches TCV::Contributor(x, _, _) && x.contributor == role
}

/// Whether a component is the variable `v`.
pub open spec fn is_variable(c: TCV, v: SimpleVariable) -> bool {
    c matches TCV::Variable(x, _, _) && x.variable == v
}

/// Whether a component is the date `d`.
pub open spec fn is_date(c: TCV, d: DateVariable) -> bool {
    c matches TCV::Date(x, _, _, _) && x.date == d
}

/// Whether a component is the number `v`.
pub fn number_is(c: &TemplateComponent, v: NumberVariable) -> (r: bool)
    ensures
        r == is_number(tc_view(*c), v),
{
    match c {
        TemplateComponent::Number(n) => n.number == v,
        _ => false,
    }
}

/// Whether a component is the title `t`.
pub fn title_is(c: &TemplateComponent, t: TitleType) -> (r: bool)
    ensures
        r == is_title(tc_view(*c), t),
{
    match c {
        TemplateComponent::Title(x) => x.title == t,
        _ => false,
    }
}

/// Whether a component is the contributor `role`.
pub fn contributor_is(c: &TemplateComponent, role: ContributorRole) -> (r: bool)
    ensures
        r == is_contributor(tc_view(*c), role),
{
    match c {
        TemplateComponent::Contributor(x) => x.contributor == role,
        _ => false,
    }
}

/// Whether a component is the variable `v`.
pub fn variable_is(c: &TemplateComponent, v: SimpleVariable) -> (r: bool)
    ensures
        r == is_variable(tc_view(*c), v),
{
    match c {
        TemplateComponent::Variable(x) => x.variable == v,
        _ => false,
    }
}

/// Whether a component is the date `d`.
pub fn date_is(c: &TemplateComponent, d: DateVariable) -> (r: bool)
    ensures
        r == is_date(tc_view(*c), d),
{
    match c {
        TemplateComponent::Date(x) => x.date == d,
        _ => false,
    }
}

/// Index of the first component of `s` satisfying `p`, or -1.
pub open spec fn first_index(s: Seq<TCV>, p: spec_fn(TCV) -> bool) -> int
    decreases s.len(),
{
    if s.len() == 0 {
        -1
    } else {
        let j = first_index(s.drop_last(), p);
        if j >= 0 {
            j
        } else if p(s.last()) {
            s.len() - 1
        } else {
            -1
        }
    }
}

/// Facts about `first_index`.
pub proof fn lemma_first_index(s: Seq<TCV>, p: spec_fn(TCV) -> bool)
    ensures
        -1 <= first_index(s, p) < s.len(),
        first_index(s, p) >= 0 ==> p(s[first_index(s, p)]),
        first_index(s, p) >= 0 ==> forall|i: int| 0 <= i < first_index(s, p) ==> !p(#[trigger] s[i]),
        first_index(s, p) == -1 ==> forall|i: int| 0 <= i < s.len() ==> !p(#[trigger] s[i]),
    decreases s.len(),
{
    if s.len() > 0 {
        lemma_first_index(s.drop_last(), p);
        assert forall|i: int| 0 <= i < s.len() - 1 implies s.drop_last()[i] == s[i] by {}
    }
}

} // verus!
