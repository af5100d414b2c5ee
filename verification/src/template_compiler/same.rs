//! Equality of templates by their contents: two templates are the same
//! when they have the same components with the same fields, strings
//! compared by their text.

use vstd::prelude::*;
use crate::options::contributors::{AndOptions, ShortenListOptions};
use crate::options::LinksConfig;
use crate::passes::common::lemma_same_selector;
use crate::template::{
    same_delimiter, ComponentOverride, ContributorForm, ContributorRole, DelimiterPunctuation, LabelPlacement,
    NameOrder, Rendering, RoleLabelForm, TemplateComponent, TemplateContributor, TypeSelector,
};
use crate::text::{opt_view, str_eq};
use crate::template_view::{
    lemma_ov_entries_view, lemma_tcs_view, ov_entries_view, ov_view, ovs_view, rendering_view, selector_view, tc_view,
    tcs_view, OverrideV, OverridesV, SelV, TCV,
};

verus! {

/// The fields of a contributor other than its rendering and overrides,
/// strings by their text.
pub open spec fn contributor_fields(x: TemplateContributor) -> (
    ContributorRole,
    ContributorForm,
    Option<(Seq<char>, RoleLabelForm, LabelPlacement)>,
    Option<NameOrder>,
    Option<Seq<char>>,
    Option<Seq<char>>,
    Option<ShortenListOptions>,
    Option<AndOptions>,
    Option<LinksConfig>,
) {
    (
        x.contributor,
        x.form,
        match x.label {
            Some(l) => Some((l.term@, l.form, l.placement)),
            None => None,
        },
        x.name_order,
        opt_view(x.delimiter),
        opt_view(x.sort_separator),
        x.shorten,
        x.and,
        x.links,
    )
}

/// Equality of optional delimiters, custom ones by their text.
pub open spec fn same_opt_delimiter(a: Option<DelimiterPunctuation>, b: Option<DelimiterPunctuation>) -> bool {
    match (a, b) {
        (Some(x), Some(y)) => same_delimiter(x, y),
        (None, None) => true,
        _ => false,
    }
}

/// Whether two components have the same contents.
pub open spec fn same_tcv(a: TCV, b: TCV) -> bool
    decreases a, 3nat,
{
    match a {
        TCV::Contributor(x, r, o) => b is Contributor && contributor_fields(x) == contributor_fields(b->Contributor_0)
            && r == b->Contributor_1 && same_ovs(o, b->Contributor_2),
        TCV::Date(x, f, r, o) => b is Date && x == b->Date_0 && match f {
            Some(s) => b->Date_1 is Some && same_tcvs(s, b->Date_1->Some_0),
            None => b->Date_1 is None,
        } && r == b->Date_2 && same_ovs(o, b->Date_3),
        TCV::Title(x, r, o) => b is Title && x == b->Title_0 && r == b->Title_1 && same_ovs(o, b->Title_2),
        TCV::Number(x, r, o) => b is Number && x == b->Number_0 && r == b->Number_1 && same_ovs(o, b->Number_2),
        TCV::Variable(x, r, o) => b is Variable && x == b->Variable_0 && r == b->Variable_1 && same_ovs(
            o,
            b->Variable_2,
        ),
        TCV::List(l) => b is List && same_tcvs(l.items, b->List_0.items) && same_opt_delimiter(
            l.delimiter,
            b->List_0.delimiter,
        ) && l.rendering == b->List_0.rendering && same_ovs(l.overrides, b->List_0.overrides),
        TCV::Term(x, r, o) => b is Term && x == b->Term_0 && r == b->Term_1 && same_ovs(o, b->Term_2),
    }
}

/// Whether two sequences of components have the same contents, element by
/// element.
pub open spec fn same_tcvs(a: Seq<TCV>, b: Seq<TCV>) -> bool
    decreases a, 2nat,
{
    a.len() == b.len() && (a.len() == 0 || (same_tcvs(a.drop_last(), b.drop_last()) && same_tcv(a.last(), b.last())))
}

/// Whether two sets of overrides have the same contents.
pub open spec fn same_ovs(a: OverridesV, b: OverridesV) -> bool
    decreases a, 1nat,
{
    match a {
        Some(s) => b is Some && same_entries(s, b->Some_0),
        None => b is None,
    }
}

/// Whether two sequences of override entries have the same contents.
pub open spec fn same_entries(a: Seq<(SelV, OverrideV)>, b: Seq<(SelV, OverrideV)>) -> bool
    decreases a, 0nat,
{
    a.len() == b.len() && (a.len() == 0 || (same_entries(a.drop_last(), b.drop_last()) && a.last().0 == b.last().0
        && match a.last().1 {
        OverrideV::Rendering(r) => b.last().1 == OverrideV::Rendering(r),
        OverrideV::Component(c) => b.last().1 is Component && same_tcv(*c, *b.last().1->Component_0),
    }))
}

/// `same_tcvs` element by element.
pub proof fn lemma_same_tcvs(a: Seq<TCV>, b: Seq<TCV>)
    ensures
        same_tcvs(a, b) <==> (a.len() == b.len() && forall|i: int| 0 <= i < a.len() ==> #[trigger] same_tcv(a[i], b[i])),
    decreases a.len(),
{
    if a.len() > 0 && a.len() == b.len() {
        lemma_same_tcvs(a.drop_last(), b.drop_last());
        if forall|i: int| 0 <= i < a.len() ==> #[trigger] same_tcv(a[i], b[i]) {
            assert forall|i: int| 0 <= i < a.drop_last().len() implies #[trigger] same_tcv(
                a.drop_last()[i],
                b.drop_last()[i],
            ) by {
                assert(same_tcv(a[i], b[i]));
            }
            assert(same_tcv(a[a.len() - 1], b[b.len() - 1]));
        }
        if same_tcvs(a, b) {
            assert forall|i: int| 0 <= i < a.len() implies #[trigger] same_tcv(a[i], b[i]) by {
                if i < a.len() - 1 {
                    assert(same_tcv(a.drop_last()[i], b.drop_last()[i]));
                }
            }
        }
    }
}

/// `same_entries` entry by entry.
pub open spec fn same_entry(x: (SelV, OverrideV), y: (SelV, OverrideV)) -> bool {
    x.0 == y.0 && match x.1 {
        OverrideV::Rendering(r) => y.1 == OverrideV::Rendering(r),
        OverrideV::Component(c) => y.1 is Component && same_tcv(*c, *y.1->Component_0),
    }
}

pub proof fn lemma_same_entries(a: Seq<(SelV, OverrideV)>, b: Seq<(SelV, OverrideV)>)
    ensures
        same_entries(a, b) <==> (a.len() == b.len() && forall|i: int|
            0 <= i < a.len() ==> #[trigger] same_entry(a[i], b[i])),
    decreases a.len(),
{
    if a.len() > 0 && a.len() == b.len() {
        lemma_same_entries(a.drop_last(), b.drop_last());
        if forall|i: int| 0 <= i < a.len() ==> #[trigger] same_entry(a[i], b[i]) {
            assert forall|i: int| 0 <= i < a.drop_last().len() implies #[trigger] same_entry(
                a.drop_last()[i],
                b.drop_last()[i],
            ) by {
                assert(same_entry(a[i], b[i]));
            }
            assert(same_entry(a[a.len() - 1], b[b.len() - 1]));
        }
        if same_entries(a, b) {
            assert forall|i: int| 0 <= i < a.len() implies #[trigger] same_entry(a[i], b[i]) by {
                if i < a.len() - 1 {
                    assert(same_entry(a.drop_last()[i], b.drop_last()[i]));
                }
            }
        }
    }
}

/// Every component has the same contents as itself.
pub proof fn law_same_tcv_reflexive(a: TCV)
    ensures
        same_tcv(a, a),
    decreases a, 3nat,
{
    match a {
        TCV::Contributor(_, _, o) => lemma_same_ovs_reflexive(o),
        TCV::Date(_, f, _, o) => {
            match f {
                Some(s) => law_same_tcvs_reflexive(s),
                None => {},
            }
            lemma_same_ovs_reflexive(o);
        },
        TCV::Title(_, _, o) => lemma_same_ovs_reflexive(o),
        TCV::Number(_, _, o) => lemma_same_ovs_reflexive(o),
        TCV::Variable(_, _, o) => lemma_same_ovs_reflexive(o),
        TCV::List(l) => {
            law_same_tcvs_reflexive(l.items);
            lemma_same_ovs_reflexive(l.overrides);
            match l.delimiter {
                Some(d) => {},
                None => {},
            }
        },
        TCV::Term(_, _, o) => lemma_same_ovs_reflexive(o),
    }
}

/// Every template has the same contents as itself.
pub proof fn law_same_tcvs_reflexive(a: Seq<TCV>)
    ensures
        same_tcvs(a, a),
    decreases a, 2nat,
{
    if a.len() > 0 {
        law_same_tcvs_reflexive(a.drop_last());
        law_same_tcv_reflexive(a.last());
    }
}

proof fn lemma_same_ovs_reflexive(a: OverridesV)
    ensures
        same_ovs(a, a),
    decreases a, 1nat,
{
    match a {
        Some(s) => lemma_same_entries_reflexive(s),
        None => {},
    }
}

proof fn lemma_same_entries_reflexive(a: Seq<(SelV, OverrideV)>)
    ensures
        same_entries(a, a),
    decreases a, 0nat,
{
    if a.len() > 0 {
        lemma_same_entries_reflexive(a.drop_last());
        match a.last().1 {
            OverrideV::Component(c) => law_same_tcv_reflexive(*c),
            OverrideV::Rendering(_) => {},
        }
    }
}

fn opt_str_eq(a: &Option<String>, b: &Option<String>) -> (r: bool)
    ensures
        r == (opt_view(*a) == opt_view(*b)),
{
    match (a, b) {
        (Some(x), Some(y)) => str_eq(x.as_str(), y.as_str()),
        (None, None) => true,
        _ => false,
    }
}

/// Equality of renderings by their contents.
pub fn rendering_eq(a: &Rendering, b: &Rendering) -> (r: bool)
    ensures
        r == (rendering_view(*a) == rendering_view(*b)),
{
    a.emph == b.emph && a.quote == b.quote && a.strong == b.strong && a.small_caps == b.small_caps && opt_str_eq(
        &a.prefix,
        &b.prefix,
    ) && opt_str_eq(&a.suffix, &b.suffix) && opt_str_eq(&a.inner_prefix, &b.inner_prefix) && opt_str_eq(
        &a.inner_suffix,
        &b.inner_suffix,
    ) && a.wrap == b.wrap && a.suppress == b.suppress && opt_str_eq(&a.initialize_with, &b.initialize_with)
        && a.strip_periods == b.strip_periods
}

fn contributor_fields_eq(x: &TemplateContributor, y: &TemplateContributor) -> (r: bool)
    ensures
        r == (contributor_fields(*x) == contributor_fields(*y)),
{
    let label_same = match (&x.label, &y.label) {
        (Some(l), Some(m)) => str_eq(l.term.as_str(), m.term.as_str()) && l.form == m.form && l.placement
            == m.placement,
        (None, None) => true,
        _ => false,
    };
    x.contributor == y.contributor && x.form == y.form && label_same && x.name_order == y.name_order && opt_str_eq(
        &x.delimiter,
        &y.delimiter,
    ) && opt_str_eq(&x.sort_separator, &y.sort_separator) && x.shorten == y.shorten && x.and == y.and && x.links
        == y.links
}

fn delimiter_eq(a: &Option<DelimiterPunctuation>, b: &Option<DelimiterPunctuation>) -> (r: bool)
    ensures
        r == same_opt_delimiter(*a, *b),
{
    match (a, b) {
        (Some(x), Some(y)) => match (x, y) {
            (DelimiterPunctuation::Custom(s), DelimiterPunctuation::Custom(t)) => str_eq(s.as_str(), t.as_str()),
            (DelimiterPunctuation::Custom(_), _) => false,
            (_, DelimiterPunctuation::Custom(_)) => false,
            (DelimiterPunctuation::Comma, DelimiterPunctuation::Comma) => true,
            (DelimiterPunctuation::Semicolon, DelimiterPunctuation::Semicolon) => true,
            (DelimiterPunctuation::Period, DelimiterPunctuation::Period) => true,
            (DelimiterPunctuation::Colon, DelimiterPunctuation::Colon) => true,
            (DelimiterPunctuation::Ampersand, DelimiterPunctuation::Ampersand) => true,
            (DelimiterPunctuation::VerticalLine, DelimiterPunctuation::VerticalLine) => true,
            (DelimiterPunctuation::Slash, DelimiterPunctuation::Slash) => true,
            (DelimiterPunctuation::Hyphen, DelimiterPunctuation::Hyphen) => true,
            (DelimiterPunctuation::Space, DelimiterPunctuation::Space) => true,
            (DelimiterPunctuation::Empty, DelimiterPunctuation::Empty) => true,
            _ => false,
        },
        (None, None) => true,
        _ => false,
    }
}

fn override_eq(a: &ComponentOverride, b: &ComponentOverride) -> (r: bool)
    ensures
        r == match ov_view(*a) {
            OverrideV::Rendering(x) => ov_view(*b) == OverrideV::Rendering(x),
            OverrideV::Component(c) => ov_view(*b) is Component && same_tcv(*c, *ov_view(*b)->Component_0),
        },
    decreases a, 1nat,
{
    match (a, b) {
        (ComponentOverride::Rendering(x), ComponentOverride::Rendering(y)) => rendering_eq(x, y),
        (ComponentOverride::Component(x), ComponentOverride::Component(y)) => {
            proof {
                assert(decreases_to!(a => x));
            }
            component_eq(x, y)
        },
        _ => false,
    }
}

/// Equality of overrides by their contents (`same_ovs`).
pub fn overrides_eq(
    a: &Option<Vec<(TypeSelector, ComponentOverride)>>,
    b: &Option<Vec<(TypeSelector, ComponentOverride)>>,
) -> (r: bool)
    ensures
        r == same_ovs(ovs_view(*a), ovs_view(*b)),
    decreases a, 2nat,
{
    match (a, b) {
        (Some(x), Some(y)) => {
            let ghost sx = ov_entries_view(x@);
            let ghost sy = ov_entries_view(y@);
            proof {
                lemma_ov_entries_view(x@);
                lemma_ov_entries_view(y@);
                lemma_same_entries(sx, sy);
            }
            if x.len() != y.len() {
                return false;
            }
            let mut i: usize = 0;
            while i < x.len()
                invariant
                    *a == Some(*x),
                    *b == Some(*y),
                    i <= x@.len(),
                    x@.len() == y@.len(),
                    sx == ov_entries_view(x@),
                    sy == ov_entries_view(y@),
                    sx.len() == x@.len(),
                    sy.len() == y@.len(),
                    forall|k: int| 0 <= k < x@.len() ==> #[trigger] sx[k] == (selector_view(x@[k].0), ov_view(x@[k].1)),
                    forall|k: int| 0 <= k < y@.len() ==> #[trigger] sy[k] == (selector_view(y@[k].0), ov_view(y@[k].1)),
                    forall|k: int| 0 <= k < i ==> #[trigger] same_entry(sx[k], sy[k]),
                decreases x@.len() - i,
            {
                proof {
                    assert(decreases_to!(a => a->Some_0));
                    assert(decreases_to!(a->Some_0 => x@));
                    assert(decreases_to!(x@ => x@[i as int]));
                    assert(decreases_to!(x@[i as int] => x@[i as int].1));
                    lemma_same_selector(x@[i as int].0, y@[i as int].0);
                }
                let sel_same = x[i].0.same_as(&y[i].0);
                if !sel_same {
                    proof {
                        assert(!same_entry(sx[i as int], sy[i as int]));
                        lemma_same_entries(sx, sy);
                    }
                    return false;
                }
                if !override_eq(&x[i].1, &y[i].1) {
                    proof {
                        assert(!same_entry(sx[i as int], sy[i as int]));
                        lemma_same_entries(sx, sy);
                    }
                    return false;
                }
                i = i + 1;
            }
            true
        },
        (None, None) => true,
        _ => false,
    }
}

/// Equality of components by their contents (`same_tcv`).
pub fn component_eq(a: &TemplateComponent, b: &TemplateComponent) -> (r: bool)
    ensures
        r == same_tcv(tc_view(*a), tc_view(*b)),
    decreases a, 4nat,
{
    match (a, b) {
        (TemplateComponent::Contributor(x), TemplateComponent::Contributor(y)) => {
            proof {
                assert(decreases_to!(a => x));
                assert(decreases_to!(x => x.overrides));
            }
            contributor_fields_eq(x, y) && rendering_eq(&x.rendering, &y.rendering) && overrides_eq(
                &x.overrides,
                &y.overrides,
            )
        },
        (TemplateComponent::Date(x), TemplateComponent::Date(y)) => {
            proof {
                assert(decreases_to!(a => x));
                assert(decreases_to!(x => x.overrides));
                assert(decreases_to!(x => x.fallback));
            }
            let fallback_same = match (&x.fallback, &y.fallback) {
                (Some(f), Some(g)) => {
                    proof {
                        assert(decreases_to!(x.fallback => x.fallback->Some_0));
                    }
                    components_eq(f, g)
                },
                (None, None) => true,
                _ => false,
            };
            x.date == y.date && x.form == y.form && x.links == y.links && fallback_same && rendering_eq(
                &x.rendering,
                &y.rendering,
            ) && overrides_eq(&x.overrides, &y.overrides)
        },
        (TemplateComponent::Title(x), TemplateComponent::Title(y)) => {
            proof {
                assert(decreases_to!(a => x));
                assert(decreases_to!(x => x.overrides));
            }
            x.title == y.title && x.form == y.form && x.disambiguate_only == y.disambiguate_only && x.links == y.links
                && rendering_eq(&x.rendering, &y.rendering) && overrides_eq(&x.overrides, &y.overrides)
        },
        (TemplateComponent::Number(x), TemplateComponent::Number(y)) => {
            proof {
                assert(decreases_to!(a => x));
                assert(decreases_to!(x => x.overrides));
            }
            x.number == y.number && x.form == y.form && x.label_form == y.label_form && x.links == y.links
                && rendering_eq(&x.rendering, &y.rendering) && overrides_eq(&x.overrides, &y.overrides)
        },
        (TemplateComponent::Variable(x), TemplateComponent::Variable(y)) => {
            proof {
                assert(decreases_to!(a => x));
                assert(decreases_to!(x => x.overrides));
            }
            x.variable == y.variable && x.show_label == y.show_label && x.strip_label_periods == y.strip_label_periods
                && x.links == y.links && rendering_eq(&x.rendering, &y.rendering) && overrides_eq(
                &x.overrides,
                &y.overrides,
            )
        },
        (TemplateComponent::List(x), TemplateComponent::List(y)) => {
            proof {
                assert(decreases_to!(a => x));
                assert(decreases_to!(x => x.overrides));
                assert(decreases_to!(x => x.items));
            }
            components_eq(&x.items, &y.items) && delimiter_eq(&x.delimiter, &y.delimiter) && rendering_eq(
                &x.rendering,
                &y.rendering,
            ) && overrides_eq(&x.overrides, &y.overrides)
        },
        (TemplateComponent::Term(x), TemplateComponent::Term(y)) => {
            proof {
                assert(decreases_to!(a => x));
                assert(decreases_to!(x => x.overrides));
            }
            x.term == y.term && x.form == y.form && rendering_eq(&x.rendering, &y.rendering) && overrides_eq(
                &x.overrides,
                &y.overrides,
            )
        },
        _ => false,
    }
}

/// Equality of templates by their contents (`same_tcvs`).
pub fn components_eq(a: &Vec<TemplateComponent>, b: &Vec<TemplateComponent>) -> (r: bool)
    ensures
        r == same_tcvs(tcs_view(a@), tcs_view(b@)),
    decreases a, 3nat,
{
    let ghost sa = tcs_view(a@);
    let ghost sb = tcs_view(b@);
    proof {
        lemma_tcs_view(a@);
        lemma_tcs_view(b@);
        lemma_same_tcvs(sa, sb);
    }
    if a.len() != b.len() {
        return false;
    }
    let mut i: usize = 0;
    while i < a.len()
        invariant
            i <= a@.len(),
            a@.len() == b@.len(),
            sa == tcs_view(a@),
            sb == tcs_view(b@),
            sa.len() == a@.len(),
            sb.len() == b@.len(),
            forall|k: int| 0 <= k < a@.len() ==> #[trigger] sa[k] == tc_view(a@[k]),
            forall|k: int| 0 <= k < b@.len() ==> #[trigger] sb[k] == tc_view(b@[k]),
            forall|k: int| 0 <= k < i ==> #[trigger] same_tcv(sa[k], sb[k]),
        decreases a@.len() - i,
    {
        proof {
            assert(decreases_to!(a => a@));
            assert(decreases_to!(a@ => a@[i as int]));
        }
        if !component_eq(&a[i], &b[i]) {
            proof {
                assert(!same_tcv(sa[i as int], sb[i as int]));
                lemma_same_tcvs(sa, sb);
            }
            return false;
        }
        i = i + 1;
    }
    true
}

} // verus!
