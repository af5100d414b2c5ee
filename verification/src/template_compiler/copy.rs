//! Copies of template components with the same contents.

use vstd::prelude::*;
use crate::template::{
    ComponentOverride, RoleLabel, TemplateComponent, TemplateContributor, TemplateDate, TemplateList,
    TemplateNumber, TemplateTerm, TemplateTitle, TemplateVariable, TypeSelector,
};
use crate::template_view::{
    lemma_ov_entries_view, lemma_tcs_view, ov_entries_view, ov_view, ovs_view, selector_view, tc_view, tcs_view,
};

verus! {

fn copy_label(l: &Option<RoleLabel>) -> (r: Option<RoleLabel>)
    ensures
        r == *l,
{
    match l {
        Some(x) => Some(RoleLabel { term: x.term.clone(), form: x.form, placement: x.placement }),
        None => None,
    }
}

fn copy_selector(s: &TypeSelector) -> (r: TypeSelector)
    ensures
        selector_view(r) == selector_view(*s),
{
    match s {
        TypeSelector::Single(x) => TypeSelector::Single(x.clone()),
        TypeSelector::Multiple(xs) => {
            let mut out: Vec<String> = Vec::new();
            let mut i: usize = 0;
            while i < xs.len()
                invariant
                    i <= xs@.len(),
                    out@.len() == i,
                    forall|j: int| 0 <= j < i ==> #[trigger] out@[j]@ == xs@[j]@,
                decreases xs@.len() - i,
            {
                out.push(xs[i].clone());
                i = i + 1;
            }
            proof {
                assert(out@.map_values(|x: String| x@) =~= xs@.map_values(|x: String| x@));
            }
            TypeSelector::Multiple(out)
        },
    }
}

/// A copy of a component with the same contents.
pub fn copy_component(c: &TemplateComponent) -> (r: TemplateComponent)
    ensures
        tc_view(r) == tc_view(*c),
    decreases c, 4nat,
{
    match c {
        TemplateComponent::Contributor(x) => {
            proof {
                assert(decreases_to!(c => x));
                assert(decreases_to!(x => x.overrides));
            }
            TemplateComponent::Contributor(
                TemplateContributor {
                    contributor: x.contributor,
                    form: x.form,
                    label: copy_label(&x.label),
                    name_order: x.name_order,
                    delimiter: x.delimiter.clone(),
                    sort_separator: x.sort_separator.clone(),
                    shorten: x.shorten,
                    and: x.and,
                    rendering: x.rendering.clone(),
                    links: x.links,
                    overrides: copy_overrides(&x.overrides),
                },
            )
        },
        TemplateComponent::Date(x) => {
            proof {
                assert(decreases_to!(c => x));
                assert(decreases_to!(x => x.overrides));
                assert(decreases_to!(x => x.fallback));
            }
            let fallback = match &x.fallback {
                Some(f) => {
                    proof {
                        assert(decreases_to!(x.fallback => x.fallback->Some_0));
                    }
                    Some(copy_components(f))
                },
                None => None,
            };
            TemplateComponent::Date(
                TemplateDate {
                    date: x.date,
                    form: x.form,
                    fallback,
                    rendering: x.rendering.clone(),
                    links: x.links,
                    overrides: copy_overrides(&x.overrides),
                },
            )
        },
        TemplateComponent::Title(x) => {
            proof {
                assert(decreases_to!(c => x));
                assert(decreases_to!(x => x.overrides));
            }
            TemplateComponent::Title(
                TemplateTitle {
                    title: x.title,
                    form: x.form,
                    disambiguate_only: x.disambiguate_only,
                    rendering: x.rendering.clone(),
                    links: x.links,
                    overrides: copy_overrides(&x.overrides),
                },
            )
        },
        TemplateComponent::Number(x) => {
            proof {
                assert(decreases_to!(c => x));
                assert(decreases_to!(x => x.overrides));
            }
            TemplateComponent::Number(
                TemplateNumber {
                    number: x.number,
                    form: x.form,
                    label_form: x.label_form,
                    rendering: x.rendering.clone(),
                    links: x.links,
                    overrides: copy_overrides(&x.overrides),
                },
            )
        },
        TemplateComponent::Variable(x) => {
            proof {
                assert(decreases_to!(c => x));
                assert(decreases_to!(x => x.overrides));
            }
            TemplateComponent::Variable(
                TemplateVariable {
                    variable: x.variable,
                    show_label: x.show_label,
                    strip_label_periods: x.strip_label_periods,
                    rendering: x.rendering.clone(),
                    links: x.links,
                    overrides: copy_overrides(&x.overrides),
                },
            )
        },
        TemplateComponent::List(x) => {
            proof {
                assert(decreases_to!(c => x));
                assert(decreases_to!(x => x.overrides));
                assert(decreases_to!(x => x.items));
            }
            TemplateComponent::List(
                TemplateList {
                    items: copy_components(&x.items),
                    delimiter: match &x.delimiter {
                        Some(d) => Some(d.copy()),
                        None => None,
                    },
                    rendering: x.rendering.clone(),
                    overrides: copy_overrides(&x.overrides),
                },
            )
        },
        TemplateComponent::Term(x) => {
            proof {
                assert(decreases_to!(c => x));
                assert(decreases_to!(x => x.overrides));
            }
            TemplateComponent::Term(
                TemplateTerm {
                    term: x.term,
                    form: x.form,
                    rendering: x.rendering.clone(),
                    overrides: copy_overrides(&x.overrides),
                },
            )
        },
    }
}

/// Copies of components with the same contents.
pub fn copy_components(v: &Vec<TemplateComponent>) -> (r: Vec<TemplateComponent>)
    ensures
        tcs_view(r@) == tcs_view(v@),
    decreases v, 3nat,
{
    let mut out: Vec<TemplateComponent> = Vec::new();
    let mut i: usize = 0;
    proof {
        lemma_tcs_view(v@);
    }
    while i < v.len()
        invariant
            i <= v@.len(),
            out@.len() == i,
            forall|j: int| 0 <= j < i ==> #[trigger] tc_view(out@[j]) == tc_view(v@[j]),
        decreases v@.len() - i,
    {
        proof {
            assert(decreases_to!(v => v@));
            assert(decreases_to!(v@ => v@[i as int]));
        }
        out.push(copy_component(&v[i]));
        i = i + 1;
    }
    proof {
        lemma_tcs_view(out@);
        assert(tcs_view(out@) =~= tcs_view(v@));
    }
    out
}

fn copy_override(o: &ComponentOverride) -> (r: ComponentOverride)
    ensures
        ov_view(r) == ov_view(*o),
    decreases o, 1nat,
{
    match o {
        ComponentOverride::Component(b) => {
            proof {
                assert(decreases_to!(o => b));
            }
            ComponentOverride::Component(Box::new(copy_component(b)))
        },
        ComponentOverride::Rendering(r) => ComponentOverride::Rendering(r.clone()),
    }
}

/// A copy of optional overrides with the same contents.
pub fn copy_overrides(o: &Option<Vec<(TypeSelector, ComponentOverride)>>) -> (r: Option<
    Vec<(TypeSelector, ComponentOverride)>,
>)
    ensures
        ovs_view(r) == ovs_view(*o),
    decreases o, 2nat,
{
    match o {
        Some(v) => {
            let mut out: Vec<(TypeSelector, ComponentOverride)> = Vec::new();
            let mut i: usize = 0;
            while i < v.len()
                invariant
                    i <= v@.len(),
                    *o == Some(*v),
                    out@.len() == i,
                    forall|j: int|
                        0 <= j < i ==> selector_view(#[trigger] out@[j].0) == selector_view(v@[j].0) && ov_view(
                            out@[j].1,
                        ) == ov_view(v@[j].1),
                decreases v@.len() - i,
            {
                proof {
                    assert(decreases_to!(o => o->Some_0));
                    assert(decreases_to!(o->Some_0 => v@));
                    assert(decreases_to!(v@ => v@[i as int]));
                    assert(decreases_to!(v@[i as int] => v@[i as int].1));
                }
                let entry = (copy_selector(&v[i].0), copy_override(&v[i].1));
                out.push(entry);
                i = i + 1;
            }
            proof {
                lemma_ov_entries_view(out@);
                lemma_ov_entries_view(v@);
                assert(ov_entries_view(out@) =~= ov_entries_view(v@));
            }
            Some(out)
        },
        None => None,
    }
}

} // verus!
