//! The building blocks of the embedded templates: components with a
//! variable, a form and a few rendering options, everything else unset.

use vstd::prelude::*;
use crate::options::contributors::AndOptions;
use crate::template::{
    empty_rendering, ContributorForm, ContributorRole, DateForm, DateVariable, NumberVariable, Rendering,
    SimpleVariable, TemplateComponent, TemplateContributor, TemplateDate, TemplateNumber, TemplateTitle,
    TemplateVariable, TitleType, WrapPunctuation,
};
use crate::template_view::{no_rendering, rendering_view, RenderingV, TCV};

verus! {

/// An optional literal by its view.
pub open spec fn lit(o: Option<&str>) -> Option<Seq<char>> {
    match o {
        Some(s) => Some(s@),
        None => None,
    }
}

/// Rendering options with the given affixes, emphasis, quotes and wrap.
pub open spec fn styled(
    prefix: Option<Seq<char>>,
    suffix: Option<Seq<char>>,
    emph: Option<bool>,
    quote: Option<bool>,
    wrap: Option<WrapPunctuation>,
) -> RenderingV {
    RenderingV { prefix, suffix, emph, quote, wrap, ..no_rendering() }
}

/// A contributor component.
pub open spec fn contributor_part(role: ContributorRole, form: ContributorForm, and: Option<AndOptions>, r: RenderingV) -> TCV {
    TCV::Contributor(
        TemplateContributor {
            contributor: role,
            form,
            label: None,
            name_order: None,
            delimiter: None,
            sort_separator: None,
            shorten: None,
            and,
            rendering: empty_rendering(),
            links: None,
            overrides: None,
        },
        r,
        None,
    )
}

/// A date component.
pub open spec fn date_part(date: DateVariable, form: DateForm, r: RenderingV) -> TCV {
    TCV::Date(
        TemplateDate { date, form, fallback: None, rendering: empty_rendering(), links: None, overrides: None },
        None,
        r,
        None,
    )
}

/// A title component.
pub open spec fn title_part(title: TitleType, r: RenderingV) -> TCV {
    TCV::Title(
        TemplateTitle { title, form: None, disambiguate_only: None, rendering: empty_rendering(), links: None, overrides: None },
        r,
        None,
    )
}

/// A number component.
pub open spec fn number_part(number: NumberVariable, r: RenderingV) -> TCV {
    TCV::Number(
        TemplateNumber { number, form: None, label_form: None, rendering: empty_rendering(), links: None, overrides: None },
        r,
        None,
    )
}

/// A simple variable component.
pub open spec fn variable_part(variable: SimpleVariable, r: RenderingV) -> TCV {
    TCV::Variable(
        TemplateVariable {
            variable,
            show_label: None,
            strip_label_periods: None,
            rendering: empty_rendering(),
            links: None,
            overrides: None,
        },
        r,
        None,
    )
}

fn lit_string(o: Option<&str>) -> (r: Option<String>)
    ensures
        crate::text::opt_view(r) == lit(o),
{
    match o {
        Some(s) => Some(crate::text::to_owned_string(s)),
        None => None,
    }
}

/// Rendering options (`styled`).
pub fn style(
    prefix: Option<&str>,
    suffix: Option<&str>,
    emph: Option<bool>,
    quote: Option<bool>,
    wrap: Option<WrapPunctuation>,
) -> (r: Rendering)
    ensures
        rendering_view(r) == styled(lit(prefix), lit(suffix), emph, quote, wrap),
{
    Rendering { prefix: lit_string(prefix), suffix: lit_string(suffix), emph, quote, wrap, ..Rendering::default() }
}

/// A contributor component (`contributor_part`).
pub fn contributor(role: ContributorRole, form: ContributorForm, and: Option<AndOptions>, rendering: Rendering) -> (r: TemplateComponent)
    ensures
        crate::template_view::tc_view(r) == contributor_part(role, form, and, rendering_view(rendering)),
{
    TemplateComponent::Contributor(
        TemplateContributor {
            contributor: role,
            form,
            label: None,
            name_order: None,
            delimiter: None,
            sort_separator: None,
            shorten: None,
            and,
            rendering,
            links: None,
            overrides: None,
        },
    )
}

/// A date component (`date_part`).
pub fn date(d: DateVariable, form: DateForm, rendering: Rendering) -> (r: TemplateComponent)
    ensures
        crate::template_view::tc_view(r) == date_part(d, form, rendering_view(rendering)),
{
    TemplateComponent::Date(TemplateDate { date: d, form, fallback: None, rendering, links: None, overrides: None })
}

/// A title component (`title_part`).
pub fn title(t: TitleType, rendering: Rendering) -> (r: TemplateComponent)
    ensures
        crate::template_view::tc_view(r) == title_part(t, rendering_view(rendering)),
{
    TemplateComponent::Title(
        TemplateTitle { title: t, form: None, disambiguate_only: None, rendering, links: None, overrides: None },
    )
}

/// A number component (`number_part`).
pub fn number(n: NumberVariable, rendering: Rendering) -> (r: TemplateComponent)
    ensures
        crate::template_view::tc_view(r) == number_part(n, rendering_view(rendering)),
{
    TemplateComponent::Number(
        TemplateNumber { number: n, form: None, label_form: None, rendering, links: None, overrides: None },
    )
}

/// A simple variable component (`variable_part`).
pub fn variable(v: SimpleVariable, rendering: Rendering) -> (r: TemplateComponent)
    ensures
        crate::template_view::tc_view(r) == variable_part(v, rendering_view(rendering)),
{
    TemplateComponent::Variable(
        TemplateVariable {
            variable: v,
            show_label: None,
            strip_label_periods: None,
            rendering,
            links: None,
            overrides: None,
        },
    )
}

} // verus!
