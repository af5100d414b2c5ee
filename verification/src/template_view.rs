//! The contents of template components: vectors as sequences and strings by
//! their views, so that the migration passes can be stated as functions on
//! templates.

use vstd::prelude::*;
use crate::template::{
    empty_rendering, ComponentOverride, Rendering, TemplateComponent, TemplateContributor,
    TemplateDate, TemplateNumber, TemplateTerm, TemplateTitle, TemplateVariable, TypeSelector,
    WrapPunctuation, DelimiterPunctuation,
};
use crate::text::opt_view;

verus! {

/// Rendering options, strings by their views.
pub struct RenderingV {
    pub emph: Option<bool>,
    pub quote: Option<bool>,
    pub strong: Option<bool>,
    pub small_caps: Option<bool>,
    pub prefix: Option<Seq<char>>,
    pub suffix: Option<Seq<char>>,
    pub inner_prefix: Option<Seq<char>>,
    pub inner_suffix: Option<Seq<char>>,
    pub wrap: Option<WrapPunctuation>,
    pub suppress: Option<bool>,
    pub initialize_with: Option<Seq<char>>,
    pub strip_periods: Option<bool>,
}

/// The contents of rendering options.
pub open spec fn rendering_view(r: Rendering) -> RenderingV {
    RenderingV {
        emph: r.emph,
        quote: r.quote,
        strong: r.strong,
        small_caps: r.small_caps,
        prefix: opt_view(r.prefix),
        suffix: opt_view(r.suffix),
        inner_prefix: opt_view(r.inner_prefix),
        inner_suffix: opt_view(r.inner_suffix),
        wrap: r.wrap,
        suppress: r.suppress,
        initialize_with: opt_view(r.initialize_with),
        strip_periods: r.strip_periods,
    }
}

/// The rendering with every field unset.
pub open spec fn no_rendering() -> RenderingV {
    rendering_view(empty_rendering())
}

/// A type selector, strings by their views.
pub enum SelV {
    Single(Seq<char>),
    Multiple(Seq<Seq<char>>),
}

/// The contents of a type selector.
pub open spec fn selector_view(s: TypeSelector) -> SelV {
    match s {
        TypeSelector::Single(x) => SelV::Single(x@),
        TypeSelector::Multiple(xs) => SelV::Multiple(xs@.map_values(|x: String| x@)),
    }
}

/// A type-specific override by its contents.
pub enum OverrideV {
    Component(Box<TCV>),
    Rendering(RenderingV),
}

/// Overrides by their contents, in order.
pub type OverridesV = Option<Seq<(SelV, OverrideV)>>;

/// A list component by its contents.
pub struct ListV {
    pub items: Seq<TCV>,
    pub delimiter: Option<DelimiterPunctuation>,
    pub rendering: RenderingV,
    pub overrides: OverridesV,
}

/// A template component by its contents. Each leaf keeps its own fields in a
/// base value whose rendering is unset and whose overrides (and date
/// fallback) are absent; those are held beside it by their contents.
pub enum TCV {
    Contributor(TemplateContributor, RenderingV, OverridesV),
    Date(TemplateDate, Option<Seq<TCV>>, RenderingV, OverridesV),
    Title(TemplateTitle, RenderingV, OverridesV),
    Number(TemplateNumber, RenderingV, OverridesV),
    Variable(TemplateVariable, RenderingV, OverridesV),
    List(ListV),
    Term(TemplateTerm, RenderingV, OverridesV),
}

/// The contents of a component.
pub open spec fn tc_view(c: TemplateComponent) -> TCV
    decreases c, 4nat,
{
    match c {
        TemplateComponent::Contributor(x) => TCV::Contributor(
            TemplateContributor { rendering: empty_rendering(), overrides: None, ..x },
            rendering_view(x.rendering),
            ovs_view(c->Contributor_0.overrides),
        ),
        TemplateComponent::Date(x) => TCV::Date(
            TemplateDate { fallback: None, rendering: empty_rendering(), overrides: None, ..x },
            match c->Date_0.fallback {
                Some(f) => Some(tcs_view(f@)),
                None => None,
            },
            rendering_view(x.rendering),
            ovs_view(c->Date_0.overrides),
        ),
        TemplateComponent::Title(x) => TCV::Title(
            TemplateTitle { rendering: empty_rendering(), overrides: None, ..x },
            rendering_view(x.rendering),
            ovs_view(c->Title_0.overrides),
        ),
        TemplateComponent::Number(x) => TCV::Number(
            TemplateNumber { rendering: empty_rendering(), overrides: None, ..x },
            rendering_view(x.rendering),
            ovs_view(c->Number_0.overrides),
        ),
        TemplateComponent::Variable(x) => TCV::Variable(
            TemplateVariable { rendering: empty_rendering(), overrides: None, ..x },
            rendering_view(x.rendering),
            ovs_view(c->Variable_0.overrides),
        ),
        TemplateComponent::List(x) => TCV::List(
            ListV {
                items: tcs_view(c->List_0.items@),
                delimiter: x.delimiter,
                rendering: rendering_view(x.rendering),
                overrides: ovs_view(c->List_0.overrides),
            },
        ),
        TemplateComponent::Term(x) => TCV::Term(
            TemplateTerm { rendering: empty_rendering(), overrides: None, ..x },
            rendering_view(x.rendering),
            ovs_view(c->Term_0.overrides),
        ),
    }
}

/// The contents of optional overrides.
pub open spec fn ovs_view(o: Option<Vec<(TypeSelector, ComponentOverride)>>) -> OverridesV
    decreases o, 3nat,
{
    match o {
        Some(v) => Some(ov_entries_view(o->Some_0@)),
        None => None,
    }
}

/// The contents of a sequence of override entries.
pub open spec fn ov_entries_view(s: Seq<(TypeSelector, ComponentOverride)>) -> Seq<(SelV, OverrideV)>
    decreases s, 2nat,
{
    if s.len() == 0 {
        Seq::empty()
    } else {
        ov_entries_view(s.drop_last()).push((selector_view(s.last().0), ov_view(s.last().1)))
    }
}

/// The contents of one override.
pub open spec fn ov_view(o: ComponentOverride) -> OverrideV
    decreases o, 1nat,
{
    match o {
        ComponentOverride::Component(b) => OverrideV::Component(Box::new(tc_view(*(o->Component_0)))),
        ComponentOverride::Rendering(r) => OverrideV::Rendering(rendering_view(r)),
    }
}

/// The contents of a sequence of components.
pub open spec fn tcs_view(s: Seq<TemplateComponent>) -> Seq<TCV>
    decreases s, 0nat,
{
    if s.len() == 0 {
        Seq::empty()
    } else {
        tcs_view(s.drop_last()).push(tc_view(s.last()))
    }
}

/// `tcs_view` keeps lengths and maps each element.
pub proof fn lemma_tcs_view(s: Seq<TemplateComponent>)
    ensures
        tcs_view(s).len() == s.len(),
        forall|i: int| 0 <= i < s.len() ==> #[trigger] tcs_view(s)[i] == tc_view(s[i]),
    decreases s.len(),
{
    if s.len() > 0 {
        lemma_tcs_view(s.drop_last());
        assert forall|i: int| 0 <= i < s.len() implies #[trigger] tcs_view(s)[i] == tc_view(s[i]) by {
            if i < s.len() - 1 {
                assert(s.drop_last()[i] == s[i]);
            }
        }
    }
}

/// `tcs_view` of a nonempty sequence: that of all but the last, then the last.
pub proof fn lemma_tcs_view_step(t: Seq<TemplateComponent>)
    requires
        t.len() > 0,
    ensures
        tcs_view(t).drop_last() == tcs_view(t.drop_last()),
        tcs_view(t).last() == tc_view(t.last()),
        tcs_view(t).len() > 0,
{
    assert(tcs_view(t).drop_last() =~= tcs_view(t.drop_last()));
}

/// `tcs_view` of a concatenation.
pub proof fn lemma_tcs_view_add(a: Seq<TemplateComponent>, b: Seq<TemplateComponent>)
    ensures
        tcs_view(a + b) == tcs_view(a) + tcs_view(b),
{
    lemma_tcs_view(a);
    lemma_tcs_view(b);
    lemma_tcs_view(a + b);
    assert(tcs_view(a + b) =~= tcs_view(a) + tcs_view(b));
}

/// `ov_entries_view` keeps lengths and maps each entry.
pub proof fn lemma_ov_entries_view(s: Seq<(TypeSelector, ComponentOverride)>)
    ensures
        ov_entries_view(s).len() == s.len(),
        forall|i: int|
            0 <= i < s.len() ==> #[trigger] ov_entries_view(s)[i] == (selector_view(s[i].0), ov_view(s[i].1)),
    decreases s.len(),
{
    if s.len() > 0 {
        lemma_ov_entries_view(s.drop_last());
        assert forall|i: int| 0 <= i < s.len() implies #[trigger] ov_entries_view(s)[i] == (
            selector_view(s[i].0),
            ov_view(s[i].1),
        ) by {
            if i < s.len() - 1 {
                assert(s.drop_last()[i] == s[i]);
            }
        }
    }
}

} // verus!
