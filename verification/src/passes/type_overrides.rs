//! Type-specific overrides of author-date bibliographies: how titles,
//! publishers and pages render for journal articles, conference papers and
//! chapters.

use vstd::prelude::*;
use crate::passes::common::{add_override, is_number, is_title, is_variable, single, single_selector, with_override};
use crate::passes::reorder::affix_override;
use crate::preset_detector::StylePreset;
use crate::template::{
    ComponentOverride, DelimiterPunctuation, NumberVariable, Rendering, SimpleVariable, TemplateComponent,
    TemplateList, TitleType,
};
use crate::template_view::{lemma_tcs_view_step, no_rendering, rendering_view, tc_view, tcs_view, ListV, OverrideV, RenderingV, TCV};
use crate::text::to_owned_string;

verus! {

/// A rendering override with the given suffix and `suppress` setting.
pub open spec fn suffix_suppress(suffix: Option<Seq<char>>, suppress: Option<bool>) -> OverrideV {
    OverrideV::Rendering(RenderingV { suffix, suppress, ..no_rendering() })
}

/// The page prefix for journal articles given the volume-pages delimiter.
pub open spec fn pages_prefix(d: DelimiterPunctuation) -> Seq<char> {
    match d {
        DelimiterPunctuation::Comma => ", "@,
        DelimiterPunctuation::Colon => ":"@,
        DelimiterPunctuation::Space => " "@,
        _ => ""@,
    }
}

/// The suffix of the parent-serial title for journal articles: none when
/// the volume list has a space prefix (Elsevier), a space for Chicago, a
/// comma otherwise (APA).
pub open spec fn serial_suffix(space_prefix: bool, chicago: bool) -> Option<Seq<char>> {
    if space_prefix {
        None
    } else if chicago {
        Some(" "@)
    } else {
        Some(","@)
    }
}

/// The type-specific overrides of one component:
/// - APA primary title: ". " after it for journal articles;
/// - APA parent-monograph title: suppressed for conference papers;
/// - parent-serial title: shown for journal articles (with the style's
///   suffix) and for conference papers (with a comma);
/// - publisher and publisher place: suppressed for journal articles;
/// - pages: prefixed by the volume-pages delimiter for journal articles;
/// - lists: each item in turn.
pub open spec fn type_overridden(
    c: TCV,
    d: Option<DelimiterPunctuation>,
    space_prefix: bool,
    preset: Option<StylePreset>,
) -> TCV
    decreases c, 1nat,
{
    match c {
        TCV::List(l) => TCV::List(ListV { items: type_overridden_all(c->List_0.items, d, space_prefix, preset), ..l }),
        _ => if is_title(c, TitleType::Primary) {
            if preset == Some(StylePreset::Apa) {
                with_override(c, single("article-journal"@), suffix_suppress(Some(". "@), None))
            } else {
                c
            }
        } else if is_title(c, TitleType::ParentMonograph) {
            if preset == Some(StylePreset::Apa) {
                with_override(c, single("paper-conference"@), suffix_suppress(None, Some(true)))
            } else {
                c
            }
        } else if is_title(c, TitleType::ParentSerial) {
            with_override(
                with_override(
                    c,
                    single("article-journal"@),
                    suffix_suppress(serial_suffix(space_prefix, preset == Some(StylePreset::Chicago)), Some(false)),
                ),
                single("paper-conference"@),
                suffix_suppress(Some(","@), Some(false)),
            )
        } else if is_variable(c, SimpleVariable::Publisher) || is_variable(c, SimpleVariable::PublisherPlace) {
            with_override(c, single("article-journal"@), suffix_suppress(None, Some(true)))
        } else if is_number(c, NumberVariable::Pages) && d is Some {
            with_override(c, single("article-journal"@), affix_override(Some(pages_prefix(d.unwrap())), None))
        } else {
            c
        },
    }
}

/// `type_overridden` applied to each component of `s`.
pub open spec fn type_overridden_all(
    s: Seq<TCV>,
    d: Option<DelimiterPunctuation>,
    space_prefix: bool,
    preset: Option<StylePreset>,
) -> Seq<TCV>
    decreases s, 0nat,
{
    if s.len() == 0 {
        Seq::empty()
    } else {
        type_overridden_all(s.drop_last(), d, space_prefix, preset).push(
            type_overridden(s.last(), d, space_prefix, preset),
        )
    }
}

fn suffix_suppress_rendering(suffix: Option<&str>, suppress: Option<bool>) -> (r: Rendering)
    ensures
        OverrideV::Rendering(rendering_view(r)) == suffix_suppress(
            match suffix { Some(s) => Some(s@), None => None },
            suppress,
        ),
{
    Rendering {
        emph: None,
        quote: None,
        strong: None,
        small_caps: None,
        prefix: None,
        suffix: match suffix {
            Some(s) => Some(to_owned_string(s)),
            None => None,
        },
        inner_prefix: None,
        inner_suffix: None,
        wrap: None,
        suppress,
        initialize_with: None,
        strip_periods: None,
    }
}

fn prefix_rendering(prefix: &str) -> (r: Rendering)
    ensures
        OverrideV::Rendering(rendering_view(r)) == affix_override(Some(prefix@), None),
{
    Rendering {
        emph: None,
        quote: None,
        strong: None,
        small_caps: None,
        prefix: Some(to_owned_string(prefix)),
        suffix: None,
        inner_prefix: None,
        inner_suffix: None,
        wrap: None,
        suppress: None,
        initialize_with: None,
        strip_periods: None,
    }
}

fn pages_prefix_text(d: &DelimiterPunctuation) -> (r: &'static str)
    ensures
        r@ == pages_prefix(*d),
{
    match d {
        DelimiterPunctuation::Comma => ", ",
        DelimiterPunctuation::Colon => ":",
        DelimiterPunctuation::Space => " ",
        _ => "",
    }
}

fn override_leaf(c: &mut TemplateComponent, d: &Option<DelimiterPunctuation>, space_prefix: bool, preset: Option<StylePreset>)
    requires
        !(tc_view(*old(c)) is List),
    ensures
        tc_view(*final(c)) == type_overridden(tc_view(*old(c)), *d, space_prefix, preset),
{
    let apa = match preset {
        Some(StylePreset::Apa) => true,
        _ => false,
    };
    let chicago = match preset {
        Some(StylePreset::Chicago) => true,
        _ => false,
    };
    let (title, var, pages) = match &*c {
        TemplateComponent::Title(t) => (Some(t.title), None, false),
        TemplateComponent::Variable(v) => (None, Some(v.variable), false),
        TemplateComponent::Number(n) => (None, None, n.number == NumberVariable::Pages),
        _ => (None, None, false),
    };
    if title == Some(TitleType::Primary) {
        if apa {
            add_override(
                c,
                single_selector("article-journal"),
                ComponentOverride::Rendering(suffix_suppress_rendering(Some(". "), None)),
            );
        }
    } else if title == Some(TitleType::ParentMonograph) {
        if apa {
            add_override(
                c,
                single_selector("paper-conference"),
                ComponentOverride::Rendering(suffix_suppress_rendering(None, Some(true))),
            );
        }
    } else if title == Some(TitleType::ParentSerial) {
        let suffix = if space_prefix {
            None
        } else if chicago {
            Some(" ")
        } else {
            Some(",")
        };
        add_override(
            c,
            single_selector("article-journal"),
            ComponentOverride::Rendering(suffix_suppress_rendering(suffix, Some(false))),
        );
        add_override(
            c,
            single_selector("paper-conference"),
            ComponentOverride::Rendering(suffix_suppress_rendering(Some(","), Some(false))),
        );
    } else if var == Some(SimpleVariable::Publisher) || var == Some(SimpleVariable::PublisherPlace) {
        add_override(
            c,
            single_selector("article-journal"),
            ComponentOverride::Rendering(suffix_suppress_rendering(None, Some(true))),
        );
    } else if pages {
        match d {
            Some(delim) => {
                add_override(
                    c,
                    single_selector("article-journal"),
                    ComponentOverride::Rendering(prefix_rendering(pages_prefix_text(delim))),
                );
            },
            None => {},
        }
    }
}

pub(crate) fn override_vec(v: Vec<TemplateComponent>, d: &Option<DelimiterPunctuation>, space_prefix: bool, preset: Option<StylePreset>) -> (r: Vec<TemplateComponent>)
    ensures
        tcs_view(r@) == type_overridden_all(tcs_view(v@), *d, space_prefix, preset),
    decreases v@, 0nat,
{
    let ghost s = v@;
    let mut v = v;
    match v.pop() {
        None => {
            assert(s =~= Seq::<TemplateComponent>::empty());
            Vec::new()
        },
        Some(last) => {
            proof {
                assert(v@ =~= s.subrange(0, s.len() - 1));
                assert(decreases_to!(s => v@));
                assert(decreases_to!(s => s[s.len() - 1]));
                lemma_tcs_view_step(s);
                assert(s.drop_last() =~= v@);
            }
            let mut out = override_vec(v, d, space_prefix, preset);
            let mut c = last;
            override_component(&mut c, d, space_prefix, preset);
            let ghost before = out@;
            out.push(c);
            proof {
                assert(out@.drop_last() =~= before);
                lemma_tcs_view_step(out@);
            }
            out
        },
    }
}

fn override_component(c: &mut TemplateComponent, d: &Option<DelimiterPunctuation>, space_prefix: bool, preset: Option<StylePreset>)
    ensures
        tc_view(*final(c)) == type_overridden(tc_view(*old(c)), *d, space_prefix, preset),
    decreases *old(c), 1nat,
{
    match c {
        TemplateComponent::List(l) => {
            let mut items: Vec<TemplateComponent> = Vec::new();
            std::mem::swap(&mut l.items, &mut items);
            proof {
                assert(decreases_to!(*old(c) => old(c)->List_0));
                assert(decreases_to!(old(c)->List_0 => old(c)->List_0.items));
                assert(decreases_to!(old(c)->List_0.items => old(c)->List_0.items@));
            }
            l.items = override_vec(items, d, space_prefix, preset);
        },
        _ => {
            override_leaf(c, d, space_prefix, preset);
        },
    }
}

/// Adds the type-specific overrides of author-date bibliographies to a
/// component and, in a list, to each item (as `type_overridden` says).
pub fn apply_type_overrides(
    component: &mut TemplateComponent,
    volume_pages_delimiter: Option<DelimiterPunctuation>,
    volume_list_has_space_prefix: bool,
    style_preset: Option<StylePreset>,
)
    ensures
        tc_view(*final(component)) == type_overridden(
            tc_view(*old(component)),
            volume_pages_delimiter,
            volume_list_has_space_prefix,
            style_preset,
        ),
{
    override_component(component, &volume_pages_delimiter, volume_list_has_space_prefix, style_preset);
}

} // verus!
