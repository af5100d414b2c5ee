//! The passes a compiled bibliography template goes through, in order.

use vstd::prelude::*;
use crate::options::Config;
use crate::passes::deduplicate::{
    cross_items, dedup_all, deduplicate_nested_lists, deduplicate_titles_in_lists,
    deduplicate_variables_cross_lists, issue_pass_top, suppress_duplicate_issue_for_journals, DedupKind,
};
use crate::passes::grouping::{group_volume_and_issue, grouped, volume_issue_delimiter};
use crate::passes::reorder::{
    access_split, add_volume_prefix_after_serial, apa_chapters, chicago_chapters, move_access_components_to_end,
    pages_after_serial, propagate_list_overrides, propagated_top, publisher_place_after_serial,
    reorder_chapters_for_apa, reorder_chapters_for_chicago, reorder_pages_for_serials,
    reorder_publisher_place_for_chicago, reorder_serial_components, serial_reordered, unsuppress_for_type,
    unsuppressed, volume_prefixed,
};
use crate::passes::type_overrides::{override_vec, type_overridden_all};
use crate::preset_detector::StylePreset;
use crate::template::{DelimiterPunctuation, NumberVariable, TemplateComponent};
use crate::template_compiler::collect::tcv_rendering;
use crate::template_view::{lemma_tcs_view, tc_view, tcs_view, TCV};
use crate::text::str_eq;

verus! {

/// Whether a component is a volume number.
pub open spec fn is_volume(c: TCV) -> bool {
    c matches TCV::Number(n, _, _) && n.number == NumberVariable::Volume
}

/// Whether a list holds a volume among its own items.
pub open spec fn holds_volume(items: Seq<TCV>) -> bool {
    exists|j: int| 0 <= j < items.len() && is_volume(#[trigger] items[j])
}

/// Whether some list of `s` that holds a volume among its own items has a
/// single space as its prefix.
pub open spec fn space_volume_list(s: Seq<TCV>) -> bool {
    exists|i: int|
        0 <= i < s.len() && #[trigger] s[i] is List && holds_volume(s[i]->List_0.items) && tcv_rendering(s[i]).prefix
            == Some(" "@)
}

/// The passes for in-text author-date styles, in order: type-specific
/// overrides, access components moved to the end, publisher details shown
/// for chapters, conference papers, theses and documents, repeated titles
/// and variables and identical lists removed, list overrides propagated,
/// serial components reordered, volume and issue grouped, pages moved
/// after the serial, and the preset's own reorderings and issue fix.
pub open spec fn author_date_passes(
    s: Seq<TCV>,
    vpd: Option<DelimiterPunctuation>,
    preset: Option<StylePreset>,
) -> Seq<TCV> {
    let s2 = type_overridden_all(s, vpd, space_volume_list(s), preset);
    let s3 = access_split(s2, false) + access_split(s2, true);
    let s4 = unsuppressed(
        unsuppressed(unsuppressed(unsuppressed(s3, "chapter"@), "paper-conference"@), "thesis"@),
        "document"@,
    );
    let s5 = dedup_all(DedupKind::Titles, s4);
    let s6 = cross_items(s5, Seq::empty()).0;
    let s7 = Seq::new(s6.len(), |i: int| propagated_top(s6[i]));
    let s8 = dedup_all(DedupKind::Lists, s7);
    let s9 = Seq::new(s8.len(), |i: int| serial_reordered(s8[i]));
    let s10 = grouped(s9, volume_issue_delimiter(vpd), preset == Some(StylePreset::Apa));
    let s11 = pages_after_serial(s10);
    let s12 = if preset == Some(StylePreset::Chicago) {
        publisher_place_after_serial(s11)
    } else {
        s11
    };
    let s13 = if preset == Some(StylePreset::Apa) {
        apa_chapters(s12)
    } else {
        s12
    };
    let s14 = if preset == Some(StylePreset::Chicago) {
        chicago_chapters(s13)
    } else {
        s13
    };
    if preset == Some(StylePreset::Chicago) {
        issue_pass_top(s14)
    } else {
        s14
    }
}

/// The passes for a compiled bibliography template: in-text styles get a
/// space before a volume that follows the serial title; in-text
/// author-date styles then go through `author_date_passes`.
pub open spec fn bibliography_passes(
    s: Seq<TCV>,
    vpd: Option<DelimiterPunctuation>,
    in_text: bool,
    author_date: bool,
    preset: Option<StylePreset>,
) -> Seq<TCV> {
    let s1 = if in_text {
        volume_prefixed(s)
    } else {
        s
    };
    if in_text && author_date {
        author_date_passes(s1, vpd, preset)
    } else {
        s1
    }
}

/// Whether the components hold a list with a volume among its own items
/// and a single space as its prefix (`space_volume_list`).
pub fn volume_list_has_space_prefix(components: &Vec<TemplateComponent>) -> (r: bool)
    ensures
        r == space_volume_list(tcs_view(components@)),
{
    let ghost s = tcs_view(components@);
    proof {
        lemma_tcs_view(components@);
    }
    let mut i: usize = 0;
    while i < components.len()
        invariant
            i <= components@.len(),
            s == tcs_view(components@),
            s.len() == components@.len(),
            forall|k: int| 0 <= k < components@.len() ==> #[trigger] s[k] == tc_view(components@[k]),
            forall|k: int|
                0 <= k < i ==> !(#[trigger] s[k] is List && holds_volume(s[k]->List_0.items) && tcv_rendering(s[k]).prefix
                    == Some(" "@)),
        decreases components@.len() - i,
    {
        if let TemplateComponent::List(list) = &components[i] {
            let ghost items = tcs_view(list.items@);
            proof {
                lemma_tcs_view(list.items@);
                assert(s[i as int] == tc_view(components@[i as int]));
            }
            let mut has_volume = false;
            let mut j: usize = 0;
            while j < list.items.len()
                invariant
                    j <= list.items@.len(),
                    items == tcs_view(list.items@),
                    items.len() == list.items@.len(),
                    forall|k: int| 0 <= k < list.items@.len() ==> #[trigger] items[k] == tc_view(list.items@[k]),
                    has_volume == exists|k: int| 0 <= k < j && is_volume(#[trigger] items[k]),
                decreases list.items@.len() - j,
            {
                let hit = match &list.items[j] {
                    TemplateComponent::Number(n) => n.number == NumberVariable::Volume,
                    _ => false,
                };
                proof {
                    assert(items[j as int] == tc_view(list.items@[j as int]));
                }
                has_volume = has_volume || hit;
                j = j + 1;
            }
            if has_volume {
                let space = match &list.rendering.prefix {
                    Some(p) => str_eq(p.as_str(), " "),
                    None => false,
                };
                if space {
                    return true;
                }
            }
        }
        i = i + 1;
    }
    false
}

/// Runs the passes of `bibliography_passes` over a compiled bibliography
/// template, with the options' volume-pages delimiter.
pub fn apply_bibliography_passes(
    bib: &mut Vec<TemplateComponent>,
    options: &Config,
    in_text: bool,
    author_date: bool,
    preset: Option<StylePreset>,
)
    ensures
        tcs_view(final(bib)@) == bibliography_passes(
            tcs_view(old(bib)@),
            options.volume_pages_delimiter,
            in_text,
            author_date,
            preset,
        ),
{
    if in_text {
        add_volume_prefix_after_serial(bib);
    }
    if !(in_text && author_date) {
        return;
    }
    let ghost s1 = tcs_view(bib@);
    let space_prefix = volume_list_has_space_prefix(bib);
    let vpd = match &options.volume_pages_delimiter {
        Some(d) => Some(d.copy()),
        None => None,
    };
    proof {
        assert(vpd == options.volume_pages_delimiter);
    }
    let mut taken: Vec<TemplateComponent> = Vec::new();
    std::mem::swap(bib, &mut taken);
    *bib = override_vec(taken, &vpd, space_prefix, preset);
    let ghost s2 = tcs_view(bib@);
    assert(s2 == type_overridden_all(s1, vpd, space_volume_list(s1), preset));
    move_access_components_to_end(bib);
    let ghost s3 = tcs_view(bib@);
    assert(s3 == access_split(s2, false) + access_split(s2, true));
    unsuppress_for_type(bib, "chapter");
    unsuppress_for_type(bib, "paper-conference");
    unsuppress_for_type(bib, "thesis");
    unsuppress_for_type(bib, "document");
    let ghost s4 = tcs_view(bib@);
    assert(s4 == unsuppressed(
        unsuppressed(unsuppressed(unsuppressed(s3, "chapter"@), "paper-conference"@), "thesis"@),
        "document"@,
    ));
    deduplicate_titles_in_lists(bib);
    deduplicate_variables_cross_lists(bib);
    let ghost s6 = tcs_view(bib@);
    assert(s6 == cross_items(dedup_all(DedupKind::Titles, s4), Seq::empty()).0);
    proof {
        lemma_tcs_view(bib@);
    }
    propagate_list_overrides(bib);
    let ghost s7 = tcs_view(bib@);
    assert(s7 == Seq::new(s6.len(), |i: int| propagated_top(s6[i])));
    deduplicate_nested_lists(bib);
    let ghost s8 = tcs_view(bib@);
    proof {
        lemma_tcs_view(bib@);
    }
    reorder_serial_components(bib);
    let ghost s9 = tcs_view(bib@);
    assert(s9 == Seq::new(s8.len(), |i: int| serial_reordered(s8[i])));
    group_volume_and_issue(bib, options, preset);
    reorder_pages_for_serials(bib);
    let ghost s11 = tcs_view(bib@);
    reorder_publisher_place_for_chicago(bib, preset);
    let ghost s12 = tcs_view(bib@);
    assert(s12 == if preset == Some(StylePreset::Chicago) { publisher_place_after_serial(s11) } else { s11 });
    reorder_chapters_for_apa(bib, preset);
    let ghost s13 = tcs_view(bib@);
    assert(s13 == if preset == Some(StylePreset::Apa) { apa_chapters(s12) } else { s12 });
    reorder_chapters_for_chicago(bib, preset);
    let ghost s14 = tcs_view(bib@);
    assert(s14 == if preset == Some(StylePreset::Chicago) { chicago_chapters(s13) } else { s13 });
    suppress_duplicate_issue_for_journals(bib, preset);
    proof {
        assert(tcs_view(bib@) == author_date_passes(s1, options.volume_pages_delimiter, preset));
    }
}

} // verus!
