//! The decisions a migration takes once templates have been resolved:
//! which inferred citation templates to reject, when to shorten their
//! contributors, which type templates to keep beside an inferred
//! bibliography, and when inferred bibliography punctuation wins.

use vstd::prelude::*;
use crate::options::{BibliographyConfig, Config};
use crate::template::{TemplateComponent, TypeSelector};
use crate::template_checks::{
    all_shortened, any_long_contributor, author_year_only, citation_template_is_author_year_only, contributor_only,
    items_have, normalize_contributor_form_to_short, note_citation_template_is_underfit, should_merge,
    should_merge_inferred_type_template, template_has, LeafTest,
};
use crate::template_view::{selector_view, tcs_view, SelV, TCV};
use crate::text::opt_view;

verus! {

/// Why an inferred citation template is rejected.
#[derive(Debug, Clone, Copy, PartialEq, Eq, Structural)]
pub enum CitationRejection {
    /// The template is empty.
    Empty,
    /// A numeric style's template has no citation number.
    MissingCitationNumber,
    /// A note style's template is one contributor and nothing else.
    NoteUnderfit,
}

/// The text of a rejection reason.
pub open spec fn rejection_text(r: CitationRejection) -> Seq<char> {
    match r {
        CitationRejection::Empty => "empty citation template"@,
        CitationRejection::MissingCitationNumber => "numeric style citation template missing citation-number"@,
        CitationRejection::NoteUnderfit => "note style citation template is contributor-only underfit"@,
    }
}

impl CitationRejection {
    /// The reason as text (`rejection_text`).
    pub fn reason(&self) -> (r: &'static str)
        ensures
            r@ == rejection_text(*self),
    {
        match self {
            CitationRejection::Empty => "empty citation template",
            CitationRejection::MissingCitationNumber => "numeric style citation template missing citation-number",
            CitationRejection::NoteUnderfit => "note style citation template is contributor-only underfit",
        }
    }
}

/// Why an inferred citation template `s` is rejected, if it is: an empty
/// one always; then, in a numeric style, one without a citation number;
/// then, in a note style, one that is a single contributor only. A
/// template that was not inferred is never rejected.
pub open spec fn citation_rejection(s: Seq<TCV>, inferred: bool, numeric: bool, note_class: bool) -> Option<
    CitationRejection,
> {
    if !inferred {
        None
    } else if s.len() == 0 {
        Some(CitationRejection::Empty)
    } else if numeric && !items_have(s, LeafTest::CitationNumber) {
        Some(CitationRejection::MissingCitationNumber)
    } else if note_class && s.len() == 1 && contributor_only(s[0]) {
        Some(CitationRejection::NoteUnderfit)
    } else {
        None
    }
}

/// Why an inferred citation template is rejected, if it is
/// (`citation_rejection`).
pub fn inferred_citation_rejection(
    template: &Vec<TemplateComponent>,
    inferred: bool,
    numeric: bool,
    note_class: bool,
) -> (r: Option<CitationRejection>)
    ensures
        r == citation_rejection(tcs_view(template@), inferred, numeric, note_class),
{
    proof {
        crate::template_view::lemma_tcs_view(template@);
    }
    if !inferred {
        None
    } else if template.len() == 0 {
        Some(CitationRejection::Empty)
    } else if numeric && !template_has(template, LeafTest::CitationNumber) {
        Some(CitationRejection::MissingCitationNumber)
    } else if note_class && note_citation_template_is_underfit(template) {
        Some(CitationRejection::NoteUnderfit)
    } else {
        None
    }
}

/// Shortens the contributors of an inferred citation template that is a
/// plain author-year one, in a note style or an author-date one. Returns
/// whether a contributor was shortened; other templates are left as they
/// are.
pub fn normalize_inferred_citation(
    template: &mut Vec<TemplateComponent>,
    inferred: bool,
    note_class: bool,
    author_date: bool,
) -> (r: bool)
    ensures
        ({
            let s = tcs_view(old(template)@);
            let applies = (note_class || author_date) && inferred && author_year_only(s);
            &&& applies ==> tcs_view(final(template)@) == all_shortened(s) && r == any_long_contributor(s)
            &&& !applies ==> final(template)@ == old(template)@ && !r
        }),
{
    if (note_class || author_date) && inferred && citation_template_is_author_year_only(template) {
        normalize_contributor_form_to_short(template)
    } else {
        false
    }
}

/// The type names of a selector, in order.
pub open spec fn selector_names(s: SelV) -> Seq<Seq<char>> {
    match s {
        SelV::Single(n) => seq![n],
        SelV::Multiple(ns) => ns,
    }
}

/// The type names a selector stands for.
pub fn type_names(selector: &TypeSelector) -> (r: Vec<String>)
    ensures
        r@.map_values(|x: String| x@) == selector_names(selector_view(*selector)),
{
    match selector {
        TypeSelector::Single(name) => {
            let r = vec![name.clone()];
            proof {
                assert(r@.map_values(|x: String| x@) =~= seq![name@]);
            }
            r
        },
        TypeSelector::Multiple(names) => {
            let mut r: Vec<String> = Vec::new();
            let mut i: usize = 0;
            while i < names.len()
                invariant
                    i <= names@.len(),
                    r@.len() == i,
                    forall|k: int| 0 <= k < i ==> #[trigger] r@[k]@ == names@[k]@,
                decreases names@.len() - i,
            {
                r.push(names[i].clone());
                i = i + 1;
            }
            proof {
                assert(r@.map_values(|x: String| x@) =~= names@.map_values(|x: String| x@));
            }
            r
        },
    }
}

/// Whether a type template is worth keeping beside an inferred
/// bibliography: one of its type names passes `should_merge`.
pub open spec fn keeps_type_template(
    names: Seq<Seq<char>>,
    inferred: Seq<TemplateComponent>,
    candidate: Seq<TemplateComponent>,
) -> bool {
    exists|i: int| 0 <= i < names.len() && #[trigger] should_merge(names[i], inferred, candidate)
}

fn any_name_merges(names: &Vec<String>, inferred: &Vec<TemplateComponent>, candidate: &Vec<TemplateComponent>) -> (r: bool)
    ensures
        r == keeps_type_template(names@.map_values(|x: String| x@), inferred@, candidate@),
{
    let ghost nv = names@.map_values(|x: String| x@);
    let mut i: usize = 0;
    while i < names.len()
        invariant
            i <= names@.len(),
            nv == names@.map_values(|x: String| x@),
            forall|k: int| 0 <= k < i ==> !should_merge(#[trigger] nv[k], inferred@, candidate@),
        decreases names@.len() - i,
    {
        if should_merge_inferred_type_template(names[i].as_str(), inferred, candidate) {
            proof {
                assert(should_merge(nv[i as int], inferred@, candidate@));
            }
            return true;
        }
        i = i + 1;
    }
    false
}

/// The entries of `candidates` whose template is worth keeping, in order.
pub open spec fn kept_type_templates(
    candidates: Seq<(TypeSelector, Vec<TemplateComponent>)>,
    inferred: Seq<TemplateComponent>,
) -> Seq<(TypeSelector, Vec<TemplateComponent>)>
    decreases candidates.len(),
{
    if candidates.len() == 0 {
        Seq::empty()
    } else {
        let rest = kept_type_templates(candidates.drop_last(), inferred);
        let e = candidates.last();
        if keeps_type_template(selector_names(selector_view(e.0)), inferred, e.1@) {
            rest.push(e)
        } else {
            rest
        }
    }
}

/// The type templates to keep beside an inferred bibliography: those
/// `kept_type_templates` keeps, in order; none when it keeps none.
pub fn select_inferred_type_templates(
    candidates: Vec<(TypeSelector, Vec<TemplateComponent>)>,
    inferred: &Vec<TemplateComponent>,
) -> (r: Option<Vec<(TypeSelector, Vec<TemplateComponent>)>>)
    ensures
        ({
            let k = kept_type_templates(candidates@, inferred@);
            &&& k.len() == 0 ==> r is None
            &&& k.len() > 0 ==> r is Some && r.unwrap()@ == k
        }),
{
    let ghost all = candidates@;
    let n = candidates.len();
    let mut rest = candidates;
    let mut out: Vec<(TypeSelector, Vec<TemplateComponent>)> = Vec::new();
    let mut taken: usize = 0;
    proof {
        assert(all.subrange(0, 0) =~= Seq::<(TypeSelector, Vec<TemplateComponent>)>::empty());
        assert(rest@ =~= all.subrange(0, all.len() as int));
    }
    while rest.len() > 0
        invariant
            all.len() == n,
            taken + rest@.len() == all.len(),
            rest@ == all.subrange(taken as int, all.len() as int),
            out@ == kept_type_templates(all.subrange(0, taken as int), inferred@),
        decreases rest@.len(),
    {
        let e = rest.remove(0);
        proof {
            assert(e == all[taken as int]);
            let u = all.subrange(0, taken + 1);
            assert(u.drop_last() =~= all.subrange(0, taken as int));
            assert(u.last() == e);
            assert(rest@ =~= all.subrange(taken + 1, all.len() as int));
        }
        let names = type_names(&e.0);
        if any_name_merges(&names, inferred, &e.1) {
            out.push(e);
        }
        taken = taken + 1;
    }
    proof {
        assert(all.subrange(0, taken as int) =~= all);
    }
    if out.len() == 0 {
        None
    } else {
        Some(out)
    }
}

/// The bibliography options after inferred punctuation: unless the style
/// is a note style with an inferred bibliography, a given separator and
/// entry suffix replace those of the bibliography options (created unset
/// when absent); otherwise nothing changes.
pub open spec fn punctuation_overridden(
    b: Option<BibliographyConfig>,
    separator: Option<Seq<char>>,
    entry_suffix: Option<Seq<char>>,
    note_class: bool,
    inferred: bool,
    after: Option<BibliographyConfig>,
) -> bool {
    if (note_class && inferred) || (separator is None && entry_suffix is None) {
        after == b
    } else {
        let base = match b {
            Some(x) => x,
            None => BibliographyConfig {
                subsequent_author_substitute: None,
                subsequent_author_substitute_rule: None,
                hanging_indent: None,
                entry_suffix: None,
                separator: None,
                suppress_period_after_url: false,
                custom: None,
            },
        };
        &&& after is Some
        &&& BibliographyConfig { separator: None, entry_suffix: None, ..after.unwrap() } == BibliographyConfig {
            separator: None,
            entry_suffix: None,
            ..base
        }
        &&& opt_view(after.unwrap().separator) == if separator is Some {
            separator
        } else {
            opt_view(base.separator)
        }
        &&& opt_view(after.unwrap().entry_suffix) == if entry_suffix is Some {
            entry_suffix
        } else {
            opt_view(base.entry_suffix)
        }
    }
}

/// Lets inferred bibliography punctuation override the extracted options
/// (`punctuation_overridden`); returns whether overriding was allowed.
pub fn override_bibliography_punctuation(
    options: &mut Config,
    separator: &Option<String>,
    entry_suffix: &Option<String>,
    note_class: bool,
    inferred: bool,
) -> (r: bool)
    ensures
        r == !(note_class && inferred),
        punctuation_overridden(
            old(options).bibliography,
            opt_view(*separator),
            opt_view(*entry_suffix),
            note_class,
            inferred,
            final(options).bibliography,
        ),
        (Config { bibliography: None, ..*final(options) }) == (Config { bibliography: None, ..*old(options) }),
{
    if note_class && inferred {
        return false;
    }
    if separator.is_none() && entry_suffix.is_none() {
        return true;
    }
    let mut b = match options.bibliography.take() {
        Some(x) => x,
        None => BibliographyConfig {
            subsequent_author_substitute: None,
            subsequent_author_substitute_rule: None,
            hanging_indent: None,
            entry_suffix: None,
            separator: None,
            suppress_period_after_url: false,
            custom: None,
        },
    };
    if let Some(d) = separator {
        b.separator = Some(d.clone());
    }
    if let Some(s) = entry_suffix {
        b.entry_suffix = Some(s.clone());
    }
    options.bibliography = Some(b);
    true
}

} // verus!
