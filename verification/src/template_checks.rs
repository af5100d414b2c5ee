//! Checks and clean-ups of migrated templates: what a template holds, how a
//! citation template is shaped, and literal text left in affixes that
//! belongs to a sample reference.

use vstd::prelude::*;
use crate::options::Config;
use crate::passes::common::tcv_overrides;
use crate::preset_detector::{
    detect_contributor_preset, detect_date_preset, detect_title_preset, detected_contributor_preset, detected_date_preset,
    detected_title_preset,
};
use crate::presets::{contributor_preset_holds, title_preset_holds, date_preset_config_spec};
use crate::locale::types::GeneralTerm;
use crate::template::{
    component_overrides, selector_entry_matches, selector_matches, ComponentOverride, ContributorForm, DateVariable, NumberVariable, Rendering, SimpleVariable,
    TemplateComponent, TemplateContributor, TemplateDate, TemplateList, TemplateNumber, TemplateTerm, TemplateTitle,
    TemplateVariable, TitleType, TypeSelector, WrapPunctuation,
};
use crate::template_compiler::copy::copy_component;
use crate::template_view::{
    lemma_ov_entries_view, lemma_tcs_view, lemma_tcs_view_step, ov_entries_view, selector_view, ov_view, ovs_view, rendering_view, tc_view, tcs_view, ListV, OverrideV, OverridesV,
    RenderingV, SelV, TCV,
};
use crate::text::{ascii_lower_seq, contains_seq, contains_str, opt_view, str_eq, to_ascii_lowercase, to_owned_string, trim, trim_spec};

verus! {

/// What a template check looks for in a leaf component.
#[derive(Clone, Copy, PartialEq, Eq, Debug, Structural)]
pub enum LeafTest {
    Locator,
    CitationNumber,
    ParentTitle,
    AccessedDate,
    PrimaryTitle,
    ParentSerial,
    Publisher,
    Volume,
}

/// Whether a component that is not a list passes a test.
pub open spec fn leaf_passes(c: TCV, t: LeafTest) -> bool {
    match t {
        LeafTest::Locator => c matches TCV::Variable(v, _, _) && v.variable == SimpleVariable::Locator,
        LeafTest::CitationNumber => c matches TCV::Number(n, _, _) && n.number == NumberVariable::CitationNumber,
        LeafTest::ParentTitle => c matches TCV::Title(x, _, _) && (x.title == TitleType::ParentMonograph
            || x.title == TitleType::ParentSerial),
        LeafTest::AccessedDate => c matches TCV::Date(d, _, _, _) && d.date == DateVariable::Accessed,
        LeafTest::PrimaryTitle => c matches TCV::Title(x, _, _) && x.title == TitleType::Primary,
        LeafTest::ParentSerial => c matches TCV::Title(x, _, _) && x.title == TitleType::ParentSerial,
        LeafTest::Publisher => c matches TCV::Variable(v, _, _) && v.variable == SimpleVariable::Publisher,
        LeafTest::Volume => c matches TCV::Number(n, _, _) && n.number == NumberVariable::Volume,
    }
}

/// Whether a component, or one nested in it, passes a test.
pub open spec fn tree_has(c: TCV, t: LeafTest) -> bool
    decreases c, 1nat,
{
    match c {
        TCV::List(_) => items_have(c->List_0.items, t),
        _ => leaf_passes(c, t),
    }
}

/// Whether one of `s`, or one nested in them, passes a test.
pub open spec fn items_have(s: Seq<TCV>, t: LeafTest) -> bool
    decreases s, 0nat,
{
    s.len() > 0 && (items_have(s.drop_last(), t) || tree_has(s.last(), t))
}

fn leaf_check(c: &TemplateComponent, t: LeafTest) -> (r: bool)
    ensures
        !(c is List) ==> r == leaf_passes(tc_view(*c), t),
{
    match (c, t) {
        (TemplateComponent::Variable(v), LeafTest::Locator) => v.variable == SimpleVariable::Locator,
        (TemplateComponent::Number(n), LeafTest::CitationNumber) => n.number == NumberVariable::CitationNumber,
        (TemplateComponent::Title(x), LeafTest::ParentTitle) => x.title == TitleType::ParentMonograph || x.title
            == TitleType::ParentSerial,
        (TemplateComponent::Date(d), LeafTest::AccessedDate) => d.date == DateVariable::Accessed,
        (TemplateComponent::Title(x), LeafTest::PrimaryTitle) => x.title == TitleType::Primary,
        (TemplateComponent::Title(x), LeafTest::ParentSerial) => x.title == TitleType::ParentSerial,
        (TemplateComponent::Variable(v), LeafTest::Publisher) => v.variable == SimpleVariable::Publisher,
        (TemplateComponent::Number(n), LeafTest::Volume) => n.number == NumberVariable::Volume,
        _ => false,
    }
}

/// Whether a component, or one nested in it, passes a test (`tree_has`).
pub fn component_has(c: &TemplateComponent, t: LeafTest) -> (r: bool)
    ensures
        r == tree_has(tc_view(*c), t),
    decreases c, 1nat,
{
    match c {
        TemplateComponent::List(l) => {
            proof {
                assert(decreases_to!(c => l));
                assert(decreases_to!(l => l.items));
            }
            template_has(&l.items, t)
        },
        _ => leaf_check(c, t),
    }
}

/// Whether one of `template`, or one nested in it, passes a test
/// (`items_have`).
pub fn template_has(template: &Vec<TemplateComponent>, t: LeafTest) -> (r: bool)
    ensures
        r == items_have(tcs_view(template@), t),
    decreases template, 0nat,
{
    let ghost s = tcs_view(template@);
    proof {
        lemma_tcs_view(template@);
        assert(s.subrange(0, 0) =~= Seq::<TCV>::empty());
    }
    let mut i: usize = 0;
    while i < template.len()
        invariant
            i <= template@.len(),
            s == tcs_view(template@),
            s.len() == template@.len(),
            forall|k: int| 0 <= k < template@.len() ==> #[trigger] s[k] == tc_view(template@[k]),
            !items_have(s.subrange(0, i as int), t),
        decreases template@.len() - i,
    {
        proof {
            assert(decreases_to!(template => template@));
            assert(decreases_to!(template@ => template@[i as int]));
            let u = s.subrange(0, i + 1);
            assert(u.drop_last() =~= s.subrange(0, i as int));
            assert(u.last() == s[i as int]);
        }
        if component_has(&template[i], t) {
            proof {
                lemma_items_have_prefix(s, i + 1);
            }
            return true;
        }
        i = i + 1;
    }
    proof {
        assert(s.subrange(0, template@.len() as int) =~= s);
    }
    false
}

proof fn lemma_items_have_prefix(s: Seq<TCV>, k: int)
    requires
        0 <= k <= s.len(),
    ensures
        forall|t: LeafTest| items_have(s.subrange(0, k), t) ==> items_have(s, t),
    decreases s.len() - k,
{
    if k < s.len() {
        lemma_items_have_prefix(s, k + 1);
        assert forall|t: LeafTest| items_have(s.subrange(0, k), t) implies items_have(s, t) by {
            let u = s.subrange(0, k + 1);
            assert(u.drop_last() =~= s.subrange(0, k));
        }
    } else {
        assert(s.subrange(0, k) =~= s);
    }
}

/// Whether a component holds a locator variable, directly or nested.
pub fn component_has_locator(c: &TemplateComponent) -> (r: bool)
    ensures
        r == tree_has(tc_view(*c), LeafTest::Locator),
{
    component_has(c, LeafTest::Locator)
}

/// Whether a component holds the citation number, directly or nested.
pub fn component_has_citation_number(c: &TemplateComponent) -> (r: bool)
    ensures
        r == tree_has(tc_view(*c), LeafTest::CitationNumber),
{
    component_has(c, LeafTest::CitationNumber)
}

/// Whether a component holds a parent (monograph or serial) title.
pub fn component_has_parent_title(c: &TemplateComponent) -> (r: bool)
    ensures
        r == tree_has(tc_view(*c), LeafTest::ParentTitle),
{
    component_has(c, LeafTest::ParentTitle)
}

/// Whether a component holds the accessed date, directly or nested.
pub fn component_has_accessed_date(c: &TemplateComponent) -> (r: bool)
    ensures
        r == tree_has(tc_view(*c), LeafTest::AccessedDate),
{
    component_has(c, LeafTest::AccessedDate)
}

/// Whether a component holds the primary title, directly or nested.
pub fn component_has_primary_title(c: &TemplateComponent) -> (r: bool)
    ensures
        r == tree_has(tc_view(*c), LeafTest::PrimaryTitle),
{
    component_has(c, LeafTest::PrimaryTitle)
}

/// Whether a component holds the parent serial title, directly or nested.
pub fn component_has_parent_serial(c: &TemplateComponent) -> (r: bool)
    ensures
        r == tree_has(tc_view(*c), LeafTest::ParentSerial),
{
    component_has(c, LeafTest::ParentSerial)
}

/// Whether a component holds the publisher, directly or nested.
pub fn component_has_publisher(c: &TemplateComponent) -> (r: bool)
    ensures
        r == tree_has(tc_view(*c), LeafTest::Publisher),
{
    component_has(c, LeafTest::Publisher)
}

/// Whether a component holds the volume, directly or nested.
pub fn component_has_volume(c: &TemplateComponent) -> (r: bool)
    ensures
        r == tree_has(tc_view(*c), LeafTest::Volume),
{
    component_has(c, LeafTest::Volume)
}

/// Whether a candidate template differs in structure from the inferred one:
/// it drops the primary title or the publisher, or adds the parent serial
/// or the volume.
pub open spec fn structurally_diverges(inferred: Seq<TCV>, candidate: Seq<TCV>) -> bool {
    (items_have(inferred, LeafTest::PrimaryTitle) && !items_have(candidate, LeafTest::PrimaryTitle))
        || (!items_have(inferred, LeafTest::ParentSerial) && items_have(candidate, LeafTest::ParentSerial))
        || (items_have(inferred, LeafTest::Publisher) && !items_have(candidate, LeafTest::Publisher))
        || (!items_have(inferred, LeafTest::Volume) && items_have(candidate, LeafTest::Volume))
}

/// Whether a candidate template differs in structure from the inferred one
/// (`structurally_diverges`).
pub fn inferred_candidate_structurally_diverges(
    inferred_template: &Vec<TemplateComponent>,
    candidate_template: &Vec<TemplateComponent>,
) -> (r: bool)
    ensures
        r == structurally_diverges(tcs_view(inferred_template@), tcs_view(candidate_template@)),
{
    let inferred_has_primary_title = template_has(inferred_template, LeafTest::PrimaryTitle);
    let candidate_has_primary_title = template_has(candidate_template, LeafTest::PrimaryTitle);
    let inferred_has_parent_serial = template_has(inferred_template, LeafTest::ParentSerial);
    let candidate_has_parent_serial = template_has(candidate_template, LeafTest::ParentSerial);
    let inferred_has_publisher = template_has(inferred_template, LeafTest::Publisher);
    let candidate_has_publisher = template_has(candidate_template, LeafTest::Publisher);
    let inferred_has_volume = template_has(inferred_template, LeafTest::Volume);
    let candidate_has_volume = template_has(candidate_template, LeafTest::Volume);
    (inferred_has_primary_title && !candidate_has_primary_title) || (!inferred_has_parent_serial
        && candidate_has_parent_serial) || (inferred_has_publisher && !candidate_has_publisher) || (
    !inferred_has_volume && candidate_has_volume)
}

/// Whether a component is made of contributors only (a list of them
/// counts, an empty list too).
pub open spec fn contributor_only(c: TCV) -> bool
    decreases c, 1nat,
{
    match c {
        TCV::Contributor(..) => true,
        TCV::List(_) => all_contributor_only(c->List_0.items),
        _ => false,
    }
}

/// Whether every one of `s` is made of contributors only.
pub open spec fn all_contributor_only(s: Seq<TCV>) -> bool
    decreases s, 0nat,
{
    s.len() == 0 || (all_contributor_only(s.drop_last()) && contributor_only(s.last()))
}

/// Whether a component is made of contributors only (`contributor_only`).
pub fn component_is_contributor_only(c: &TemplateComponent) -> (r: bool)
    ensures
        r == contributor_only(tc_view(*c)),
    decreases c, 1nat,
{
    match c {
        TemplateComponent::Contributor(_) => true,
        TemplateComponent::List(l) => {
            proof {
                assert(decreases_to!(c => l));
                assert(decreases_to!(l => l.items));
            }
            all_items_contributor_only(&l.items)
        },
        _ => false,
    }
}

fn all_items_contributor_only(items: &Vec<TemplateComponent>) -> (r: bool)
    ensures
        r == all_contributor_only(tcs_view(items@)),
    decreases items, 0nat,
{
    let ghost s = tcs_view(items@);
    proof {
        lemma_tcs_view(items@);
        assert(s.subrange(0, 0) =~= Seq::<TCV>::empty());
    }
    let mut i: usize = 0;
    while i < items.len()
        invariant
            i <= items@.len(),
            s == tcs_view(items@),
            s.len() == items@.len(),
            forall|k: int| 0 <= k < items@.len() ==> #[trigger] s[k] == tc_view(items@[k]),
            all_contributor_only(s.subrange(0, i as int)),
        decreases items@.len() - i,
    {
        proof {
            assert(decreases_to!(items => items@));
            assert(decreases_to!(items@ => items@[i as int]));
            let u = s.subrange(0, i + 1);
            assert(u.drop_last() =~= s.subrange(0, i as int));
            assert(u.last() == s[i as int]);
        }
        if !component_is_contributor_only(&items[i]) {
            proof {
                lemma_all_contributor_only_prefix(s, i + 1);
            }
            return false;
        }
        i = i + 1;
    }
    proof {
        assert(s.subrange(0, items@.len() as int) =~= s);
    }
    true
}

proof fn lemma_all_contributor_only_prefix(s: Seq<TCV>, k: int)
    requires
        0 <= k <= s.len(),
    ensures
        all_contributor_only(s) ==> all_contributor_only(s.subrange(0, k)),
    decreases s.len() - k,
{
    if k < s.len() {
        lemma_all_contributor_only_prefix(s, k + 1);
        let u = s.subrange(0, k + 1);
        assert(u.drop_last() =~= s.subrange(0, k));
    } else {
        assert(s.subrange(0, k) =~= s);
    }
}

/// Whether a note citation template is underfit: a single component made
/// of contributors only.
pub fn note_citation_template_is_underfit(template: &Vec<TemplateComponent>) -> (r: bool)
    ensures
        r == (template@.len() == 1 && contributor_only(tc_view(template@[0]))),
{
    template.len() == 1 && component_is_contributor_only(&template[0])
}

/// A scan of the items of a list for an author-year citation: whether all
/// are contributors and dates, and whether a contributor and a date occur.
pub open spec fn scan_items(s: Seq<TCV>) -> (bool, bool, bool)
    decreases s.len(),
{
    if s.len() == 0 {
        (true, false, false)
    } else {
        let (ok, hc, hd) = scan_items(s.drop_last());
        match s.last() {
            TCV::Contributor(..) => (ok, true, hd),
            TCV::Date(..) => (ok, hc, true),
            _ => (false, hc, hd),
        }
    }
}

/// A scan of a template for an author-year citation: as `scan_items`, with
/// lists of contributors and dates allowed.
pub open spec fn scan_parts(s: Seq<TCV>) -> (bool, bool, bool)
    decreases s.len(),
{
    if s.len() == 0 {
        (true, false, false)
    } else {
        let (ok, hc, hd) = scan_parts(s.drop_last());
        match s.last() {
            TCV::Contributor(..) => (ok, true, hd),
            TCV::Date(..) => (ok, hc, true),
            TCV::List(l) => {
                let (ok2, hc2, hd2) = scan_items(l.items);
                (ok && ok2, hc || hc2, hd || hd2)
            },
            _ => (false, hc, hd),
        }
    }
}

/// Whether a citation template shows only author and year: each component
/// is a contributor, a date, or a list of contributors and dates, with at
/// least one contributor and one date among them.
pub open spec fn author_year_only(s: Seq<TCV>) -> bool {
    let (ok, hc, hd) = scan_parts(s);
    ok && hc && hd
}

proof fn lemma_scan_fails(s: Seq<TCV>, nested: bool, k: int)
    requires
        0 <= k <= s.len(),
        !(if nested { scan_items(s.subrange(0, k)) } else { scan_parts(s.subrange(0, k)) }).0,
    ensures
        !(if nested { scan_items(s) } else { scan_parts(s) }).0,
    decreases s.len() - k,
{
    if k < s.len() {
        let u = s.subrange(0, k + 1);
        assert(u.drop_last() =~= s.subrange(0, k));
        lemma_scan_fails(s, nested, k + 1);
    } else {
        assert(s.subrange(0, k) =~= s);
    }
}

fn scan_list(items: &Vec<TemplateComponent>) -> (r: (bool, bool, bool))
    ensures
        r.0 == scan_items(tcs_view(items@)).0,
        r.0 ==> r == scan_items(tcs_view(items@)),
{
    let ghost s = tcs_view(items@);
    proof {
        lemma_tcs_view(items@);
        assert(s.subrange(0, 0) =~= Seq::<TCV>::empty());
    }
    let mut hc = false;
    let mut hd = false;
    let mut i: usize = 0;
    while i < items.len()
        invariant
            i <= items@.len(),
            s == tcs_view(items@),
            s.len() == items@.len(),
            forall|k: int| 0 <= k < items@.len() ==> #[trigger] s[k] == tc_view(items@[k]),
            scan_items(s.subrange(0, i as int)) == (true, hc, hd),
        decreases items@.len() - i,
    {
        proof {
            let u = s.subrange(0, i + 1);
            assert(u.drop_last() =~= s.subrange(0, i as int));
            assert(u.last() == s[i as int]);
        }
        match &items[i] {
            TemplateComponent::Contributor(_) => {
                hc = true;
            },
            TemplateComponent::Date(_) => {
                hd = true;
            },
            _ => {
                proof {
                    lemma_scan_fails(s, true, i + 1);
                }
                return (false, false, false);
            },
        }
        i = i + 1;
    }
    proof {
        assert(s.subrange(0, items@.len() as int) =~= s);
    }
    (true, hc, hd)
}

/// Whether a citation template shows only author and year
/// (`author_year_only`).
pub fn citation_template_is_author_year_only(template: &Vec<TemplateComponent>) -> (r: bool)
    ensures
        r == author_year_only(tcs_view(template@)),
{
    let ghost s = tcs_view(template@);
    proof {
        lemma_tcs_view(template@);
        assert(s.subrange(0, 0) =~= Seq::<TCV>::empty());
    }
    let mut hc = false;
    let mut hd = false;
    let mut i: usize = 0;
    while i < template.len()
        invariant
            i <= template@.len(),
            s == tcs_view(template@),
            s.len() == template@.len(),
            forall|k: int| 0 <= k < template@.len() ==> #[trigger] s[k] == tc_view(template@[k]),
            scan_parts(s.subrange(0, i as int)) == (true, hc, hd),
        decreases template@.len() - i,
    {
        proof {
            let u = s.subrange(0, i + 1);
            assert(u.drop_last() =~= s.subrange(0, i as int));
            assert(u.last() == s[i as int]);
        }
        match &template[i] {
            TemplateComponent::Contributor(_) => {
                hc = true;
            },
            TemplateComponent::Date(_) => {
                hd = true;
            },
            TemplateComponent::List(l) => {
                let (ok, c, d) = scan_list(&l.items);
                if !ok {
                    proof {
                        lemma_scan_fails(s, false, i + 1);
                    }
                    return false;
                }
                hc = hc || c;
                hd = hd || d;
            },
            _ => {
                proof {
                    lemma_scan_fails(s, false, i + 1);
                }
                return false;
            },
        }
        i = i + 1;
    }
    proof {
        assert(s.subrange(0, template@.len() as int) =~= s);
    }
    hc && hd
}

/// A component with every long contributor made short, nested ones too.
pub open spec fn shortened(c: TCV) -> TCV
    decreases c, 1nat,
{
    match c {
        TCV::Contributor(x, r, o) => TCV::Contributor(
            if x.form == ContributorForm::Long {
                crate::template::TemplateContributor { form: ContributorForm::Short, ..x }
            } else {
                x
            },
            r,
            o,
        ),
        TCV::List(l) => TCV::List(ListV { items: all_shortened(c->List_0.items), ..l }),
        _ => c,
    }
}

/// Components each `shortened`.
pub open spec fn all_shortened(s: Seq<TCV>) -> Seq<TCV>
    decreases s, 0nat,
{
    if s.len() == 0 {
        Seq::empty()
    } else {
        all_shortened(s.drop_last()).push(shortened(s.last()))
    }
}

/// Whether a component holds a long contributor, directly or nested.
pub open spec fn has_long_contributor(c: TCV) -> bool
    decreases c, 1nat,
{
    match c {
        TCV::Contributor(x, _, _) => x.form == ContributorForm::Long,
        TCV::List(_) => any_long_contributor(c->List_0.items),
        _ => false,
    }
}

/// Whether one of `s` holds a long contributor.
pub open spec fn any_long_contributor(s: Seq<TCV>) -> bool
    decreases s, 0nat,
{
    s.len() > 0 && (any_long_contributor(s.drop_last()) || has_long_contributor(s.last()))
}

fn shorten_component(c: TemplateComponent) -> (r: (TemplateComponent, bool))
    ensures
        tc_view(r.0) == shortened(tc_view(c)),
        r.1 == has_long_contributor(tc_view(c)),
    decreases c, 1nat,
{
    match c {
        TemplateComponent::Contributor(x) => {
            let mut x = x;
            let long = x.form == ContributorForm::Long;
            if long {
                x.form = ContributorForm::Short;
            }
            (TemplateComponent::Contributor(x), long)
        },
        TemplateComponent::List(l) => {
            proof {
                assert(decreases_to!(c => l));
                assert(decreases_to!(l => l.items));
                assert(decreases_to!(l.items => l.items@));
            }
            let TemplateList { items, delimiter, rendering, overrides } = l;
            let (items, changed) = shorten_items(items);
            (TemplateComponent::List(TemplateList { items, delimiter, rendering, overrides }), changed)
        },
        other => (other, false),
    }
}

fn shorten_items(items: Vec<TemplateComponent>) -> (r: (Vec<TemplateComponent>, bool))
    ensures
        tcs_view(r.0@) == all_shortened(tcs_view(items@)),
        r.1 == any_long_contributor(tcs_view(items@)),
    decreases items@, 0nat,
{
    let ghost s = items@;
    let mut items = items;
    match items.pop() {
        None => {
            assert(s =~= Seq::<TemplateComponent>::empty());
            (Vec::new(), false)
        },
        Some(last) => {
            proof {
                assert(items@ =~= s.subrange(0, s.len() - 1));
                assert(decreases_to!(s => items@));
                assert(decreases_to!(s => s[s.len() - 1]));
            }
            let (mut out, changed) = shorten_items(items);
            let (c, ch) = shorten_component(last);
            let ghost before = out@;
            out.push(c);
            proof {
                assert(out@.drop_last() =~= before);
                assert(s.drop_last() =~= items@);
                lemma_tcs_view(s);
                assert(tcs_view(s).drop_last() =~= tcs_view(s.drop_last())) by {
                    lemma_tcs_view(s.drop_last());
                }
            }
            (out, changed || ch)
        },
    }
}

/// Makes every long contributor of `template` short, nested ones too, and
/// says whether there was one.
pub fn normalize_contributor_form_to_short(template: &mut Vec<TemplateComponent>) -> (r: bool)
    ensures
        tcs_view(final(template)@) == all_shortened(tcs_view(old(template)@)),
        r == any_long_contributor(tcs_view(old(template)@)),
{
    let mut taken: Vec<TemplateComponent> = Vec::new();
    std::mem::swap(template, &mut taken);
    let (items, changed) = shorten_items(taken);
    *template = items;
    changed
}

/// Whether a text is a year from 1800 to 2100 written with four digits.
pub open spec fn is_four_digit_year_text(s: Seq<char>) -> bool {
    &&& s.len() == 4
    &&& forall|i: int| 0 <= i < 4 ==> '0' <= #[trigger] s[i] <= '9'
    &&& 1800 <= year_value(s) <= 2100
}

/// The number four digits write.
pub open spec fn year_value(s: Seq<char>) -> int {
    (s[0] as int - '0' as int) * 1000 + (s[1] as int - '0' as int) * 100 + (s[2] as int - '0' as int) * 10 + (
    s[3] as int - '0' as int)
}

/// Whether a text is a four-digit year from 1800 to 2100
/// (`is_four_digit_year_text`).
pub fn is_four_digit_year(value: &str) -> (r: bool)
    ensures
        r == is_four_digit_year_text(value@),
{
    if value.unicode_len() != 4 {
        return false;
    }
    let mut total: u32 = 0;
    let mut i: usize = 0;
    while i < 4
        invariant
            i <= 4,
            value@.len() == 4,
            forall|k: int| 0 <= k < i ==> '0' <= #[trigger] value@[k] <= '9',
            total == (if i == 0 {
                0
            } else if i == 1 {
                (value@[0] as int - '0' as int)
            } else if i == 2 {
                (value@[0] as int - '0' as int) * 10 + (value@[1] as int - '0' as int)
            } else if i == 3 {
                (value@[0] as int - '0' as int) * 100 + (value@[1] as int - '0' as int) * 10 + (value@[2] as int
                    - '0' as int)
            } else {
                year_value(value@)
            }),
            total < 10000,
        decreases 4 - i,
    {
        let ch = value.get_char(i);
        if !('0' <= ch && ch <= '9') {
            return false;
        }
        let d = (ch as u32) - ('0' as u32);
        total = total * 10 + d;
        i = i + 1;
    }
    1800 <= total && total <= 2100
}

/// The prefix left of a prefix that holds only a year: a single space where
/// it was set off by spaces on both sides; none otherwise.
pub open spec fn year_only_scrub(prefix: Seq<char>) -> Option<Seq<char>> {
    if is_four_digit_year_text(trim_spec(prefix)) && prefix.len() > 0 && prefix[0] == ' ' && prefix.last() == ' ' {
        Some(" "@)
    } else {
        None
    }
}

/// The prefix left of a prefix that holds a year between page
/// punctuation: "; " for "; YEAR; ", ": " for ". YEAR: "; none otherwise.
pub open spec fn pages_year_scrub(prefix: Seq<char>) -> Option<Seq<char>> {
    if prefix.len() >= 4 && prefix.subrange(0, 2) == "; "@ && prefix.subrange(prefix.len() - 2, prefix.len() as int)
        == "; "@ && is_four_digit_year_text(trim_spec(prefix.subrange(2, prefix.len() - 2))) {
        Some("; "@)
    } else if prefix.len() >= 4 && prefix.subrange(0, 2) == ". "@ && prefix.subrange(
        prefix.len() - 2,
        prefix.len() as int,
    ) == ": "@ && is_four_digit_year_text(trim_spec(prefix.subrange(2, prefix.len() - 2))) {
        Some(": "@)
    } else {
        None
    }
}

/// The cleaned prefix of a year-only prefix (`year_only_scrub`).
pub fn scrub_year_only_prefix(prefix: &str) -> (r: Option<String>)
    ensures
        opt_view(r) == year_only_scrub(prefix@),
{
    let trimmed = trim(prefix);
    if !is_four_digit_year(trimmed) {
        return None;
    }
    let n = prefix.unicode_len();
    if n > 0 && prefix.get_char(0) == ' ' && prefix.get_char(n - 1) == ' ' {
        proof {
            reveal_strlit(" ");
        }
        Some(to_owned_string(" "))
    } else {
        None
    }
}

fn has_affixes(s: &str, open: &str, close: &str) -> (r: bool)
    requires
        open@.len() == 2,
        close@.len() == 2,
    ensures
        r == (s@.len() >= 4 && s@.subrange(0, 2) == open@ && s@.subrange(s@.len() - 2, s@.len() as int) == close@),
{
    let n = s.unicode_len();
    if n < 4 {
        return false;
    }
    str_eq(s.substring_char(0, 2), open) && str_eq(s.substring_char(n - 2, n), close)
}

/// The cleaned prefix of a year between page punctuation
/// (`pages_year_scrub`).
pub fn scrub_pages_year_literal_prefix(prefix: &str) -> (r: Option<String>)
    ensures
        opt_view(r) == pages_year_scrub(prefix@),
{
    proof {
        reveal_strlit("; ");
        reveal_strlit(". ");
        reveal_strlit(": ");
    }
    let n = prefix.unicode_len();
    if has_affixes(prefix, "; ", "; ") {
        let inner = prefix.substring_char(2, n - 2);
        if is_four_digit_year(trim(inner)) {
            return Some(to_owned_string("; "));
        }
    }
    if has_affixes(prefix, ". ", ": ") {
        let inner = prefix.substring_char(2, n - 2);
        if is_four_digit_year(trim(inner)) {
            return Some(to_owned_string(": "));
        }
    }
    None
}

/// Whether a macro name points to the citation locator.
pub fn macro_name_indicates_locator(name: &str) -> (r: bool)
    ensures
        r == (contains_seq(ascii_lower_seq(name@), "citation-locator"@) || contains_seq(
            ascii_lower_seq(name@),
            "locator"@,
        )),
{
    let lowered = to_ascii_lowercase(name);
    contains_str(lowered.as_str(), "citation-locator") || contains_str(lowered.as_str(), "locator")
}

/// Puts a citation wrap on a citation number or a list that has none.
pub open spec fn citation_wrapped(c: TCV, wrap: WrapPunctuation) -> TCV {
    match c {
        TCV::Number(n, r, o) => TCV::Number(n, if r.wrap is None { crate::template_view::RenderingV { wrap: Some(wrap), ..r } } else { r }, o),
        TCV::List(l) => TCV::List(ListV { rendering: if l.rendering.wrap is None { crate::template_view::RenderingV { wrap: Some(wrap), ..l.rendering } } else { l.rendering }, ..l }),
        _ => c,
    }
}

/// Puts a citation wrap on a number or a list that has none
/// (`citation_wrapped`).
pub fn apply_wrap_to_component(component: &mut TemplateComponent, wrap: WrapPunctuation)
    ensures
        tc_view(*final(component)) == citation_wrapped(tc_view(*old(component)), wrap),
{
    match component {
        TemplateComponent::Number(n) => {
            if n.rendering.wrap.is_none() {
                n.rendering.wrap = Some(wrap);
            }
        },
        TemplateComponent::List(list) => {
            if list.rendering.wrap.is_none() {
                list.rendering.wrap = Some(wrap);
            }
        },
        _ => {},
    }
}

/// A rendering whose prefix is cleaned as `clean` says, where it has one.
pub open spec fn with_clean_prefix(r: RenderingV, clean: Option<Seq<char>>) -> RenderingV {
    match clean {
        Some(x) => RenderingV { prefix: Some(x), ..r },
        None => r,
    }
}

/// The prefix a cleaning gives, where the rendering has a prefix.
pub open spec fn year_clean(r: RenderingV) -> Option<Seq<char>> {
    match r.prefix {
        Some(p) => year_only_scrub(p),
        None => None,
    }
}

/// The prefix a page cleaning gives, where the rendering has a prefix.
pub open spec fn pages_clean(r: RenderingV) -> Option<Seq<char>> {
    match r.prefix {
        Some(p) => pages_year_scrub(p),
        None => None,
    }
}

/// An override rendering cleaned: a year-only prefix first, else a year
/// between page punctuation.
pub open spec fn override_clean(r: RenderingV) -> RenderingV {
    if year_clean(r) is Some {
        with_clean_prefix(r, year_clean(r))
    } else {
        with_clean_prefix(r, pages_clean(r))
    }
}

/// A component with literal text of a sample reference taken out of its
/// affixes: a year-only prefix of the primary title, a year between page
/// punctuation in the prefix of the pages, and the same in every override,
/// nested components too.
pub open spec fn scrubbed(c: TCV) -> TCV
    decreases c, 4nat,
{
    match c {
        TCV::Title(x, r, o) => TCV::Title(
            x,
            if x.title == TitleType::Primary { with_clean_prefix(r, year_clean(r)) } else { r },
            scrubbed_overrides(o),
        ),
        TCV::Number(n, r, o) => TCV::Number(
            n,
            if n.number == NumberVariable::Pages { with_clean_prefix(r, pages_clean(r)) } else { r },
            scrubbed_overrides(o),
        ),
        TCV::List(l) => TCV::List(
            ListV { items: scrubbed_all(c->List_0.items), overrides: scrubbed_overrides(c->List_0.overrides), ..l },
        ),
        TCV::Contributor(x, r, o) => TCV::Contributor(x, r, scrubbed_overrides(o)),
        TCV::Date(x, f, r, o) => TCV::Date(x, f, r, scrubbed_overrides(o)),
        TCV::Variable(x, r, o) => TCV::Variable(x, r, scrubbed_overrides(o)),
        TCV::Term(x, r, o) => TCV::Term(x, r, scrubbed_overrides(o)),
    }
}

/// Overrides, each cleaned.
pub open spec fn scrubbed_overrides(o: OverridesV) -> OverridesV
    decreases o, 3nat,
{
    match o {
        Some(s) => Some(scrubbed_entries(o->Some_0)),
        None => None,
    }
}

/// Override entries, each cleaned.
pub open spec fn scrubbed_entries(s: Seq<(SelV, OverrideV)>) -> Seq<(SelV, OverrideV)>
    decreases s, 2nat,
{
    if s.len() == 0 {
        Seq::empty()
    } else {
        scrubbed_entries(s.drop_last()).push((s.last().0, scrubbed_override(s.last().1)))
    }
}

/// One override cleaned: a component as `scrubbed`, a rendering as
/// `override_clean`.
pub open spec fn scrubbed_override(o: OverrideV) -> OverrideV
    decreases o, 1nat,
{
    match o {
        OverrideV::Component(b) => OverrideV::Component(Box::new(scrubbed(*(o->Component_0)))),
        OverrideV::Rendering(r) => OverrideV::Rendering(override_clean(r)),
    }
}

/// Components, each `scrubbed`.
pub open spec fn scrubbed_all(s: Seq<TCV>) -> Seq<TCV>
    decreases s, 0nat,
{
    if s.len() == 0 {
        Seq::empty()
    } else {
        scrubbed_all(s.drop_last()).push(scrubbed(s.last()))
    }
}

fn clean_with(r: &mut Rendering, pages: bool)
    ensures
        rendering_view(*final(r)) == with_clean_prefix(
            rendering_view(*old(r)),
            if pages { pages_clean(rendering_view(*old(r))) } else { year_clean(rendering_view(*old(r))) },
        ),
{
    let cleaned = match &r.prefix {
        Some(p) => if pages {
            scrub_pages_year_literal_prefix(p.as_str())
        } else {
            scrub_year_only_prefix(p.as_str())
        },
        None => None,
    };
    if cleaned.is_some() {
        r.prefix = cleaned;
    }
}

/// Cleans one override (`scrubbed_override`).
fn scrub_component_override_literals(o: ComponentOverride) -> (r: ComponentOverride)
    ensures
        ov_view(r) == scrubbed_override(ov_view(o)),
    decreases o, 1nat,
{
    match o {
        ComponentOverride::Component(b) => {
            proof {
                assert(decreases_to!(o => b));
            }
            ComponentOverride::Component(Box::new(scrub_component(*b)))
        },
        ComponentOverride::Rendering(rendering) => {
            let mut rendering = rendering;
            let year = match &rendering.prefix {
                Some(p) => scrub_year_only_prefix(p.as_str()),
                None => None,
            };
            if year.is_some() {
                rendering.prefix = year;
            } else {
                clean_with(&mut rendering, true);
            }
            ComponentOverride::Rendering(rendering)
        },
    }
}

fn scrub_overrides(o: Option<Vec<(TypeSelector, ComponentOverride)>>) -> (r: Option<
    Vec<(TypeSelector, ComponentOverride)>,
>)
    ensures
        ovs_view(r) == scrubbed_overrides(ovs_view(o)),
    decreases o, 3nat,
{
    match o {
        Some(v) => {
            proof {
                assert(decreases_to!(o => v));
                assert(decreases_to!(v => v@));
            }
            Some(scrub_entries(v))
        },
        None => None,
    }
}

fn scrub_entries(v: Vec<(TypeSelector, ComponentOverride)>) -> (r: Vec<(TypeSelector, ComponentOverride)>)
    ensures
        ov_entries_view(r@) == scrubbed_entries(ov_entries_view(v@)),
    decreases v@, 2nat,
{
    let ghost s = v@;
    let mut v = v;
    match v.pop() {
        None => {
            assert(s =~= Seq::<(TypeSelector, ComponentOverride)>::empty());
            Vec::new()
        },
        Some(last) => {
            proof {
                assert(v@ =~= s.subrange(0, s.len() - 1));
                assert(decreases_to!(s => v@));
                assert(decreases_to!(s => s[s.len() - 1]));
                assert(decreases_to!(s[s.len() - 1] => s[s.len() - 1].1));
            }
            let mut out = scrub_entries(v);
            let (k, o) = last;
            let o2 = scrub_component_override_literals(o);
            let ghost before = out@;
            out.push((k, o2));
            proof {
                assert(out@.drop_last() =~= before);
                assert(s.drop_last() =~= v@);
                assert(ov_entries_view(out@) == ov_entries_view(before).push((crate::template_view::selector_view(k), ov_view(o2))));
                let sv = ov_entries_view(s);
                assert(sv == ov_entries_view(s.drop_last()).push((crate::template_view::selector_view(k), ov_view(o))));
                assert(sv.drop_last() =~= ov_entries_view(v@));
            }
            out
        },
    }
}

fn scrub_items(v: Vec<TemplateComponent>) -> (r: Vec<TemplateComponent>)
    ensures
        tcs_view(r@) == scrubbed_all(tcs_view(v@)),
    decreases v@, 0nat,
{
    let ghost s = v@;
    let mut v = v;
    match v.pop() {
        None => {
            assert(s =~= Seq::<TemplateComponent>::empty());
            Vec::new()
        },
        Some(last) => {
            proof {
                assert(v@ =~= s.subrange(0, s.len() - 1));
                assert(decreases_to!(s => v@));
                assert(decreases_to!(s => s[s.len() - 1]));
            }
            let mut out = scrub_items(v);
            let c = scrub_component(last);
            let ghost before = out@;
            out.push(c);
            proof {
                assert(out@.drop_last() =~= before);
                assert(s.drop_last() =~= v@);
                lemma_tcs_view_step(s);
                lemma_tcs_view_step(out@);
            }
            out
        },
    }
}

/// A component with sample literals taken out of its affixes
/// (`scrubbed`).
pub fn scrub_component(c: TemplateComponent) -> (r: TemplateComponent)
    ensures
        tc_view(r) == scrubbed(tc_view(c)),
    decreases c, 4nat,
{
    match c {
        TemplateComponent::Title(x) => {
            proof {
                assert(decreases_to!(c => x));
                assert(decreases_to!(x => x.overrides));
            }
            let mut x = x;
            let o = scrub_overrides(x.overrides);
            if x.title == TitleType::Primary {
                clean_with(&mut x.rendering, false);
            }
            TemplateComponent::Title(TemplateTitle { overrides: o, ..x })
        },
        TemplateComponent::Number(x) => {
            proof {
                assert(decreases_to!(c => x));
                assert(decreases_to!(x => x.overrides));
            }
            let mut x = x;
            let o = scrub_overrides(x.overrides);
            if x.number == NumberVariable::Pages {
                clean_with(&mut x.rendering, true);
            }
            TemplateComponent::Number(TemplateNumber { overrides: o, ..x })
        },
        TemplateComponent::List(l) => {
            proof {
                assert(decreases_to!(c => l));
                assert(decreases_to!(l => l.overrides));
                assert(decreases_to!(l => l.items));
                assert(decreases_to!(l.items => l.items@));
            }
            let TemplateList { items, delimiter, rendering, overrides } = l;
            let items = scrub_items(items);
            let overrides = scrub_overrides(overrides);
            TemplateComponent::List(TemplateList { items, delimiter, rendering, overrides })
        },
        TemplateComponent::Contributor(x) => {
            proof {
                assert(decreases_to!(c => x));
                assert(decreases_to!(x => x.overrides));
            }
            let o = scrub_overrides(x.overrides);
            TemplateComponent::Contributor(TemplateContributor { overrides: o, ..x })
        },
        TemplateComponent::Date(x) => {
            proof {
                assert(decreases_to!(c => x));
                assert(decreases_to!(x => x.overrides));
            }
            let o = scrub_overrides(x.overrides);
            TemplateComponent::Date(TemplateDate { overrides: o, ..x })
        },
        TemplateComponent::Variable(x) => {
            proof {
                assert(decreases_to!(c => x));
                assert(decreases_to!(x => x.overrides));
            }
            let o = scrub_overrides(x.overrides);
            TemplateComponent::Variable(TemplateVariable { overrides: o, ..x })
        },
        TemplateComponent::Term(x) => {
            proof {
                assert(decreases_to!(c => x));
                assert(decreases_to!(x => x.overrides));
            }
            let o = scrub_overrides(x.overrides);
            TemplateComponent::Term(TemplateTerm { overrides: o, ..x })
        },
    }
}

/// Takes literal text of a sample reference out of the affixes of a
/// component (`scrubbed`).
pub fn scrub_inferred_literal_artifacts(component: &mut TemplateComponent)
    ensures
        tc_view(*final(component)) == scrubbed(tc_view(*old(component))),
{
    let mut taken = TemplateComponent::Term(
        TemplateTerm { term: GeneralTerm::In, form: None, rendering: Rendering::default(), overrides: None },
    );
    std::mem::swap(component, &mut taken);
    *component = scrub_component(taken);
}

/// Whether some override of a component targets the reference type `r`.
pub open spec fn overrides_target(c: TemplateComponent, r: Seq<char>) -> bool {
    match component_overrides(c) {
        Some(es) => exists|i: int| 0 <= i < es@.len() && selector_matches(#[trigger] es@[i].0, r),
        None => false,
    }
}

/// Whether a component, or one nested in it, has an override for the
/// reference type `r`.
pub open spec fn targets(c: TemplateComponent, r: Seq<char>) -> bool
    decreases c, 1nat,
{
    overrides_target(c, r) || (c is List && any_targets(c->List_0.items@, r))
}

/// Whether one of `s`, or one nested in them, has an override for `r`.
pub open spec fn any_targets(s: Seq<TemplateComponent>, r: Seq<char>) -> bool
    decreases s, 0nat,
{
    s.len() > 0 && (any_targets(s.drop_last(), r) || targets(s.last(), r))
}

/// Whether a component, or one nested in it, has an override for the
/// reference type `target_type` (`targets`).
pub fn component_targets_type(c: &TemplateComponent, target_type: &str) -> (r: bool)
    ensures
        r == targets(*c, target_type@),
    decreases c, 1nat,
{
    match c.overrides() {
        Some(entries) => {
            let mut i: usize = 0;
            while i < entries.len()
                invariant
                    i <= entries@.len(),
                    component_overrides(*c) == Some(*entries),
                    forall|k: int| 0 <= k < i ==> !selector_matches(#[trigger] entries@[k].0, target_type@),
                decreases entries@.len() - i,
            {
                if entries[i].0.matches(target_type) {
                    proof {
                        assert(selector_matches(entries@[i as int].0, target_type@));
                        let es = component_overrides(*c)->Some_0;
                        assert(es@[i as int] == entries@[i as int]);
                        assert(overrides_target(*c, target_type@));
                    }
                    return true;
                }
                i = i + 1;
            }
        },
        None => {},
    }
    match c {
        TemplateComponent::List(l) => {
            proof {
                assert(decreases_to!(c => l));
                assert(decreases_to!(l => l.items));
            }
            template_targets_type(&l.items, target_type)
        },
        _ => false,
    }
}

/// Whether one of `template`, or one nested in it, has an override for the
/// reference type `target_type` (`any_targets`).
pub fn template_targets_type(template: &Vec<TemplateComponent>, target_type: &str) -> (r: bool)
    ensures
        r == any_targets(template@, target_type@),
    decreases template, 0nat,
{
    let ghost s = template@;
    proof {
        assert(s.subrange(0, 0) =~= Seq::<TemplateComponent>::empty());
    }
    let mut i: usize = 0;
    while i < template.len()
        invariant
            i <= template@.len(),
            s == template@,
            !any_targets(s.subrange(0, i as int), target_type@),
        decreases template@.len() - i,
    {
        proof {
            assert(decreases_to!(template => template@));
            assert(decreases_to!(template@ => template@[i as int]));
            let u = s.subrange(0, i + 1);
            assert(u.drop_last() =~= s.subrange(0, i as int));
            assert(u.last() == s[i as int]);
        }
        if component_targets_type(&template[i], target_type) {
            proof {
                lemma_any_targets_prefix(s, i + 1, target_type@);
            }
            return true;
        }
        i = i + 1;
    }
    proof {
        assert(s.subrange(0, template@.len() as int) =~= s);
    }
    false
}

proof fn lemma_any_targets_prefix(s: Seq<TemplateComponent>, k: int, r: Seq<char>)
    requires
        0 <= k <= s.len(),
        any_targets(s.subrange(0, k), r),
    ensures
        any_targets(s, r),
    decreases s.len() - k,
{
    if k < s.len() {
        let u = s.subrange(0, k + 1);
        assert(u.drop_last() =~= s.subrange(0, k));
        lemma_any_targets_prefix(s, k + 1, r);
    } else {
        assert(s.subrange(0, k) =~= s);
    }
}

/// Whether a type template taken from the style's branches is kept beside
/// the inferred template, by the type's name: a compact patent template;
/// an encyclopedia entry or a case the inferred template does not target
/// (the entry without parent titles); a webpage with an accessed date the
/// inferred template lacks or does not target; a personal communication
/// the inferred template does not target; for common types, a template
/// that differs in structure.
pub open spec fn should_merge(name: Seq<char>, inferred: Seq<TemplateComponent>, candidate: Seq<TemplateComponent>) -> bool {
    if name == "patent"@ {
        candidate.len() <= 12
    } else if name == "entry-encyclopedia"@ {
        !any_targets(inferred, name) && !items_have(tcs_view(candidate), LeafTest::ParentTitle)
    } else if name == "webpage"@ {
        (!any_targets(inferred, name) || !items_have(tcs_view(inferred), LeafTest::AccessedDate)) && items_have(
            tcs_view(candidate),
            LeafTest::AccessedDate,
        )
    } else if name == "legal-case"@ || name == "legal_case"@ || name == "personal_communication"@ || name
        == "personal-communication"@ {
        !any_targets(inferred, name)
    } else if name == "article-journal"@ || name == "article-magazine"@ || name == "article-newspaper"@ || name
        == "book"@ || name == "report"@ || name == "broadcast"@ || name == "interview"@ || name == "motion_picture"@
        || name == "motion-picture"@ {
        structurally_diverges(tcs_view(inferred), tcs_view(candidate))
    } else {
        false
    }
}

/// Whether a type template from the style's branches is kept
/// (`should_merge`).
pub fn should_merge_inferred_type_template(
    kind_name: &str,
    inferred_template: &Vec<TemplateComponent>,
    candidate_template: &Vec<TemplateComponent>,
) -> (r: bool)
    ensures
        r == should_merge(kind_name@, inferred_template@, candidate_template@),
{
    proof {
        lemma_tcs_view(candidate_template@);
    }
    if str_eq(kind_name, "patent") {
        candidate_template.len() <= 12
    } else if str_eq(kind_name, "entry-encyclopedia") {
        !template_targets_type(inferred_template, kind_name) && !template_has(candidate_template, LeafTest::ParentTitle)
    } else if str_eq(kind_name, "webpage") {
        (!template_targets_type(inferred_template, kind_name) || !template_has(
            inferred_template,
            LeafTest::AccessedDate,
        )) && template_has(candidate_template, LeafTest::AccessedDate)
    } else if str_eq(kind_name, "legal-case") || str_eq(kind_name, "legal_case") || str_eq(
        kind_name,
        "personal_communication",
    ) || str_eq(kind_name, "personal-communication") {
        !template_targets_type(inferred_template, kind_name)
    } else if str_eq(kind_name, "article-journal") || str_eq(kind_name, "article-magazine") || str_eq(
        kind_name,
        "article-newspaper",
    ) || str_eq(kind_name, "book") || str_eq(kind_name, "report") || str_eq(kind_name, "broadcast") || str_eq(
        kind_name,
        "interview",
    ) || str_eq(kind_name, "motion_picture") || str_eq(kind_name, "motion-picture") {
        inferred_candidate_structurally_diverges(inferred_template, candidate_template)
    } else {
        false
    }
}

/// Replaces contributor, title and date options that match a preset by
/// that preset's settings; other options are left as they are.
pub fn apply_preset_extractions(options: &mut Config)
    ensures
        match old(options).contributors {
            Some(c) => match detected_contributor_preset(c) {
                Some(p) => final(options).contributors is Some && contributor_preset_holds(
                    final(options).contributors.unwrap(),
                    p,
                ),
                None => final(options).contributors == old(options).contributors,
            },
            None => final(options).contributors is None,
        },
        match old(options).titles {
            Some(t) => match detected_title_preset(t) {
                Some(p) => final(options).titles is Some && title_preset_holds(final(options).titles.unwrap(), p),
                None => final(options).titles == old(options).titles,
            },
            None => final(options).titles is None,
        },
        match old(options).dates {
            Some(d) => final(options).dates is Some && final(options).dates.unwrap().view() == date_preset_config_spec(
                detected_date_preset(d.month),
            ),
            None => final(options).dates is None,
        },
        final(options).substitute == old(options).substitute,
        final(options).processing == old(options).processing,
        final(options).localize == old(options).localize,
        final(options).multilingual == old(options).multilingual,
        final(options).page_range_format == old(options).page_range_format,
        final(options).bibliography == old(options).bibliography,
        final(options).links == old(options).links,
        final(options).punctuation_in_quote == old(options).punctuation_in_quote,
        final(options).volume_pages_delimiter == old(options).volume_pages_delimiter,
        final(options).semantic_classes == old(options).semantic_classes,
        final(options).strip_periods == old(options).strip_periods,
        final(options).notes == old(options).notes,
{
    let contributor_preset = match &options.contributors {
        Some(c) => detect_contributor_preset(c),
        None => None,
    };
    if let Some(p) = contributor_preset {
        options.contributors = Some(p.config());
    }
    let title_preset = match &options.titles {
        Some(t) => detect_title_preset(t),
        None => None,
    };
    if let Some(p) = title_preset {
        options.titles = Some(p.config());
    }
    let date_preset = match &options.dates {
        Some(d) => detect_date_preset(d),
        None => None,
    };
    if let Some(p) = date_preset {
        options.dates = Some(p.config());
    }
}

} // verus!
