//! Style presets: named bundles of configuration encoding the conventions of
//! major citation styles, for contributors, dates, titles, sorting and
//! author substitution.

use vstd::prelude::*;
use crate::grouping::{is_plain_group_sort, plain_group_key, GroupSort, GroupSortKey, SortKey as GroupKey};
use crate::options::{
    AndOptions, AndOtherOptions, ContributorConfig, DateConfig, DelimiterPrecedesLast,
    DemoteNonDroppingParticle, DisplayAsSort, MonthFormat, ShortenListOptions, Sort, SortKey,
    SortSpec, Substitute, SubstituteKey, TitleRendering, TitlesConfig,
};
use crate::options::dates::{default_date_config, DateConfigView};
use crate::text::opt_view;
use crate::options::titles::is_flag_rendering;

verus! {

/// Contributor formatting presets.
#[derive(Debug, Clone, Copy, PartialEq, Eq, Structural)]
pub enum ContributorPreset {
    /// First author family-first, "&", et al. after 20 authors, "J. D." initials.
    Apa,
    /// First author family-first, "and", contextual serial comma, full given names.
    Chicago,
    /// All family-first, no conjunction, compact initials, et al. after 6 of 7+.
    Vancouver,
    /// Given-first, "and", "J. D." initials, comma before "and".
    Ieee,
    /// All family-first, "and", "J.D." initials, comma before "and".
    Harvard,
    /// All family-first, no conjunction, compact initials, et al. after 3 of 5+.
    Springer,
    /// Numeric compact: sort-only particle demotion, et al. after 6 of 7+.
    NumericCompact,
    /// Numeric medium: as numeric-compact, et al. after 3 of 4+.
    NumericMedium,
    /// Numeric tight: et al. after 3 of 7+.
    NumericTight,
    /// Numeric large: et al. after 10 of 11+.
    NumericLarge,
    /// Numeric all-authors: no shortening, particle demotion disabled.
    NumericAllAuthors,
    /// Numeric given-first with "J.D." initials and no conjunction.
    NumericGivenDot,
    /// Annual Reviews: et al. after 5 of 7+, particle demotion never.
    AnnualReviews,
    /// Math/physics author-date: "J." initials, comma sort-separator.
    MathPhys,
    /// Social science: first author family-first, "J. D." initials, no conjunction.
    SocSciFirst,
    /// Physics numeric given-first: "J." initials, no conjunction.
    PhysicsNumeric,
}

/// Display-as-sort setting of each contributor preset.
pub open spec fn cp_display(p: ContributorPreset) -> DisplayAsSort {
    match p {
        ContributorPreset::Apa | ContributorPreset::Chicago | ContributorPreset::SocSciFirst => DisplayAsSort::First,
        ContributorPreset::Ieee | ContributorPreset::NumericGivenDot
        | ContributorPreset::PhysicsNumeric => DisplayAsSort::Off,
        _ => DisplayAsSort::All,
    }
}

/// Conjunction of each contributor preset.
pub open spec fn cp_and(p: ContributorPreset) -> AndOptions {
    match p {
        ContributorPreset::Apa => AndOptions::Symbol,
        ContributorPreset::Chicago | ContributorPreset::Ieee | ContributorPreset::Harvard => AndOptions::Text,
        _ => AndOptions::Omitted,
    }
}

/// Delimiter-precedes-last setting of each contributor preset.
pub open spec fn cp_dpl(p: ContributorPreset) -> Option<DelimiterPrecedesLast> {
    match p {
        ContributorPreset::Chicago => Some(DelimiterPrecedesLast::Contextual),
        ContributorPreset::Vancouver | ContributorPreset::PhysicsNumeric => None,
        ContributorPreset::AnnualReviews => Some(DelimiterPrecedesLast::Never),
        _ => Some(DelimiterPrecedesLast::Always),
    }
}

/// Initialization string of each contributor preset.
pub open spec fn cp_init(p: ContributorPreset) -> Option<Seq<char>> {
    match p {
        ContributorPreset::Chicago => None,
        ContributorPreset::Apa | ContributorPreset::Ieee | ContributorPreset::SocSciFirst
        | ContributorPreset::PhysicsNumeric => Some(". "@),
        ContributorPreset::Harvard | ContributorPreset::NumericGivenDot
        | ContributorPreset::MathPhys => Some("."@),
        _ => Some(""@),
    }
}

/// Sort separator of each contributor preset.
pub open spec fn cp_sort_separator(p: ContributorPreset) -> Option<Seq<char>> {
    match p {
        ContributorPreset::Springer | ContributorPreset::NumericCompact
        | ContributorPreset::NumericMedium | ContributorPreset::NumericTight
        | ContributorPreset::NumericLarge | ContributorPreset::NumericAllAuthors
        | ContributorPreset::AnnualReviews => Some(" "@),
        ContributorPreset::MathPhys | ContributorPreset::SocSciFirst => Some(", "@),
        _ => None,
    }
}

/// Particle demotion of each contributor preset.
pub open spec fn cp_demote(p: ContributorPreset) -> Option<DemoteNonDroppingParticle> {
    match p {
        ContributorPreset::NumericCompact | ContributorPreset::NumericMedium
        | ContributorPreset::NumericTight | ContributorPreset::NumericLarge
        | ContributorPreset::NumericGivenDot | ContributorPreset::MathPhys
        | ContributorPreset::SocSciFirst | ContributorPreset::PhysicsNumeric => Some(
            DemoteNonDroppingParticle::SortOnly,
        ),
        ContributorPreset::NumericAllAuthors | ContributorPreset::AnnualReviews => Some(
            DemoteNonDroppingParticle::Never,
        ),
        _ => None,
    }
}

/// Et-al threshold (min, use-first) of each contributor preset, if it shortens.
pub open spec fn cp_shorten(p: ContributorPreset) -> Option<(u8, u8)> {
    match p {
        ContributorPreset::Apa => Some((21, 19)),
        ContributorPreset::Vancouver | ContributorPreset::NumericCompact => Some((7, 6)),
        ContributorPreset::Springer => Some((5, 3)),
        ContributorPreset::NumericMedium => Some((4, 3)),
        ContributorPreset::NumericTight => Some((7, 3)),
        ContributorPreset::NumericLarge => Some((11, 10)),
        ContributorPreset::AnnualReviews => Some((7, 5)),
        _ => None,
    }
}

/// Whether `o` holds a shortening with the given threshold and otherwise
/// default settings, or nothing when `t` is `None`.
pub open spec fn shorten_is(o: Option<ShortenListOptions>, t: Option<(u8, u8)>) -> bool {
    match t {
        None => o is None,
        Some((min, use_first)) => o == Some(
            ShortenListOptions {
                min,
                use_first,
                use_last: None,
                and_others: AndOtherOptions::EtAl,
                delimiter_precedes_last: DelimiterPrecedesLast::Contextual,
            },
        ),
    }
}

/// Whether `c` is the configuration of the contributor preset `p`.
pub open spec fn contributor_preset_holds(c: ContributorConfig, p: ContributorPreset) -> bool {
    &&& c.display_as_sort == Some(cp_display(p))
    &&& c.and == Some(cp_and(p))
    &&& opt_view(c.delimiter) == Some(", "@)
    &&& c.delimiter_precedes_last == cp_dpl(p)
    &&& c.delimiter_precedes_et_al is None
    &&& opt_view(c.initialize_with) == cp_init(p)
    &&& c.initialize_with_hyphen is None
    &&& opt_view(c.sort_separator) == cp_sort_separator(p)
    &&& c.demote_non_dropping_particle == cp_demote(p)
    &&& shorten_is(c.shorten, cp_shorten(p))
}

fn some_str(s: &str) -> (r: Option<String>)
    ensures
        opt_view(r) == Some(s@),
{
    Some(String::from_str(s))
}

fn shorten(min: u8, use_first: u8) -> (r: Option<ShortenListOptions>)
    ensures
        shorten_is(r, Some((min, use_first))),
{
    Some(ShortenListOptions {
                min,
                use_first,
                use_last: None,
                and_others: AndOtherOptions::EtAl,
                delimiter_precedes_last: DelimiterPrecedesLast::Contextual,
            })
}

impl ContributorPreset {
    /// Convert this preset to a concrete `ContributorConfig`.
    pub fn config(&self) -> (r: ContributorConfig)
        ensures
            contributor_preset_holds(r, *self),
    {
        let mut c = ContributorConfig::default();
        c.delimiter = some_str(", ");
        match self {
            ContributorPreset::Apa => {
                c.display_as_sort = Some(DisplayAsSort::First);
                c.and = Some(AndOptions::Symbol);
                c.delimiter_precedes_last = Some(DelimiterPrecedesLast::Always);
                c.initialize_with = some_str(". ");
                c.shorten = shorten(21, 19);
            },
            ContributorPreset::Chicago => {
                c.display_as_sort = Some(DisplayAsSort::First);
                c.and = Some(AndOptions::Text);
                c.delimiter_precedes_last = Some(DelimiterPrecedesLast::Contextual);
            },
            ContributorPreset::Vancouver => {
                c.display_as_sort = Some(DisplayAsSort::All);
                c.and = Some(AndOptions::Omitted);
                c.initialize_with = some_str("");
                c.shorten = shorten(7, 6);
            },
            ContributorPreset::Ieee => {
                c.display_as_sort = Some(DisplayAsSort::Off);
                c.and = Some(AndOptions::Text);
                c.delimiter_precedes_last = Some(DelimiterPrecedesLast::Always);
                c.initialize_with = some_str(". ");
            },
            ContributorPreset::Harvard => {
                c.display_as_sort = Some(DisplayAsSort::All);
                c.and = Some(AndOptions::Text);
                c.delimiter_precedes_last = Some(DelimiterPrecedesLast::Always);
                c.initialize_with = some_str(".");
            },
            ContributorPreset::Springer => {
                c.display_as_sort = Some(DisplayAsSort::All);
                c.and = Some(AndOptions::Omitted);
                c.delimiter_precedes_last = Some(DelimiterPrecedesLast::Always);
                c.initialize_with = some_str("");
                c.sort_separator = some_str(" ");
                c.shorten = shorten(5, 3);
            },
            ContributorPreset::NumericCompact => {
                c.display_as_sort = Some(DisplayAsSort::All);
                c.and = Some(AndOptions::Omitted);
                c.delimiter_precedes_last = Some(DelimiterPrecedesLast::Always);
                c.initialize_with = some_str("");
                c.sort_separator = some_str(" ");
                c.demote_non_dropping_particle = Some(DemoteNonDroppingParticle::SortOnly);
                c.shorten = shorten(7, 6);
            },
            ContributorPreset::NumericMedium => {
                c.display_as_sort = Some(DisplayAsSort::All);
                c.and = Some(AndOptions::Omitted);
                c.delimiter_precedes_last = Some(DelimiterPrecedesLast::Always);
                c.initialize_with = some_str("");
                c.sort_separator = some_str(" ");
                c.demote_non_dropping_particle = Some(DemoteNonDroppingParticle::SortOnly);
                c.shorten = shorten(4, 3);
            },
            ContributorPreset::NumericTight => {
                c.display_as_sort = Some(DisplayAsSort::All);
                c.and = Some(AndOptions::Omitted);
                c.delimiter_precedes_last = Some(DelimiterPrecedesLast::Always);
                c.initialize_with = some_str("");
                c.sort_separator = some_str(" ");
                c.demote_non_dropping_particle = Some(DemoteNonDroppingParticle::SortOnly);
                c.shorten = shorten(7, 3);
            },
            ContributorPreset::NumericLarge => {
                c.display_as_sort = Some(DisplayAsSort::All);
                c.and = Some(AndOptions::Omitted);
                c.delimiter_precedes_last = Some(DelimiterPrecedesLast::Always);
                c.initialize_with = some_str("");
                c.sort_separator = some_str(" ");
                c.demote_non_dropping_particle = Some(DemoteNonDroppingParticle::SortOnly);
                c.shorten = shorten(11, 10);
            },
            ContributorPreset::NumericAllAuthors => {
                c.display_as_sort = Some(DisplayAsSort::All);
                c.and = Some(AndOptions::Omitted);
                c.delimiter_precedes_last = Some(DelimiterPrecedesLast::Always);
                c.initialize_with = some_str("");
                c.sort_separator = some_str(" ");
                c.demote_non_dropping_particle = Some(DemoteNonDroppingParticle::Never);
            },
            ContributorPreset::NumericGivenDot => {
                c.display_as_sort = Some(DisplayAsSort::Off);
                c.and = Some(AndOptions::Omitted);
                c.delimiter_precedes_last = Some(DelimiterPrecedesLast::Always);
                c.initialize_with = some_str(".");
                c.demote_non_dropping_particle = Some(DemoteNonDroppingParticle::SortOnly);
            },
            ContributorPreset::AnnualReviews => {
                c.display_as_sort = Some(DisplayAsSort::All);
                c.and = Some(AndOptions::Omitted);
                c.delimiter_precedes_last = Some(DelimiterPrecedesLast::Never);
                c.initialize_with = some_str("");
                c.sort_separator = some_str(" ");
                c.demote_non_dropping_particle = Some(DemoteNonDroppingParticle::Never);
                c.shorten = shorten(7, 5);
            },
            ContributorPreset::MathPhys => {
                c.display_as_sort = Some(DisplayAsSort::All);
                c.and = Some(AndOptions::Omitted);
                c.delimiter_precedes_last = Some(DelimiterPrecedesLast::Always);
                c.initialize_with = some_str(".");
                c.sort_separator = some_str(", ");
                c.demote_non_dropping_particle = Some(DemoteNonDroppingParticle::SortOnly);
            },
            ContributorPreset::SocSciFirst => {
                c.display_as_sort = Some(DisplayAsSort::First);
                c.and = Some(AndOptions::Omitted);
                c.delimiter_precedes_last = Some(DelimiterPrecedesLast::Always);
                c.initialize_with = some_str(". ");
                c.sort_separator = some_str(", ");
                c.demote_non_dropping_particle = Some(DemoteNonDroppingParticle::SortOnly);
            },
            ContributorPreset::PhysicsNumeric => {
                c.display_as_sort = Some(DisplayAsSort::Off);
                c.and = Some(AndOptions::Omitted);
                c.initialize_with = some_str(". ");
                c.demote_non_dropping_particle = Some(DemoteNonDroppingParticle::SortOnly);
            },
        }
        c
    }
}

/// Date formatting presets.
#[derive(Debug, Clone, Copy, PartialEq, Eq, Structural)]
pub enum DatePreset {
    /// Long month names, EDTF markers, en-dash ranges ("January 15, 2024").
    Long,
    /// Short month names, EDTF markers, en-dash ranges ("Jan 15, 2024").
    Short,
    /// Numeric months, EDTF markers, en-dash ranges ("1/15/2024").
    Numeric,
    /// ISO 8601 numeric format, no EDTF markers ("2024-01-15").
    Iso,
}

/// The date configuration of each date preset.
pub open spec fn date_preset_config_spec(p: DatePreset) -> DateConfigView {
    match p {
        DatePreset::Long => default_date_config(MonthFormat::Long),
        DatePreset::Short => default_date_config(MonthFormat::Short),
        DatePreset::Numeric => default_date_config(MonthFormat::Numeric),
        DatePreset::Iso => DateConfigView {
            uncertainty_marker: None,
            approximation_marker: None,
            ..default_date_config(MonthFormat::Numeric)
        },
    }
}

impl DatePreset {
    /// Convert this preset to a concrete `DateConfig`.
    pub fn config(&self) -> (r: DateConfig)
        ensures
            r.view() == date_preset_config_spec(*self),
    {
        let mut c = DateConfig::default();
        match self {
            DatePreset::Long => {},
            DatePreset::Short => {
                c.month = MonthFormat::Short;
            },
            DatePreset::Numeric => {
                c.month = MonthFormat::Numeric;
            },
            DatePreset::Iso => {
                c.month = MonthFormat::Numeric;
                c.uncertainty_marker = None;
                c.approximation_marker = None;
            },
        }
        c
    }
}

/// Title formatting presets.
#[derive(Debug, Clone, Copy, PartialEq, Eq, Structural)]
pub enum TitlePreset {
    /// Article titles plain, book/journal titles italic.
    Apa,
    /// Article titles quoted, book/journal titles italic.
    Chicago,
    /// Article titles quoted, book/journal titles italic.
    Ieee,
    /// Monographs, periodicals and serials italic, articles plain.
    Humanities,
    /// Periodicals and serials italic, monographs plain.
    JournalEmphasis,
    /// All titles plain.
    Scientific,
}

/// Whether `o` is the title rendering with the given flags, or nothing.
pub open spec fn title_slot(o: Option<TitleRendering>, set: bool, emph: Option<bool>, quote: Option<bool>) -> bool {
    if set {
        o is Some && is_flag_rendering(o.unwrap(), emph, quote)
    } else {
        o is None
    }
}

/// Whether `t` is the title configuration of the preset `p`.
pub open spec fn title_preset_holds(t: TitlesConfig, p: TitlePreset) -> bool {
    let emph = Some(true);
    &&& t.type_mapping@.len() == 0
    &&& t.container_monograph is None
    &&& t.default is None
    &&& t.custom is None
    &&& match p {
        TitlePreset::Apa => title_slot(t.component, true, None, None)
            && title_slot(t.monograph, true, emph, None) && title_slot(t.periodical, true, emph, None)
            && title_slot(t.serial, false, None, None),
        TitlePreset::Chicago | TitlePreset::Ieee => title_slot(t.component, true, None, Some(true))
            && title_slot(t.monograph, true, emph, None) && title_slot(t.periodical, true, emph, None)
            && title_slot(t.serial, false, None, None),
        TitlePreset::Humanities => title_slot(t.component, true, None, None)
            && title_slot(t.monograph, true, emph, None) && title_slot(t.periodical, true, emph, None)
            && title_slot(t.serial, true, emph, None),
        TitlePreset::JournalEmphasis => title_slot(t.component, true, None, None)
            && title_slot(t.monograph, false, None, None) && title_slot(t.periodical, true, emph, None)
            && title_slot(t.serial, true, emph, None),
        TitlePreset::Scientific => title_slot(t.component, true, None, None)
            && title_slot(t.monograph, true, None, None) && title_slot(t.periodical, true, None, None)
            && title_slot(t.serial, false, None, None),
    }
}

fn flag_rendering(emph: Option<bool>, quote: Option<bool>) -> (r: Option<TitleRendering>)
    ensures
        r is Some && is_flag_rendering(r.unwrap(), emph, quote),
{
    Some(
        TitleRendering {
            emph,
            quote,
            strong: None,
            small_caps: None,
            prefix: None,
            suffix: None,
            locale_overrides: None,
        },
    )
}

impl TitlePreset {
    /// Convert this preset to a concrete `TitlesConfig`.
    pub fn config(&self) -> (r: TitlesConfig)
        ensures
            title_preset_holds(r, *self),
    {
        let mut t = TitlesConfig {
            type_mapping: Vec::new(),
            component: None,
            monograph: None,
            container_monograph: None,
            periodical: None,
            serial: None,
            default: None,
            custom: None,
        };
        match self {
            TitlePreset::Apa => {
                t.component = flag_rendering(None, None);
                t.monograph = flag_rendering(Some(true), None);
                t.periodical = flag_rendering(Some(true), None);
            },
            TitlePreset::Chicago | TitlePreset::Ieee => {
                t.component = flag_rendering(None, Some(true));
                t.monograph = flag_rendering(Some(true), None);
                t.periodical = flag_rendering(Some(true), None);
            },
            TitlePreset::Humanities => {
                t.component = flag_rendering(None, None);
                t.monograph = flag_rendering(Some(true), None);
                t.periodical = flag_rendering(Some(true), None);
                t.serial = flag_rendering(Some(true), None);
            },
            TitlePreset::JournalEmphasis => {
                t.component = flag_rendering(None, None);
                t.periodical = flag_rendering(Some(true), None);
                t.serial = flag_rendering(Some(true), None);
            },
            TitlePreset::Scientific => {
                t.component = flag_rendering(None, None);
                t.monograph = flag_rendering(None, None);
                t.periodical = flag_rendering(None, None);
            },
        }
        t
    }
}

/// Sort order presets for bibliography entries.
#[derive(Debug, Clone, Copy, PartialEq, Eq, Structural)]
pub enum SortPreset {
    /// Author, then year, then title.
    AuthorDateTitle,
    /// Author, then title, then year.
    AuthorTitleDate,
    /// Citation number only.
    CitationNumber,
}

/// The sort keys of each sort preset, in order.
pub open spec fn sort_preset_keys(p: SortPreset) -> Seq<SortKey> {
    match p {
        SortPreset::AuthorDateTitle => seq![SortKey::Author, SortKey::Year, SortKey::Title],
        SortPreset::AuthorTitleDate => seq![SortKey::Author, SortKey::Title, SortKey::Year],
        SortPreset::CitationNumber => seq![SortKey::CitationNumber],
    }
}

/// Whether `s` sorts ascending by exactly the keys of preset `p`, without
/// shortened names or rendered substitutions.
pub open spec fn is_preset_sort(s: Sort, p: SortPreset) -> bool {
    !s.shorten_names && !s.render_substitutions
        && s.template@ == sort_preset_keys(p).map_values(|k: SortKey| SortSpec { key: k, ascending: true })
}

/// The group sort keys of each sort preset, in order.
pub open spec fn group_sort_keys(p: SortPreset) -> Seq<GroupKey> {
    match p {
        SortPreset::AuthorDateTitle => seq![GroupKey::Author, GroupKey::Issued, GroupKey::Title],
        SortPreset::AuthorTitleDate => seq![GroupKey::Author, GroupKey::Title, GroupKey::Issued],
        SortPreset::CitationNumber => Seq::empty(),
    }
}

fn ascending_specs(keys: &[SortKey]) -> (r: Vec<SortSpec>)
    ensures
        r@ == keys@.map_values(|k: SortKey| SortSpec { key: k, ascending: true }),
{
    let mut out: Vec<SortSpec> = Vec::new();
    let mut i: usize = 0;
    while i < keys.len()
        invariant
            i <= keys@.len(),
            out@ =~= keys@.subrange(0, i as int).map_values(
                |k: SortKey| SortSpec { key: k, ascending: true },
            ),
        decreases keys@.len() - i,
    {
        out.push(SortSpec { key: keys[i], ascending: true });
        i = i + 1;
    }
    assert(keys@.subrange(0, keys@.len() as int) =~= keys@);
    out
}

impl SortPreset {
    /// Convert this preset to a concrete `Sort`.
    pub fn sort(&self) -> (r: Sort)
        ensures
            is_preset_sort(r, *self),
    {
        let template = match self {
            SortPreset::AuthorDateTitle => {
                let t = ascending_specs(&[SortKey::Author, SortKey::Year, SortKey::Title]);
                assert(t@ == sort_preset_keys(*self).map_values(|k: SortKey| SortSpec { key: k, ascending: true })) by {
                    assert(seq![SortKey::Author, SortKey::Year, SortKey::Title] =~= sort_preset_keys(*self));
                }
                t
            },
            SortPreset::AuthorTitleDate => {
                let t = ascending_specs(&[SortKey::Author, SortKey::Title, SortKey::Year]);
                assert(t@ == sort_preset_keys(*self).map_values(|k: SortKey| SortSpec { key: k, ascending: true })) by {
                    assert(seq![SortKey::Author, SortKey::Title, SortKey::Year] =~= sort_preset_keys(*self));
                }
                t
            },
            SortPreset::CitationNumber => {
                let t = ascending_specs(&[SortKey::CitationNumber]);
                assert(t@ == sort_preset_keys(*self).map_values(|k: SortKey| SortSpec { key: k, ascending: true })) by {
                    assert(seq![SortKey::CitationNumber] =~= sort_preset_keys(*self));
                }
                t
            },
        };
        Sort { shorten_names: false, render_substitutions: false, template }
    }

    /// Convert this preset to a `GroupSort` for use in citation sorting.
    pub fn group_sort(&self) -> (r: GroupSort)
        ensures
            is_plain_group_sort(r, group_sort_keys(*self)),
    {
        let mut keys: Vec<GroupSortKey> = Vec::new();
        match self {
            SortPreset::AuthorDateTitle => {
                keys.push(plain_group_key(GroupKey::Author));
                keys.push(plain_group_key(GroupKey::Issued));
                keys.push(plain_group_key(GroupKey::Title));
            },
            SortPreset::AuthorTitleDate => {
                keys.push(plain_group_key(GroupKey::Author));
                keys.push(plain_group_key(GroupKey::Title));
                keys.push(plain_group_key(GroupKey::Issued));
            },
            SortPreset::CitationNumber => {},
        }
        GroupSort { template: keys }
    }
}

/// Substitute presets for author substitution fallback logic.
#[derive(Debug, Clone, Copy, PartialEq, Eq, Structural)]
pub enum SubstitutePreset {
    /// Editor, title, translator.
    Standard,
    /// Editor, translator, title.
    EditorFirst,
    /// Title, editor, translator.
    TitleFirst,
    /// Editor only, short role labels.
    EditorShort,
    /// Editor only, long role labels.
    EditorLong,
    /// Editor then translator, short role labels.
    EditorTranslatorShort,
    /// Editor then translator, long role labels.
    EditorTranslatorLong,
    /// Editor then title, short role labels.
    EditorTitleShort,
    /// Editor then title, long role labels.
    EditorTitleLong,
    /// Editor, translator, title, short role labels.
    EditorTranslatorTitleShort,
    /// Editor, translator, title, long role labels.
    EditorTranslatorTitleLong,
}

/// The substitution order of each substitute preset.
pub open spec fn substitute_preset_template(p: SubstitutePreset) -> Seq<SubstituteKey> {
    let e = SubstituteKey::Editor;
    let t = SubstituteKey::Title;
    let tr = SubstituteKey::Translator;
    match p {
        SubstitutePreset::Standard => seq![e, t, tr],
        SubstitutePreset::EditorFirst => seq![e, tr, t],
        SubstitutePreset::TitleFirst => seq![t, e, tr],
        SubstitutePreset::EditorShort | SubstitutePreset::EditorLong => seq![e],
        SubstitutePreset::EditorTranslatorShort | SubstitutePreset::EditorTranslatorLong => seq![e, tr],
        SubstitutePreset::EditorTitleShort | SubstitutePreset::EditorTitleLong => seq![e, t],
        SubstitutePreset::EditorTranslatorTitleShort
        | SubstitutePreset::EditorTranslatorTitleLong => seq![e, tr, t],
    }
}

/// The role label form of each substitute preset.
pub open spec fn substitute_preset_role_form(p: SubstitutePreset) -> Option<Seq<char>> {
    match p {
        SubstitutePreset::Standard | SubstitutePreset::EditorFirst | SubstitutePreset::TitleFirst => None,
        SubstitutePreset::EditorShort | SubstitutePreset::EditorTranslatorShort
        | SubstitutePreset::EditorTitleShort | SubstitutePreset::EditorTranslatorTitleShort => Some(
            "short"@,
        ),
        _ => Some("long"@),
    }
}

fn keys_of(keys: &[SubstituteKey]) -> (r: Vec<SubstituteKey>)
    ensures
        r@ == keys@,
{
    let mut out: Vec<SubstituteKey> = Vec::new();
    let mut i: usize = 0;
    while i < keys.len()
        invariant
            i <= keys@.len(),
            out@ =~= keys@.subrange(0, i as int),
        decreases keys@.len() - i,
    {
        out.push(keys[i]);
        i = i + 1;
    }
    out
}

impl SubstitutePreset {
    /// Convert this preset to a concrete `Substitute`.
    pub fn config(&self) -> (r: Substitute)
        ensures
            r.template@ == substitute_preset_template(*self),
            opt_view(r.contributor_role_form) == substitute_preset_role_form(*self),
            r.overrides@.len() == 0,
    {
        let e = SubstituteKey::Editor;
        let t = SubstituteKey::Title;
        let tr = SubstituteKey::Translator;
        let (form, template) = match self {
            SubstitutePreset::Standard => (None, keys_of(&[e, t, tr])),
            SubstitutePreset::EditorFirst => (None, keys_of(&[e, tr, t])),
            SubstitutePreset::TitleFirst => (None, keys_of(&[t, e, tr])),
            SubstitutePreset::EditorShort => (some_str("short"), keys_of(&[e])),
            SubstitutePreset::EditorLong => (some_str("long"), keys_of(&[e])),
            SubstitutePreset::EditorTranslatorShort => (some_str("short"), keys_of(&[e, tr])),
            SubstitutePreset::EditorTranslatorLong => (some_str("long"), keys_of(&[e, tr])),
            SubstitutePreset::EditorTitleShort => (some_str("short"), keys_of(&[e, t])),
            SubstitutePreset::EditorTitleLong => (some_str("long"), keys_of(&[e, t])),
            SubstitutePreset::EditorTranslatorTitleShort => (some_str("short"), keys_of(&[e, tr, t])),
            SubstitutePreset::EditorTranslatorTitleLong => (some_str("long"), keys_of(&[e, tr, t])),
        };
        proof {
            assert(template@ =~= substitute_preset_template(*self));
        }
        Substitute { contributor_role_form: form, template, overrides: Vec::new() }
    }
}

} // verus!
