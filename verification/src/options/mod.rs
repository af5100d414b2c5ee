//! Style configuration options.

pub mod bibliography;
pub mod contributors;
pub mod custom;
pub mod dates;
pub mod localization;
pub mod multilingual;
pub mod processing;
pub mod substitute;
pub mod titles;

pub use bibliography::{same_bibliography, BibliographyConfig, SubsequentAuthorSubstituteRule};
pub use custom::JsonValue;
pub use dates::{DateConfig, DateConfigEntry, TimeFormat};
pub use localization::{Localize, MonthFormat, Scope};
pub use multilingual::{MultilingualConfig, MultilingualMode, ScriptConfig};
pub use processing::{
    Disambiguation, Group, LabelConfig, LabelParams, LabelPreset, Processing, ProcessingCustom,
    Sort, SortEntry, SortKey, SortSpec,
};
pub use substitute::{Substitute, SubstituteConfig, SubstituteKey};
pub use titles::{TitleRendering, TitlesConfig, TitlesConfigEntry};

pub use contributors::{
    AndOptions, AndOtherOptions, ContributorConfig, DelimiterPrecedesLast,
    DemoteNonDroppingParticle, DisplayAsSort, ShortenListOptions,
};

use vstd::prelude::*;
use crate::template::DelimiterPunctuation;
use crate::options::contributors::merged_contributor_config;
use crate::options::multilingual::same_multilingual;
use crate::options::processing::same_processing;
use crate::options::substitute::same_substitute_config;
use crate::options::titles::same_titles_config;
use crate::options::custom::{copy_custom, custom_view};

verus! {

/// Structured link options.
#[derive(Debug, Clone, Copy, PartialEq, Eq, Structural)]
pub struct LinksConfig {
    pub doi: Option<bool>,
    pub url: Option<bool>,
    pub target: Option<LinkTarget>,
    pub anchor: Option<LinkAnchor>,
}

/// Link target options.
#[derive(Debug, Clone, Copy, PartialEq, Eq, Structural)]
pub enum LinkTarget {
    Url,
    Doi,
    UrlOrDoi,
    Pubmed,
    Pmcid,
}

/// Link anchor options.
#[derive(Debug, Clone, Copy, PartialEq, Eq, Structural)]
pub enum LinkAnchor {
    Title,
    Url,
    Doi,
    Component,
    Entry,
}

impl Default for LinksConfig {
    fn default() -> (r: Self)
        ensures
            r == (LinksConfig { doi: None, url: None, target: None, anchor: None }),
    {
        LinksConfig { doi: None, url: None, target: None, anchor: None }
    }
}

/// Document-level note marker placement rules.
#[derive(Debug, Clone, Copy, PartialEq, Eq, Structural, Default)]
pub struct NoteConfig {
    /// Location of movable punctuation relative to closing quotation marks.
    pub punctuation: Option<NoteQuotePlacement>,
    /// Location of the note marker relative to closing quotation marks.
    pub number: Option<NoteNumberPlacement>,
    /// Whether the marker comes before or after the closest movable punctuation.
    pub order: Option<NoteMarkerOrder>,
}

/// Placement of movable punctuation relative to a closing quotation mark.
#[derive(Debug, Clone, Copy, PartialEq, Eq, Structural)]
pub enum NoteQuotePlacement {
    Inside,
    Outside,
    /// Inside when already flush with the closing quote, otherwise outside.
    Adaptive,
}

/// Placement of the note marker relative to a closing quotation mark.
#[derive(Debug, Clone, Copy, PartialEq, Eq, Structural)]
pub enum NoteNumberPlacement {
    Inside,
    Outside,
    /// Same side as the movable punctuation when only one side has it.
    Same,
}

/// Order of the note marker and the closest movable punctuation.
#[derive(Debug, Clone, Copy, PartialEq, Eq, Structural)]
pub enum NoteMarkerOrder {
    Before,
    After,
}

/// Page range formatting options.
#[derive(Debug, Clone, Copy, PartialEq, Eq, Structural, Default)]
pub enum PageRangeFormat {
    /// Full expansion: 321-328 -> 321–328.
    #[default]
    Expanded,
    /// Minimal digits: 321-328 -> 321–8.
    Minimal,
    /// Minimal two digits: 321-328 -> 321–28.
    MinimalTwo,
    /// Chicago Manual of Style 15th ed rules.
    Chicago,
    /// Chicago Manual of Style 16th/17th ed rules.
    Chicago16,
}

/// Top-level style configuration.
#[derive(Debug, Clone, PartialEq, Default)]
pub struct Config {
    pub substitute: Option<SubstituteConfig>,
    pub processing: Option<Processing>,
    pub localize: Option<Localize>,
    pub multilingual: Option<MultilingualConfig>,
    pub contributors: Option<ContributorConfig>,
    pub dates: Option<DateConfig>,
    pub titles: Option<TitlesConfig>,
    pub page_range_format: Option<PageRangeFormat>,
    pub bibliography: Option<BibliographyConfig>,
    pub links: Option<LinksConfig>,
    /// Whether periods/commas go inside quotation marks (American style).
    pub punctuation_in_quote: bool,
    /// Delimiter between volume/issue and pages for serial sources.
    pub volume_pages_delimiter: Option<DelimiterPunctuation>,
    /// Whether to output semantic markup.
    pub semantic_classes: Option<bool>,
    /// Strip trailing periods from terms, labels, and abbreviated dates.
    pub strip_periods: Option<bool>,
    /// Note marker placement and punctuation movement rules.
    pub notes: Option<NoteConfig>,
    /// Free-form extension values, keyed by name.
    pub custom: Option<Vec<(String, JsonValue)>>,
}

/// `after` is `other` when `other` is set, else `before`.
pub open spec fn merged_opt<T>(before: Option<T>, other: Option<T>, after: Option<T>) -> bool {
    if other is Some {
        after == other
    } else {
        after == before
    }
}

/// As `merged_opt`, for substitution settings compared by contents.
pub open spec fn merged_substitute(
    before: Option<SubstituteConfig>,
    other: Option<SubstituteConfig>,
    after: Option<SubstituteConfig>,
) -> bool {
    if other is Some {
        after is Some && same_substitute_config(after.unwrap(), other.unwrap())
    } else {
        after == before
    }
}

/// As `merged_opt`, for processing modes compared by contents.
pub open spec fn merged_processing(
    before: Option<Processing>,
    other: Option<Processing>,
    after: Option<Processing>,
) -> bool {
    if other is Some {
        after is Some && same_processing(after.unwrap(), other.unwrap())
    } else {
        after == before
    }
}

/// As `merged_opt`, for multilingual settings compared by contents.
pub open spec fn merged_multilingual(
    before: Option<MultilingualConfig>,
    other: Option<MultilingualConfig>,
    after: Option<MultilingualConfig>,
) -> bool {
    if other is Some {
        after is Some && same_multilingual(after.unwrap(), other.unwrap())
    } else {
        after == before
    }
}

/// As `merged_opt`, for title settings compared by contents.
pub open spec fn merged_titles(
    before: Option<TitlesConfig>,
    other: Option<TitlesConfig>,
    after: Option<TitlesConfig>,
) -> bool {
    if other is Some {
        after is Some && same_titles_config(after.unwrap(), other.unwrap())
    } else {
        after == before
    }
}

/// The contributor settings after merging `other` into `before`.
pub open spec fn merged_contributors(
    before: Option<ContributorConfig>,
    other: Option<ContributorConfig>,
) -> Option<ContributorConfig> {
    match (before, other) {
        (Some(b), Some(o)) => Some(merged_contributor_config(b, o)),
        (None, Some(o)) => Some(o),
        (b, None) => b,
    }
}

/// Whether `after` is `before` merged with `other`.
pub open spec fn config_merged(before: Config, other: Config, after: Config) -> bool {
    &&& merged_substitute(before.substitute, other.substitute, after.substitute)
    &&& merged_processing(before.processing, other.processing, after.processing)
    &&& merged_opt(before.localize, other.localize, after.localize)
    &&& merged_multilingual(before.multilingual, other.multilingual, after.multilingual)
    &&& merged_opt(before.dates, other.dates, after.dates)
    &&& merged_titles(before.titles, other.titles, after.titles)
    &&& merged_opt(before.page_range_format, other.page_range_format, after.page_range_format)
    &&& merged_bibliography(before.bibliography, other.bibliography, after.bibliography)
    &&& merged_opt(before.links, other.links, after.links)
    &&& merged_opt(before.volume_pages_delimiter, other.volume_pages_delimiter, after.volume_pages_delimiter)
    &&& merged_opt(before.semantic_classes, other.semantic_classes, after.semantic_classes)
    &&& merged_opt(before.strip_periods, other.strip_periods, after.strip_periods)
    &&& merged_opt(before.notes, other.notes, after.notes)
    &&& after.contributors == merged_contributors(before.contributors, other.contributors)
    &&& after.punctuation_in_quote == (before.punctuation_in_quote || other.punctuation_in_quote)
    &&& if other.custom is Some {
        custom_view(after.custom) == custom_view(other.custom)
    } else {
        after.custom == before.custom
    }
}

/// `after` is a copy of `other` when `other` is set, else `before`.
pub open spec fn merged_bibliography(
    before: Option<BibliographyConfig>,
    other: Option<BibliographyConfig>,
    after: Option<BibliographyConfig>,
) -> bool {
    if other is Some {
        after is Some && same_bibliography(after.unwrap(), other.unwrap())
    } else {
        after == before
    }
}

fn merge_copy_fields(target: &mut Config, other: &Config)
    ensures
        merged_opt(old(target).localize, other.localize, final(target).localize),
        merged_opt(old(target).page_range_format, other.page_range_format, final(target).page_range_format),
        merged_opt(old(target).links, other.links, final(target).links),
        merged_opt(old(target).semantic_classes, other.semantic_classes, final(target).semantic_classes),
        merged_opt(old(target).strip_periods, other.strip_periods, final(target).strip_periods),
        merged_opt(old(target).notes, other.notes, final(target).notes),
        final(target).punctuation_in_quote == (old(target).punctuation_in_quote || other.punctuation_in_quote),
        final(target).substitute == old(target).substitute,
        final(target).processing == old(target).processing,
        final(target).multilingual == old(target).multilingual,
        final(target).dates == old(target).dates,
        final(target).titles == old(target).titles,
        final(target).bibliography == old(target).bibliography,
        final(target).volume_pages_delimiter == old(target).volume_pages_delimiter,
        final(target).contributors == old(target).contributors,
        final(target).custom == old(target).custom,
{
    if other.localize.is_some() {
        target.localize = other.localize;
    }
    if other.page_range_format.is_some() {
        target.page_range_format = other.page_range_format;
    }
    if other.links.is_some() {
        target.links = other.links;
    }
    if other.semantic_classes.is_some() {
        target.semantic_classes = other.semantic_classes;
    }
    if other.strip_periods.is_some() {
        target.strip_periods = other.strip_periods;
    }
    if other.notes.is_some() {
        target.notes = other.notes;
    }
    if other.punctuation_in_quote {
        target.punctuation_in_quote = true;
    }
}

fn merge_structured_fields(target: &mut Config, other: &Config)
    ensures
        merged_substitute(old(target).substitute, other.substitute, final(target).substitute),
        merged_processing(old(target).processing, other.processing, final(target).processing),
        merged_multilingual(old(target).multilingual, other.multilingual, final(target).multilingual),
        merged_opt(old(target).dates, other.dates, final(target).dates),
        merged_titles(old(target).titles, other.titles, final(target).titles),
        merged_bibliography(old(target).bibliography, other.bibliography, final(target).bibliography),
        merged_opt(old(target).volume_pages_delimiter, other.volume_pages_delimiter, final(target).volume_pages_delimiter),
        final(target).localize == old(target).localize,
        final(target).page_range_format == old(target).page_range_format,
        final(target).links == old(target).links,
        final(target).semantic_classes == old(target).semantic_classes,
        final(target).strip_periods == old(target).strip_periods,
        final(target).notes == old(target).notes,
        final(target).punctuation_in_quote == old(target).punctuation_in_quote,
        final(target).contributors == old(target).contributors,
        final(target).custom == old(target).custom,
{
    if let Some(x) = &other.substitute {
        target.substitute = Some(x.copy());
    }
    if let Some(x) = &other.processing {
        target.processing = Some(x.copy());
    }
    if let Some(x) = &other.multilingual {
        target.multilingual = Some(x.copy());
    }
    if let Some(x) = &other.dates {
        target.dates = Some(x.copy());
    }
    if let Some(x) = &other.titles {
        target.titles = Some(x.copy());
    }
    if let Some(x) = &other.bibliography {
        target.bibliography = Some(x.copy());
    }
    if let Some(x) = &other.volume_pages_delimiter {
        target.volume_pages_delimiter = Some(x.copy());
    }
}

impl Config {
    /// Merge another config into this one, with `other` taking precedence:
    /// only fields that `other` sets override, contributor settings merge
    /// field by field, and punctuation-in-quote is kept once either sets it.
    pub fn merge(&mut self, other: &Config)
        ensures
            config_merged(*old(self), *other, *final(self)),
    {
        merge_copy_fields(self, other);
        merge_structured_fields(self, other);
        if other.custom.is_some() {
            self.custom = copy_custom(&other.custom);
        }
        if let Some(other_contributors) = &other.contributors {
            match &mut self.contributors {
                Some(this_contributors) => this_contributors.merge(other_contributors),
                None => self.contributors = Some(other_contributors.clone()),
            }
        }
    }
}

/// The configuration with every option unset.
pub open spec fn unset_config() -> Config {
    Config {
        substitute: None,
        processing: None,
        localize: None,
        multilingual: None,
        contributors: None,
        dates: None,
        titles: None,
        page_range_format: None,
        bibliography: None,
        links: None,
        punctuation_in_quote: false,
        volume_pages_delimiter: None,
        semantic_classes: None,
        strip_periods: None,
        notes: None,
        custom: None,
    }
}

impl Config {
    /// A merged config from a base and an override: the base's settings,
    /// then the override merged into them (as `merge` does).
    pub fn merged(base: &Config, override_config: &Config) -> (r: Config)
        ensures
            exists|mid: Config| config_merged(unset_config(), *base, mid) && config_merged(mid, *override_config, r),
    {
        let mut result = Config {
            substitute: None,
            processing: None,
            localize: None,
            multilingual: None,
            contributors: None,
            dates: None,
            titles: None,
            page_range_format: None,
            bibliography: None,
            links: None,
            punctuation_in_quote: false,
            volume_pages_delimiter: None,
            semantic_classes: None,
            strip_periods: None,
            notes: None,
            custom: None,
        };
        result.merge(base);
        let ghost mid = result;
        result.merge(override_config);
        proof {
            assert(config_merged(unset_config(), *base, mid));
        }
        result
    }
}

} // verus!
