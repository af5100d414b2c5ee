//! Contributor (name list) formatting options.

use vstd::prelude::*;

verus! {

/// Conjunction between the last two names.
#[derive(Debug, Clone, Copy, PartialEq, Eq, Structural)]
pub enum AndOptions {
    Text,
    Symbol,
    /// No conjunction.
    Omitted,
}

/// Which names are shown family-first.
#[derive(Debug, Clone, Copy, PartialEq, Eq, Structural)]
pub enum DisplayAsSort {
    All,
    First,
    /// No name is shown family-first.
    Off,
}

/// When the delimiter precedes the last name (or "et al.").
#[derive(Debug, Clone, Copy, PartialEq, Eq, Structural)]
pub enum DelimiterPrecedesLast {
    Contextual,
    AfterInvertedName,
    Always,
    Never,
}

/// Handling of non-dropping particles ("van", "de").
#[derive(Debug, Clone, Copy, PartialEq, Eq, Structural)]
pub enum DemoteNonDroppingParticle {
    Never,
    SortOnly,
    DisplayAndSort,
}

/// Term used when a name list is shortened.
#[derive(Debug, Clone, Copy, PartialEq, Eq, Structural)]
pub enum AndOtherOptions {
    EtAl,
    Text,
}

/// Name-list shortening (et al.) settings.
#[derive(Debug, Clone, Copy, PartialEq, Eq, Structural)]
pub struct ShortenListOptions {
    /// Minimum number of names that triggers shortening.
    pub min: u8,
    /// Number of names shown when shortened.
    pub use_first: u8,
    /// Number of trailing names shown after the ellipsis, if any.
    pub use_last: Option<u8>,
    /// Term that marks the omission.
    pub and_others: AndOtherOptions,
    /// Whether the delimiter precedes the last name.
    pub delimiter_precedes_last: DelimiterPrecedesLast,
}

/// The default shortening: four or more names show the first one.
pub open spec fn default_shorten() -> ShortenListOptions {
    ShortenListOptions {
            min: 4,
            use_first: 1,
            use_last: None,
            and_others: AndOtherOptions::EtAl,
            delimiter_precedes_last: DelimiterPrecedesLast::Contextual,
        }
}

impl Default for ShortenListOptions {
    fn default() -> (r: Self)
        ensures
            r == default_shorten(),
    {
        ShortenListOptions {
            min: 4,
            use_first: 1,
            use_last: None,
            and_others: AndOtherOptions::EtAl,
            delimiter_precedes_last: DelimiterPrecedesLast::Contextual,
        }
    }
}

/// Contributor formatting defaults.
#[derive(Debug, PartialEq)]
pub struct ContributorConfig {
    pub display_as_sort: Option<DisplayAsSort>,
    pub and: Option<AndOptions>,
    pub delimiter: Option<String>,
    pub delimiter_precedes_last: Option<DelimiterPrecedesLast>,
    pub delimiter_precedes_et_al: Option<DelimiterPrecedesLast>,
    pub initialize_with: Option<String>,
    pub initialize_with_hyphen: Option<bool>,
    pub sort_separator: Option<String>,
    pub demote_non_dropping_particle: Option<DemoteNonDroppingParticle>,
    pub shorten: Option<ShortenListOptions>,
}

/// The configuration with every field unset.
pub open spec fn empty_contributor_config() -> ContributorConfig {
    ContributorConfig {
        display_as_sort: None,
        and: None,
        delimiter: None,
        delimiter_precedes_last: None,
        delimiter_precedes_et_al: None,
        initialize_with: None,
        initialize_with_hyphen: None,
        sort_separator: None,
        demote_non_dropping_particle: None,
        shorten: None,
    }
}

/// `b` where it is set, else `a`.
pub open spec fn or_else<T>(a: Option<T>, b: Option<T>) -> Option<T> {
    if b is Some { b } else { a }
}

/// `base` with every field that `other` sets taken from `other`.
pub open spec fn merged_contributor_config(
    base: ContributorConfig,
    other: ContributorConfig,
) -> ContributorConfig {
    ContributorConfig {
        display_as_sort: or_else(base.display_as_sort, other.display_as_sort),
        and: or_else(base.and, other.and),
        delimiter: or_else(base.delimiter, other.delimiter),
        delimiter_precedes_last: or_else(base.delimiter_precedes_last, other.delimiter_precedes_last),
        delimiter_precedes_et_al: or_else(
            base.delimiter_precedes_et_al,
            other.delimiter_precedes_et_al,
        ),
        initialize_with: or_else(base.initialize_with, other.initialize_with),
        initialize_with_hyphen: or_else(base.initialize_with_hyphen, other.initialize_with_hyphen),
        sort_separator: or_else(base.sort_separator, other.sort_separator),
        demote_non_dropping_particle: or_else(
            base.demote_non_dropping_particle,
            other.demote_non_dropping_particle,
        ),
        shorten: or_else(base.shorten, other.shorten),
    }
}

impl Default for ContributorConfig {
    fn default() -> (r: Self)
        ensures
            r == empty_contributor_config(),
    {
        ContributorConfig {
            display_as_sort: None,
            and: None,
            delimiter: None,
            delimiter_precedes_last: None,
            delimiter_precedes_et_al: None,
            initialize_with: None,
            initialize_with_hyphen: None,
            sort_separator: None,
            demote_non_dropping_particle: None,
            shorten: None,
        }
    }
}

impl Clone for ContributorConfig {
    fn clone(&self) -> (r: Self)
        ensures
            r == *self,
    {
        ContributorConfig {
            display_as_sort: self.display_as_sort,
            and: self.and,
            delimiter: self.delimiter.clone(),
            delimiter_precedes_last: self.delimiter_precedes_last,
            delimiter_precedes_et_al: self.delimiter_precedes_et_al,
            initialize_with: self.initialize_with.clone(),
            initialize_with_hyphen: self.initialize_with_hyphen,
            sort_separator: self.sort_separator.clone(),
            demote_non_dropping_particle: self.demote_non_dropping_particle,
            shorten: self.shorten,
        }
    }
}

impl ContributorConfig {
    /// Merge another configuration into this one, with `other` taking precedence.
    pub fn merge(&mut self, other: &ContributorConfig)
        ensures
            *final(self) == merged_contributor_config(*old(self), *other),
    {
        if other.display_as_sort.is_some() {
            self.display_as_sort = other.display_as_sort;
        }
        if other.and.is_some() {
            self.and = other.and;
        }
        if other.delimiter.is_some() {
            self.delimiter = other.delimiter.clone();
        }
        if other.delimiter_precedes_last.is_some() {
            self.delimiter_precedes_last = other.delimiter_precedes_last;
        }
        if other.delimiter_precedes_et_al.is_some() {
            self.delimiter_precedes_et_al = other.delimiter_precedes_et_al;
        }
        if other.initialize_with.is_some() {
            self.initialize_with = other.initialize_with.clone();
        }
        if other.initialize_with_hyphen.is_some() {
            self.initialize_with_hyphen = other.initialize_with_hyphen;
        }
        if other.sort_separator.is_some() {
            self.sort_separator = other.sort_separator.clone();
        }
        if other.demote_non_dropping_particle.is_some() {
            self.demote_non_dropping_particle = other.demote_non_dropping_particle;
        }
        if other.shorten.is_some() {
            self.shorten = other.shorten;
        }
    }

    /// Whether every field is unset (the default configuration).
    pub fn is_empty(&self) -> (r: bool)
        ensures
            r == (*self == empty_contributor_config()),
    {
        self.display_as_sort.is_none() && self.and.is_none() && self.delimiter.is_none()
            && self.delimiter_precedes_last.is_none() && self.delimiter_precedes_et_al.is_none()
            && self.initialize_with.is_none() && self.initialize_with_hyphen.is_none()
            && self.sort_separator.is_none() && self.demote_non_dropping_particle.is_none()
            && self.shorten.is_none()
    }
}

} // verus!
