//! Processing modes, sorting, grouping, disambiguation and label settings.

use vstd::prelude::*;
use crate::presets::{is_preset_sort, SortPreset};
use crate::vecs::copy_vec;

verus! {

/// Label style preset conventions.
#[derive(Debug, Clone, Copy, PartialEq, Eq, Structural, Default)]
pub enum LabelPreset {
    /// biblatex alphabetic: up to 4 authors, "+" marker, 2-digit year.
    #[default]
    Alpha,
    /// DIN 1505-2: up to 3 authors, no et-al marker, 2-digit year.
    Din,
    /// American Mathematical Society: as Alpha, with 4 names shown when truncated.
    Ams,
}

/// Resolved label generation parameters after applying preset defaults.
#[derive(Debug, Clone)]
pub struct LabelParams {
    pub single_author_chars: u8,
    pub multi_author_chars: u8,
    pub et_al_min: u8,
    pub et_al_marker: String,
    pub et_al_names: u8,
    pub year_digits: u8,
}

/// Configuration for label citation mode.
#[derive(Debug, Clone, PartialEq, Default)]
pub struct LabelConfig {
    pub preset: LabelPreset,
    pub single_author_chars: Option<u8>,
    pub multi_author_chars: Option<u8>,
    pub et_al_min: Option<u8>,
    pub et_al_marker: Option<String>,
    pub et_al_names: Option<u8>,
    pub year_digits: Option<u8>,
}

/// The value of `o`, or `d` when unset.
pub open spec fn or_default<T>(o: Option<T>, d: T) -> T {
    match o {
        Some(v) => v,
        None => d,
    }
}

/// Preset default for the number of characters from a single author's name.
pub open spec fn preset_single_chars(p: LabelPreset) -> u8 {
    match p {
        LabelPreset::Din => 4,
        _ => 3,
    }
}

/// Preset default for the number of names before truncation.
pub open spec fn preset_et_al_min(p: LabelPreset) -> u8 {
    match p {
        LabelPreset::Din => 3,
        _ => 4,
    }
}

/// Preset default for the truncation marker.
pub open spec fn preset_marker(p: LabelPreset) -> Seq<char> {
    match p {
        LabelPreset::Din => Seq::empty(),
        _ => "+"@,
    }
}

/// Preset default for the number of names shown when truncated.
pub open spec fn preset_et_al_names(p: LabelPreset) -> u8 {
    match p {
        LabelPreset::Ams => 4,
        _ => 3,
    }
}

impl LabelConfig {
    /// Resolve effective parameters by merging preset defaults with overrides.
    pub fn effective_params(&self) -> (r: LabelParams)
        ensures
            r.single_author_chars == or_default(
                self.single_author_chars,
                preset_single_chars(self.preset),
            ),
            r.multi_author_chars == or_default(self.multi_author_chars, 1u8),
            r.et_al_min == or_default(self.et_al_min, preset_et_al_min(self.preset)),
            self.et_al_marker is Some ==> r.et_al_marker@ == self.et_al_marker.unwrap()@,
            self.et_al_marker is None ==> r.et_al_marker@ == preset_marker(self.preset),
            r.et_al_names == or_default(self.et_al_names, preset_et_al_names(self.preset)),
            r.year_digits == or_default(self.year_digits, 2u8),
    {
        let (d_single, d_multi, d_min, d_marker, d_names) = match self.preset {
            LabelPreset::Alpha => (3u8, 1u8, 4u8, String::from_str("+"), 3u8),
            LabelPreset::Ams => (3u8, 1u8, 4u8, String::from_str("+"), 4u8),
            LabelPreset::Din => (4u8, 1u8, 3u8, String::new(), 3u8),
        };
        LabelParams {
            single_author_chars: match self.single_author_chars {
                Some(v) => v,
                None => d_single,
            },
            multi_author_chars: match self.multi_author_chars {
                Some(v) => v,
                None => d_multi,
            },
            et_al_min: match self.et_al_min {
                Some(v) => v,
                None => d_min,
            },
            et_al_marker: match &self.et_al_marker {
                Some(v) => v.clone(),
                None => d_marker,
            },
            et_al_names: match self.et_al_names {
                Some(v) => v,
                None => d_names,
            },
            year_digits: match self.year_digits {
                Some(v) => v,
                None => 2u8,
            },
        }
    }
}

/// Disambiguation settings.
#[derive(Debug, Clone, Copy, PartialEq, Eq, Structural)]
pub struct Disambiguation {
    pub names: bool,
    pub add_givenname: bool,
    pub year_suffix: bool,
}

impl Default for Disambiguation {
    fn default() -> (r: Self)
        ensures
            r == (Disambiguation { names: true, add_givenname: false, year_suffix: false }),
    {
        Disambiguation { names: true, add_givenname: false, year_suffix: false }
    }
}

/// Available sort keys.
#[derive(Debug, Clone, Copy, PartialEq, Eq, Structural, Default)]
pub enum SortKey {
    #[default]
    Author,
    Year,
    Title,
    /// Sort by citation order (for numeric styles).
    CitationNumber,
}

/// A single sort specification.
#[derive(Debug, Clone, Copy, PartialEq, Eq, Structural, Default)]
pub struct SortSpec {
    pub key: SortKey,
    pub ascending: bool,
}

/// Sorting configuration.
#[derive(Debug, PartialEq, Default)]
pub struct Sort {
    /// Shorten name lists for sorting the same as for display.
    pub shorten_names: bool,
    /// Use same substitutions for sorting as for rendering.
    pub render_substitutions: bool,
    /// Sort keys in order.
    pub template: Vec<SortSpec>,
}

/// Equality of sort configurations by contents.
pub open spec fn same_sort(a: Sort, b: Sort) -> bool {
    a.shorten_names == b.shorten_names && a.render_substitutions == b.render_substitutions
        && a.template@ == b.template@
}

impl Clone for Sort {
    fn clone(&self) -> (r: Self)
        ensures
            same_sort(r, *self),
    {
        Sort {
            shorten_names: self.shorten_names,
            render_substitutions: self.render_substitutions,
            template: copy_vec(&self.template),
        }
    }
}

/// Sort configuration: either a preset name or explicit configuration.
#[derive(Debug, Clone, PartialEq)]
pub enum SortEntry {
    /// A named sort preset (e.g., "author-date-title").
    Preset(SortPreset),
    /// Explicit sort configuration.
    Explicit(Sort),
}

/// Equality of sort entries by contents.
pub open spec fn same_sort_entry(a: SortEntry, b: SortEntry) -> bool {
    match (a, b) {
        (SortEntry::Preset(x), SortEntry::Preset(y)) => x == y,
        (SortEntry::Explicit(x), SortEntry::Explicit(y)) => same_sort(x, y),
        _ => false,
    }
}

impl SortEntry {
    /// Resolve this entry to a concrete `Sort`.
    pub fn resolve(&self) -> (r: Sort)
        ensures
            match self {
                SortEntry::Preset(p) => is_preset_sort(r, *p),
                SortEntry::Explicit(s) => same_sort(r, *s),
            },
    {
        match self {
            SortEntry::Preset(preset) => preset.sort(),
            SortEntry::Explicit(sort) => sort.clone(),
        }
    }

    /// A copy with the same contents.
    pub fn copy(&self) -> (r: Self)
        ensures
            same_sort_entry(r, *self),
    {
        match self {
            SortEntry::Preset(p) => SortEntry::Preset(*p),
            SortEntry::Explicit(s) => SortEntry::Explicit(s.clone()),
        }
    }
}

/// Grouping configuration for bibliography.
#[derive(Debug, PartialEq)]
pub struct Group {
    pub template: Vec<SortKey>,
}

/// Equality of groupings by contents.
pub open spec fn same_group(a: Group, b: Group) -> bool {
    a.template@ == b.template@
}

impl Clone for Group {
    fn clone(&self) -> (r: Self)
        ensures
            same_group(r, *self),
    {
        Group { template: copy_vec(&self.template) }
    }
}

/// Custom processing configuration.
#[derive(Debug, Clone, PartialEq, Default)]
pub struct ProcessingCustom {
    pub sort: Option<SortEntry>,
    pub group: Option<Group>,
    pub disambiguate: Option<Disambiguation>,
}

/// Equality of custom processing configurations by contents.
pub open spec fn same_processing_custom(a: ProcessingCustom, b: ProcessingCustom) -> bool {
    &&& (a.sort is Some <==> b.sort is Some)
    &&& (a.sort is Some ==> same_sort_entry(a.sort.unwrap(), b.sort.unwrap()))
    &&& (a.group is Some <==> b.group is Some)
    &&& (a.group is Some ==> same_group(a.group.unwrap(), b.group.unwrap()))
    &&& a.disambiguate == b.disambiguate
}

impl ProcessingCustom {
    /// A copy with the same contents.
    pub fn copy(&self) -> (r: Self)
        ensures
            same_processing_custom(r, *self),
    {
        ProcessingCustom {
            sort: match &self.sort {
                Some(s) => Some(s.copy()),
                None => None,
            },
            group: match &self.group {
                Some(g) => Some(g.clone()),
                None => None,
            },
            disambiguate: self.disambiguate,
        }
    }
}

/// Processing mode for citation/bibliography generation.
#[derive(Debug, Clone, PartialEq, Default)]
pub enum Processing {
    #[default]
    AuthorDate,
    Numeric,
    Note,
    Label(LabelConfig),
    Custom(ProcessingCustom),
}

/// Whether `s` is an explicit ascending sort on exactly `keys`, without
/// shortened names or rendered substitutions.
pub open spec fn is_plain_sort(e: Option<SortEntry>, keys: Seq<SortKey>) -> bool {
    e matches Some(SortEntry::Explicit(s)) && !s.shorten_names && !s.render_substitutions
        && s.template@ == keys.map_values(|k: SortKey| SortSpec { key: k, ascending: true })
}

impl Processing {
    /// Get the effective configuration for this processing mode.
    pub fn config(&self) -> (r: ProcessingCustom)
        ensures
            match self {
                Processing::AuthorDate => {
                    &&& is_plain_sort(r.sort, seq![SortKey::Author, SortKey::Year])
                    &&& r.group matches Some(g) && g.template@ == seq![SortKey::Author, SortKey::Year]
                    &&& r.disambiguate == Some(
                        Disambiguation { names: true, add_givenname: true, year_suffix: true },
                    )
                },
                Processing::Numeric => r.sort is None && r.group is None && r.disambiguate is None,
                Processing::Note => r.sort is None && r.group is None && r.disambiguate == Some(
                    Disambiguation { names: true, add_givenname: false, year_suffix: false },
                ),
                Processing::Label(_) => r.sort is None && r.group is None && r.disambiguate
                    == Some(Disambiguation { names: false, add_givenname: false, year_suffix: true }),
                Processing::Custom(c) => same_processing_custom(r, *c),
            },
    {
        match self {
            Processing::AuthorDate => {
                let mut template: Vec<SortSpec> = Vec::new();
                template.push(SortSpec { key: SortKey::Author, ascending: true });
                template.push(SortSpec { key: SortKey::Year, ascending: true });
                let mut keys: Vec<SortKey> = Vec::new();
                keys.push(SortKey::Author);
                keys.push(SortKey::Year);
                let r = ProcessingCustom {
                    sort: Some(
                        SortEntry::Explicit(
                            Sort { shorten_names: false, render_substitutions: false, template },
                        ),
                    ),
                    group: Some(Group { template: keys }),
                    disambiguate: Some(
                        Disambiguation { names: true, add_givenname: true, year_suffix: true },
                    ),
                };
                proof {
                    assert(r.group.unwrap().template@ =~= seq![SortKey::Author, SortKey::Year]);
                    let ks = seq![SortKey::Author, SortKey::Year];
                    assert(ks.map_values(|k: SortKey| SortSpec { key: k, ascending: true })
                        =~= seq![
                        SortSpec { key: SortKey::Author, ascending: true },
                        SortSpec { key: SortKey::Year, ascending: true },
                    ]);
                    assert(r.sort.unwrap()->Explicit_0.template@ =~= seq![
                        SortSpec { key: SortKey::Author, ascending: true },
                        SortSpec { key: SortKey::Year, ascending: true },
                    ]);
                    assert(is_plain_sort(r.sort, seq![SortKey::Author, SortKey::Year]));
                }
                r
            },
            Processing::Numeric => ProcessingCustom { sort: None, group: None, disambiguate: None },
            Processing::Note => ProcessingCustom {
                sort: None,
                group: None,
                disambiguate: Some(
                    Disambiguation { names: true, add_givenname: false, year_suffix: false },
                ),
            },
            Processing::Label(_) => ProcessingCustom {
                sort: None,
                group: None,
                disambiguate: Some(
                    Disambiguation { names: false, add_givenname: false, year_suffix: true },
                ),
            },
            Processing::Custom(custom) => custom.copy(),
        }
    }
}


impl LabelConfig {
    /// A copy with the same contents.
    pub fn copy(&self) -> (r: Self)
        ensures
            r == *self,
    {
        LabelConfig {
            preset: self.preset,
            single_author_chars: self.single_author_chars,
            multi_author_chars: self.multi_author_chars,
            et_al_min: self.et_al_min,
            et_al_marker: self.et_al_marker.clone(),
            et_al_names: self.et_al_names,
            year_digits: self.year_digits,
        }
    }
}

/// Equality of processing modes by contents.
pub open spec fn same_processing(a: Processing, b: Processing) -> bool {
    match (a, b) {
        (Processing::Custom(x), Processing::Custom(y)) => same_processing_custom(x, y),
        (Processing::Custom(_), _) => false,
        (_, Processing::Custom(_)) => false,
        _ => a == b,
    }
}

impl Processing {
    /// A copy with the same contents.
    pub fn copy(&self) -> (r: Self)
        ensures
            same_processing(r, *self),
    {
        match self {
            Processing::AuthorDate => Processing::AuthorDate,
            Processing::Numeric => Processing::Numeric,
            Processing::Note => Processing::Note,
            Processing::Label(c) => Processing::Label(c.copy()),
            Processing::Custom(c) => Processing::Custom(c.copy()),
        }
    }
}

} // verus!
