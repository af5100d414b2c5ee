//! Bibliography-specific configuration.

use vstd::prelude::*;
use crate::options::custom::{copy_custom, custom_view, JsonValue};

verus! {

/// Bibliography-specific configuration.
#[derive(Debug, Clone, PartialEq, Default)]
pub struct BibliographyConfig {
    /// String to substitute for repeating authors (e.g., "———").
    pub subsequent_author_substitute: Option<String>,
    /// Rule for when to apply the substitute.
    pub subsequent_author_substitute_rule: Option<SubsequentAuthorSubstituteRule>,
    /// Whether to use a hanging indent.
    pub hanging_indent: Option<bool>,
    /// Suffix appended to each bibliography entry (e.g., ".").
    pub entry_suffix: Option<String>,
    /// Separator between bibliography components (e.g., ". ").
    pub separator: Option<String>,
    /// Whether to suppress the trailing period after URLs/DOIs.
    pub suppress_period_after_url: bool,
    /// Free-form extension values, keyed by name.
    pub custom: Option<Vec<(String, JsonValue)>>,
}

/// Whether two bibliography configurations have the same contents.
pub open spec fn same_bibliography(a: BibliographyConfig, b: BibliographyConfig) -> bool {
    &&& BibliographyConfig { custom: None, ..a } == BibliographyConfig { custom: None, ..b }
    &&& custom_view(a.custom) == custom_view(b.custom)
}

/// Rules for subsequent author substitution.
#[derive(Debug, Clone, Copy, PartialEq, Eq, Structural, Default)]
pub enum SubsequentAuthorSubstituteRule {
    /// Substitute only if all authors match.
    #[default]
    CompleteAll,
    /// Substitute each matching name individually.
    CompleteEach,
    /// Substitute each matching name until the first mismatch.
    PartialEach,
    /// Substitute only the first name if it matches.
    PartialFirst,
}


impl BibliographyConfig {
    /// A copy with the same contents.
    pub fn copy(&self) -> (r: Self)
        ensures
            same_bibliography(r, *self),
    {
        BibliographyConfig {
            subsequent_author_substitute: self.subsequent_author_substitute.clone(),
            subsequent_author_substitute_rule: self.subsequent_author_substitute_rule,
            hanging_indent: self.hanging_indent,
            entry_suffix: self.entry_suffix.clone(),
            separator: self.separator.clone(),
            suppress_period_after_url: self.suppress_period_after_url,
            custom: copy_custom(&self.custom),
        }
    }
}

} // verus!
