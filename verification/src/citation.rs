//! Citation input model: citations referencing bibliography entries, with
//! locators, prefixes, suffixes and mode information.

use vstd::prelude::*;

verus! {

/// Citation mode for author-date styles.
#[derive(Debug, Clone, Copy, PartialEq, Eq, Structural, Default)]
pub enum CitationMode {
    /// Author inline in text: "Smith (2020) argues...".
    Integral,
    /// Author in parentheses: "(Smith, 2020)".
    #[default]
    NonIntegral,
}

/// Position of a citation in the document flow.
#[derive(Debug, Clone, Copy, PartialEq, Eq, Structural)]
pub enum Position {
    /// First citation of an item.
    First,
    /// Subsequent citation of an item (non-consecutive).
    Subsequent,
    /// Same item cited immediately before, no locator on either.
    Ibid,
    /// Same item cited immediately before, with different locator.
    IbidWithLocator,
}

/// Locator types for pinpoint citations.
#[derive(Debug, Clone, Copy, PartialEq, Eq, Structural, Hash, Default)]
pub enum LocatorType {
    Book,
    Chapter,
    Column,
    Figure,
    Folio,
    Line,
    Note,
    Number,
    Opus,
    #[default]
    Page,
    Paragraph,
    Part,
    Section,
    SubVerbo,
    Verse,
    Volume,
    Issue,
}

/// A single citation item referencing a bibliography entry.
#[derive(Debug, Clone, Default)]
pub struct CitationItem {
    /// The reference ID (citekey).
    pub id: String,
    /// Locator type (page, chapter, etc.).
    pub label: Option<LocatorType>,
    /// Locator value (e.g., "42-45" for pages).
    pub locator: Option<String>,
    /// Prefix text before this item.
    pub prefix: Option<String>,
    /// Suffix text after this item.
    pub suffix: Option<String>,
}

/// A citation containing one or more references.
#[derive(Debug, Clone, Default)]
pub struct Citation {
    /// The citation ID (optional, for tracking).
    pub id: Option<String>,
    /// Note number for footnote/endnote styles.
    pub note_number: Option<u32>,
    /// Integral (narrative) or non-integral (parenthetical).
    pub mode: CitationMode,
    /// Position of this citation in the document flow.
    pub position: Option<Position>,
    /// Suppress the author name across all items in this citation.
    pub suppress_author: bool,
    /// Prefix text before all citation items.
    pub prefix: Option<String>,
    /// Suffix text after all citation items.
    pub suffix: Option<String>,
    /// The citation items (references being cited).
    pub items: Vec<CitationItem>,
}

/// A list of citations to process.
pub type Citations = Vec<Citation>;

/// Whether `c` has default settings and exactly one item citing `id` with no
/// locator, prefix or suffix.
pub open spec fn is_simple_citation(c: Citation, id: Seq<char>) -> bool {
    &&& c.id is None
    &&& c.note_number is None
    &&& c.mode == CitationMode::NonIntegral
    &&& c.position is None
    &&& !c.suppress_author
    &&& c.prefix is None
    &&& c.suffix is None
    &&& c.items@.len() == 1
    &&& c.items@[0].id@ == id
    &&& c.items@[0].label is None
    &&& c.items@[0].locator is None
    &&& c.items@[0].prefix is None
    &&& c.items@[0].suffix is None
}

impl Citation {
    /// Create a simple citation for a single ID.
    pub fn simple(id: &str) -> (r: Self)
        ensures
            is_simple_citation(r, id@),
    {
        let mut items: Vec<CitationItem> = Vec::new();
        items.push(
            CitationItem {
                id: String::from_str(id),
                label: None,
                locator: None,
                prefix: None,
                suffix: None,
            },
        );
        Citation {
            id: None,
            note_number: None,
            mode: CitationMode::NonIntegral,
            position: None,
            suppress_author: false,
            prefix: None,
            suffix: None,
            items,
        }
    }
}

/// Whether the mode is the default (non-integral) one.
pub fn is_default_mode(mode: &CitationMode) -> (r: bool)
    ensures
        r == (*mode == CitationMode::NonIntegral),
{
    *mode == CitationMode::NonIntegral
}

/// Whether a flag is unset.
pub fn is_false(b: &bool) -> (r: bool)
    ensures
        r == !*b,
{
    !*b
}

} // verus!
