//! Template components for CSLN styles.
//!
//! A template is a list of typed instructions (contributor, date, title,
//! number, variable, list, term). Each carries `Rendering` options and may
//! carry type-specific overrides, keyed by a `TypeSelector`.
//!
//! Overrides are held as an association list of `(selector, override)` pairs
//! whose selectors are pairwise distinct; `insert` replaces an existing entry.

use vstd::prelude::*;
use crate::text::{is_ws, lead_ws, trail_ws, 
    ascii_lower_seq, eq_ignore_ascii_case, replace_char, replace_char_spec, str_eq, trim, trim_spec,
};
use crate::locale::{GeneralTerm, TermForm};
use crate::options::{AndOptions, LinksConfig, ShortenListOptions};

verus! {

/// Punctuation to wrap a component in.
#[derive(Debug, Clone, Copy, PartialEq, Eq, Structural)]
pub enum WrapPunctuation {
    Parentheses,
    Brackets,
    Quotes,
    /// No wrapping.
    Plain,
}

impl Default for WrapPunctuation {
    fn default() -> (r: Self)
        ensures
            r == WrapPunctuation::Plain,
    {
        WrapPunctuation::Plain
    }
}

/// Rendering instructions applied to template components.
#[derive(Debug, PartialEq)]
pub struct Rendering {
    pub emph: Option<bool>,
    pub quote: Option<bool>,
    pub strong: Option<bool>,
    pub small_caps: Option<bool>,
    pub prefix: Option<String>,
    pub suffix: Option<String>,
    pub inner_prefix: Option<String>,
    pub inner_suffix: Option<String>,
    pub wrap: Option<WrapPunctuation>,
    pub suppress: Option<bool>,
    pub initialize_with: Option<String>,
    pub strip_periods: Option<bool>,
}

/// The rendering with every field unset.
pub open spec fn empty_rendering() -> Rendering {
    Rendering {
        emph: None,
        quote: None,
        strong: None,
        small_caps: None,
        prefix: None,
        suffix: None,
        inner_prefix: None,
        inner_suffix: None,
        wrap: None,
        suppress: None,
        initialize_with: None,
        strip_periods: None,
    }
}

/// `b` where it is set, else `a`.
pub open spec fn pick<T>(a: Option<T>, b: Option<T>) -> Option<T> {
    if b is Some { b } else { a }
}

/// `base` with every field that `other` sets taken from `other`.
pub open spec fn merged_rendering(base: Rendering, other: Rendering) -> Rendering {
    Rendering {
        emph: pick(base.emph, other.emph),
        quote: pick(base.quote, other.quote),
        strong: pick(base.strong, other.strong),
        small_caps: pick(base.small_caps, other.small_caps),
        prefix: pick(base.prefix, other.prefix),
        suffix: pick(base.suffix, other.suffix),
        inner_prefix: pick(base.inner_prefix, other.inner_prefix),
        inner_suffix: pick(base.inner_suffix, other.inner_suffix),
        wrap: pick(base.wrap, other.wrap),
        suppress: pick(base.suppress, other.suppress),
        initialize_with: pick(base.initialize_with, other.initialize_with),
        strip_periods: pick(base.strip_periods, other.strip_periods),
    }
}

impl Default for Rendering {
    fn default() -> (r: Self)
        ensures
            r == empty_rendering(),
    {
        Rendering {
            emph: None,
            quote: None,
            strong: None,
            small_caps: None,
            prefix: None,
            suffix: None,
            inner_prefix: None,
            inner_suffix: None,
            wrap: None,
            suppress: None,
            initialize_with: None,
            strip_periods: None,
        }
    }
}

impl Clone for Rendering {
    fn clone(&self) -> (r: Self)
        ensures
            r == *self,
    {
        Rendering {
            emph: self.emph,
            quote: self.quote,
            strong: self.strong,
            small_caps: self.small_caps,
            prefix: self.prefix.clone(),
            suffix: self.suffix.clone(),
            inner_prefix: self.inner_prefix.clone(),
            inner_suffix: self.inner_suffix.clone(),
            wrap: self.wrap,
            suppress: self.suppress,
            initialize_with: self.initialize_with.clone(),
            strip_periods: self.strip_periods,
        }
    }
}

impl Rendering {
    /// Merge another rendering into this one, with the other taking precedence.
    pub fn merge(&mut self, other: &Rendering)
        ensures
            *final(self) == merged_rendering(*old(self), *other),
    {
        if other.emph.is_some() {
            self.emph = other.emph;
        }
        if other.quote.is_some() {
            self.quote = other.quote;
        }
        if other.strong.is_some() {
            self.strong = other.strong;
        }
        if other.small_caps.is_some() {
            self.small_caps = other.small_caps;
        }
        if other.prefix.is_some() {
            self.prefix = other.prefix.clone();
        }
        if other.suffix.is_some() {
            self.suffix = other.suffix.clone();
        }
        if other.inner_prefix.is_some() {
            self.inner_prefix = other.inner_prefix.clone();
        }
        if other.inner_suffix.is_some() {
            self.inner_suffix = other.inner_suffix.clone();
        }
        if other.wrap.is_some() {
            self.wrap = other.wrap;
        }
        if other.suppress.is_some() {
            self.suppress = other.suppress;
        }
        if other.initialize_with.is_some() {
            self.initialize_with = other.initialize_with.clone();
        }
        if other.strip_periods.is_some() {
            self.strip_periods = other.strip_periods;
        }
    }
}

/// Selector for reference types in overrides: one type name or a list.
#[derive(Debug, Clone, PartialEq, Eq, Hash)]
pub enum TypeSelector {
    Single(String),
    Multiple(Vec<String>),
}

/// Whether the selector entry `s` matches the reference type `r`: equal,
/// equal once underscores become hyphens, the wildcard "all", or "default"
/// in the "default" context.
pub open spec fn selector_entry_matches(s: Seq<char>, r: Seq<char>) -> bool {
    ||| s == r
    ||| replace_char_spec(s, '_', '-') == replace_char_spec(r, '_', '-')
    ||| s == "all"@
    ||| (s == "default"@ && r == "default"@)
}

/// Whether `sel` matches the reference type `r`.
pub open spec fn selector_matches(sel: TypeSelector, r: Seq<char>) -> bool {
    match sel {
        TypeSelector::Single(s) => selector_entry_matches(s@, r),
        TypeSelector::Multiple(ts) => any_selector_entry_matches(ts@, r),
    }
}

/// Whether some entry of `ts` matches the reference type `r`.
pub open spec fn any_selector_entry_matches(ts: Seq<String>, r: Seq<char>) -> bool {
    exists|i: int| 0 <= i < ts.len() && selector_entry_matches(#[trigger] ts[i]@, r)
}

/// Element-wise equality of two string sequences by contents.
pub open spec fn same_strings(a: Seq<String>, b: Seq<String>) -> bool {
    a.len() == b.len() && forall|i: int| 0 <= i < a.len() ==> #[trigger] a[i]@ == b[i]@
}

/// Equality of selectors by their string contents.
pub open spec fn same_selector(a: TypeSelector, b: TypeSelector) -> bool {
    match (a, b) {
        (TypeSelector::Single(x), TypeSelector::Single(y)) => x@ == y@,
        (TypeSelector::Multiple(xs), TypeSelector::Multiple(ys)) => same_strings(xs@, ys@),
        _ => false,
    }
}

fn selector_entry_eq(s: &str, ref_type: &str, normalized_ref: &String) -> (r: bool)
    requires
        normalized_ref@ == replace_char_spec(ref_type@, '_', '-'),
    ensures
        r == selector_entry_matches(s@, ref_type@),
{
    if str_eq(s, ref_type) {
        return true;
    }
    let ns = replace_char(s, '_', '-');
    if str_eq(ns.as_str(), normalized_ref.as_str()) {
        return true;
    }
    if str_eq(s, "all") {
        return true;
    }
    str_eq(s, "default") && str_eq(ref_type, "default")
}

impl TypeSelector {
    /// Check if this selector matches a reference type.
    ///
    /// Type names are compared after normalizing underscores to hyphens, so
    /// "legal_case" and "legal-case" are equivalent.
    pub fn matches(&self, ref_type: &str) -> (r: bool)
        ensures
            r == selector_matches(*self, ref_type@),
    {
        let normalized_ref = replace_char(ref_type, '_', '-');
        match self {
            TypeSelector::Single(s) => selector_entry_eq(s.as_str(), ref_type, &normalized_ref),
            TypeSelector::Multiple(types) => {
                let mut i: usize = 0;
                while i < types.len()
                    invariant
                        *self == TypeSelector::Multiple(*types),
                        i <= types@.len(),
                        normalized_ref@ == replace_char_spec(ref_type@, '_', '-'),
                        forall|k: int|
                            0 <= k < i ==> !selector_entry_matches(#[trigger] types@[k]@, ref_type@),
                    decreases types@.len() - i,
                {
                    if selector_entry_eq(types[i].as_str(), ref_type, &normalized_ref) {
                        assert(selector_entry_matches(types@[i as int]@, ref_type@));
                        return true;
                    }
                    i = i + 1;
                }
                false
            },
        }
    }

    /// Equality by string contents.
    pub fn same_as(&self, other: &TypeSelector) -> (r: bool)
        ensures
            r == same_selector(*self, *other),
    {
        match (self, other) {
            (TypeSelector::Single(x), TypeSelector::Single(y)) => str_eq(x.as_str(), y.as_str()),
            (TypeSelector::Multiple(xs), TypeSelector::Multiple(ys)) => {
                if xs.len() != ys.len() {
                    return false;
                }
                let mut i: usize = 0;
                while i < xs.len()
                    invariant
                        *self == TypeSelector::Multiple(*xs),
                        *other == TypeSelector::Multiple(*ys),
                        i <= xs@.len(),
                        xs@.len() == ys@.len(),
                        forall|k: int| 0 <= k < i ==> #[trigger] xs@[k]@ == ys@[k]@,
                    decreases xs@.len() - i,
                {
                    if !str_eq(xs[i].as_str(), ys[i].as_str()) {
                        assert(xs@[i as int]@ != ys@[i as int]@);
                        return false;
                    }
                    i = i + 1;
                }
                true
            },
            _ => false,
        }
    }
}

/// Type-specific rendering overrides for components.
#[derive(Debug)]
pub enum ComponentOverride {
    /// A full component replacement for specific reference types.
    Component(Box<TemplateComponent>),
    /// Simple rendering options override.
    Rendering(Rendering),
}

/// Overrides keyed by type selector; each selector occurs at most once.
pub type Overrides = Vec<(TypeSelector, ComponentOverride)>;

/// A template component - the building blocks of citation/bibliography templates.
#[derive(Debug)]
pub enum TemplateComponent {
    Contributor(TemplateContributor),
    Date(TemplateDate),
    Title(TemplateTitle),
    Number(TemplateNumber),
    Variable(TemplateVariable),
    List(TemplateList),
    Term(TemplateTerm),
}

/// Configuration for role labels (e.g., "eds.", "trans.").
#[derive(Debug, Clone, PartialEq)]
pub struct RoleLabel {
    /// Locale term key for the role (e.g., "editor", "translator").
    pub term: String,
    pub form: RoleLabelForm,
    pub placement: LabelPlacement,
}

/// Term form for role labels.
#[derive(Debug, Clone, Copy, PartialEq, Eq, Structural, Default)]
pub enum RoleLabelForm {
    #[default]
    Short,
    Long,
}

/// Label placement relative to contributor names.
#[derive(Debug, Clone, Copy, PartialEq, Eq, Structural, Default)]
pub enum LabelPlacement {
    Prefix,
    #[default]
    Suffix,
}

/// A contributor component for rendering names.
#[derive(Debug)]
pub struct TemplateContributor {
    pub contributor: ContributorRole,
    pub form: ContributorForm,
    pub label: Option<RoleLabel>,
    pub name_order: Option<NameOrder>,
    pub delimiter: Option<String>,
    pub sort_separator: Option<String>,
    pub shorten: Option<ShortenListOptions>,
    pub and: Option<AndOptions>,
    pub rendering: Rendering,
    pub links: Option<LinksConfig>,
    pub overrides: Option<Overrides>,
}

/// Name display order.
#[derive(Debug, Clone, Copy, PartialEq, Eq, Structural, Default)]
pub enum NameOrder {
    GivenFirst,
    #[default]
    FamilyFirst,
}

/// How to render contributor names.
#[derive(Debug, Clone, Copy, PartialEq, Eq, Structural, Default)]
pub enum ContributorForm {
    #[default]
    Long,
    Short,
    FamilyOnly,
    Verb,
    VerbShort,
}

/// Contributor roles.
#[derive(Debug, Clone, Copy, PartialEq, Eq, Structural, Hash, Default)]
pub enum ContributorRole {
    #[default]
    Author,
    Editor,
    Translator,
    Director,
    Publisher,
    Recipient,
    Interviewer,
    Interviewee,
    Inventor,
    Counsel,
    Composer,
    CollectionEditor,
    ContainerAuthor,
    EditorialDirector,
    Illustrator,
    OriginalAuthor,
    ReviewedAuthor,
}

/// The CSL name of a contributor role.
pub open spec fn role_str(r: ContributorRole) -> Seq<char> {
    match r {
        ContributorRole::Author => "author"@,
        ContributorRole::Editor => "editor"@,
        ContributorRole::Translator => "translator"@,
        ContributorRole::Director => "director"@,
        ContributorRole::Publisher => "publisher"@,
        ContributorRole::Recipient => "recipient"@,
        ContributorRole::Interviewer => "interviewer"@,
        ContributorRole::Interviewee => "interviewee"@,
        ContributorRole::Inventor => "inventor"@,
        ContributorRole::Counsel => "counsel"@,
        ContributorRole::Composer => "composer"@,
        ContributorRole::CollectionEditor => "collection-editor"@,
        ContributorRole::ContainerAuthor => "container-author"@,
        ContributorRole::EditorialDirector => "editorial-director"@,
        ContributorRole::Illustrator => "illustrator"@,
        ContributorRole::OriginalAuthor => "original-author"@,
        ContributorRole::ReviewedAuthor => "reviewed-author"@,
    }
}

impl ContributorRole {
    /// Returns the string value associated with this variant.
    pub fn as_str(&self) -> (r: &'static str)
        ensures
            r@ == role_str(*self),
    {
        match self {
            ContributorRole::Author => "author",
            ContributorRole::Editor => "editor",
            ContributorRole::Translator => "translator",
            ContributorRole::Director => "director",
            ContributorRole::Publisher => "publisher",
            ContributorRole::Recipient => "recipient",
            ContributorRole::Interviewer => "interviewer",
            ContributorRole::Interviewee => "interviewee",
            ContributorRole::Inventor => "inventor",
            ContributorRole::Counsel => "counsel",
            ContributorRole::Composer => "composer",
            ContributorRole::CollectionEditor => "collection-editor",
            ContributorRole::ContainerAuthor => "container-author",
            ContributorRole::EditorialDirector => "editorial-director",
            ContributorRole::Illustrator => "illustrator",
            ContributorRole::OriginalAuthor => "original-author",
            ContributorRole::ReviewedAuthor => "reviewed-author",
        }
    }
}

/// A date component for rendering dates.
#[derive(Debug)]
pub struct TemplateDate {
    pub date: DateVariable,
    pub form: DateForm,
    /// Fallback components if the primary date is missing.
    pub fallback: Option<Vec<TemplateComponent>>,
    pub rendering: Rendering,
    pub links: Option<LinksConfig>,
    pub overrides: Option<Overrides>,
}

/// Date variables.
#[derive(Debug, Clone, Copy, PartialEq, Eq, Structural, Default)]
pub enum DateVariable {
    #[default]
    Issued,
    Accessed,
    OriginalPublished,
    Submitted,
    EventDate,
}

/// Date rendering forms.
#[derive(Debug, Clone, Copy, PartialEq, Eq, Structural, Default)]
pub enum DateForm {
    #[default]
    Year,
    YearMonth,
    Full,
    MonthDay,
    YearMonthDay,
    DayMonthAbbrYear,
}

/// A title component.
#[derive(Debug)]
pub struct TemplateTitle {
    pub title: TitleType,
    pub form: Option<TitleForm>,
    /// Suppress unless the reference needs disambiguation.
    pub disambiguate_only: Option<bool>,
    pub rendering: Rendering,
    pub links: Option<LinksConfig>,
    pub overrides: Option<Overrides>,
}

/// Types of titles.
#[derive(Debug, Clone, Copy, PartialEq, Eq, Structural, Default)]
pub enum TitleType {
    #[default]
    Primary,
    ParentMonograph,
    ParentSerial,
}

/// Title rendering forms.
#[derive(Debug, Clone, Copy, PartialEq, Eq, Structural, Default)]
pub enum TitleForm {
    Short,
    #[default]
    Long,
}

/// A number component (volume, issue, pages, etc.).
#[derive(Debug)]
pub struct TemplateNumber {
    pub number: NumberVariable,
    pub form: Option<NumberForm>,
    pub label_form: Option<LabelForm>,
    pub rendering: Rendering,
    pub links: Option<LinksConfig>,
    pub overrides: Option<Overrides>,
}

/// Number variables.
#[derive(Debug, Clone, Copy, PartialEq, Eq, Structural, Default)]
pub enum NumberVariable {
    #[default]
    Volume,
    Issue,
    Pages,
    Edition,
    ChapterNumber,
    CollectionNumber,
    NumberOfPages,
    NumberOfVolumes,
    CitationNumber,
    CitationLabel,
    Number,
    DocketNumber,
    PatentNumber,
    StandardNumber,
    ReportNumber,
}

/// Number rendering forms.
#[derive(Debug, Clone, Copy, PartialEq, Eq, Structural, Default)]
pub enum NumberForm {
    #[default]
    Numeric,
    Ordinal,
    Roman,
}

/// Label rendering forms.
#[derive(Debug, Clone, Copy, PartialEq, Eq, Structural, Default)]
pub enum LabelForm {
    Long,
    #[default]
    Short,
    Symbol,
}

/// A simple variable component (DOI, ISBN, URL, etc.).
#[derive(Debug)]
pub struct TemplateVariable {
    pub variable: SimpleVariable,
    /// Whether locator labels are rendered for `variable: locator`.
    pub show_label: Option<bool>,
    /// Strip trailing periods from locator labels.
    pub strip_label_periods: Option<bool>,
    pub rendering: Rendering,
    pub links: Option<LinksConfig>,
    pub overrides: Option<Overrides>,
}

/// Simple string variables.
#[derive(Debug, Clone, Copy, PartialEq, Eq, Structural, Default)]
pub enum SimpleVariable {
    #[default]
    Doi,
    Isbn,
    Issn,
    Url,
    Pmid,
    Pmcid,
    Abstract,
    Note,
    Annote,
    Keyword,
    Genre,
    Medium,
    Source,
    Status,
    Archive,
    ArchiveLocation,
    Publisher,
    PublisherPlace,
    EventPlace,
    Dimensions,
    Scale,
    Version,
    Locator,
    Authority,
    Reporter,
    Page,
    Volume,
    Number,
    DocketNumber,
    PatentNumber,
    StandardNumber,
    ReportNumber,
}

/// A term component for rendering locale-specific text.
#[derive(Debug)]
pub struct TemplateTerm {
    pub term: GeneralTerm,
    pub form: Option<TermForm>,
    pub rendering: Rendering,
    pub overrides: Option<Overrides>,
}

/// A list component for grouping multiple items with a delimiter.
#[derive(Debug)]
pub struct TemplateList {
    pub items: Vec<TemplateComponent>,
    pub delimiter: Option<DelimiterPunctuation>,
    pub rendering: Rendering,
    pub overrides: Option<Overrides>,
}

/// The rendering options of a component.
pub open spec fn component_rendering(c: TemplateComponent) -> Rendering {
    match c {
        TemplateComponent::Contributor(x) => x.rendering,
        TemplateComponent::Date(x) => x.rendering,
        TemplateComponent::Title(x) => x.rendering,
        TemplateComponent::Number(x) => x.rendering,
        TemplateComponent::Variable(x) => x.rendering,
        TemplateComponent::List(x) => x.rendering,
        TemplateComponent::Term(x) => x.rendering,
    }
}

/// The type-specific overrides of a component.
pub open spec fn component_overrides(c: TemplateComponent) -> Option<Overrides> {
    match c {
        TemplateComponent::Contributor(x) => x.overrides,
        TemplateComponent::Date(x) => x.overrides,
        TemplateComponent::Title(x) => x.overrides,
        TemplateComponent::Number(x) => x.overrides,
        TemplateComponent::Variable(x) => x.overrides,
        TemplateComponent::List(x) => x.overrides,
        TemplateComponent::Term(x) => x.overrides,
    }
}

impl TemplateComponent {
    /// Get the rendering options for this component.
    pub fn rendering(&self) -> (r: &Rendering)
        ensures
            *r == component_rendering(*self),
    {
        match self {
            TemplateComponent::Contributor(x) => &x.rendering,
            TemplateComponent::Date(x) => &x.rendering,
            TemplateComponent::Title(x) => &x.rendering,
            TemplateComponent::Number(x) => &x.rendering,
            TemplateComponent::Variable(x) => &x.rendering,
            TemplateComponent::List(x) => &x.rendering,
            TemplateComponent::Term(x) => &x.rendering,
        }
    }

    /// Get the type-specific rendering overrides for this component.
    pub fn overrides(&self) -> (r: Option<&Overrides>)
        ensures
            r is Some <==> component_overrides(*self) is Some,
            r is Some ==> *r.unwrap() == component_overrides(*self).unwrap(),
    {
        match self {
            TemplateComponent::Contributor(x) => x.overrides.as_ref(),
            TemplateComponent::Date(x) => x.overrides.as_ref(),
            TemplateComponent::Title(x) => x.overrides.as_ref(),
            TemplateComponent::Number(x) => x.overrides.as_ref(),
            TemplateComponent::Variable(x) => x.overrides.as_ref(),
            TemplateComponent::List(x) => x.overrides.as_ref(),
            TemplateComponent::Term(x) => x.overrides.as_ref(),
        }
    }
}

/// Delimiter punctuation options.
#[derive(Debug, Clone, PartialEq, Default)]
pub enum DelimiterPunctuation {
    #[default]
    Comma,
    Semicolon,
    Period,
    Colon,
    Ampersand,
    VerticalLine,
    Slash,
    Hyphen,
    Space,
    /// No delimiter.
    Empty,
    /// Custom delimiter string (e.g., ": ").
    Custom(String),
}

/// The text a delimiter renders as.
pub open spec fn delimiter_text(d: DelimiterPunctuation) -> Seq<char> {
    match d {
        DelimiterPunctuation::Comma => ", "@,
        DelimiterPunctuation::Semicolon => "; "@,
        DelimiterPunctuation::Period => ". "@,
        DelimiterPunctuation::Colon => ": "@,
        DelimiterPunctuation::Ampersand => " & "@,
        DelimiterPunctuation::VerticalLine => " | "@,
        DelimiterPunctuation::Slash => "/ "@,
        DelimiterPunctuation::Hyphen => "- "@,
        DelimiterPunctuation::Space => " "@,
        DelimiterPunctuation::Empty => ""@,
        DelimiterPunctuation::Custom(s) => s@,
    }
}

/// Every delimiter but space, empty and custom ones renders as its
/// punctuation followed by a space; space renders as one space and empty
/// as nothing.
pub proof fn law_delimiter_text_trailing_space(d: DelimiterPunctuation)
    requires
        !(d is Custom),
    ensures
        d is Space ==> delimiter_text(d) == " "@,
        d is Empty ==> delimiter_text(d).len() == 0,
        !(d is Space) && !(d is Empty) ==> delimiter_text(d).len() >= 2 && delimiter_text(d).last() == ' ',
{
    reveal_strlit(", ");
    reveal_strlit("; ");
    reveal_strlit(". ");
    reveal_strlit(": ");
    reveal_strlit(" & ");
    reveal_strlit(" | ");
    reveal_strlit("/ ");
    reveal_strlit("- ");
    reveal_strlit(" ");
    reveal_strlit("");
}

/// Trimming a punctuation character with a space after it (and maybe one
/// before) leaves the character.
proof fn lemma_trim_spaced(c: char)
    requires
        !is_ws(c),
    ensures
        trim_spec(seq![c, ' ']) == seq![c],
        trim_spec(seq![' ', c, ' ']) == seq![c],
{
    let a = seq![c, ' '];
    assert(a.drop_last() =~= seq![c]);
    assert(seq![c].drop_last() =~= Seq::<char>::empty());
    assert(trail_ws(seq![c]) == 0);
    assert(trail_ws(a) == 1);
    assert(lead_ws(a) == 0);
    assert(a.subrange(0, 1) =~= seq![c]);
    let b = seq![' ', c, ' '];
    assert(b.drop_first() =~= a);
    assert(lead_ws(b) == 1);
    assert(b.drop_last() =~= seq![' ', c]);
    assert(seq![' ', c].drop_last() =~= seq![' ']);
    assert(trail_ws(seq![' ', c]) == 0);
    assert(trail_ws(b) == 1);
    assert(b.subrange(1, 2) =~= seq![c]);
}

/// Reading back the text of a delimiter other than a custom one gives that
/// delimiter.
pub proof fn law_delimiter_text_read_back(d: DelimiterPunctuation)
    requires
        !(d is Custom),
    ensures
        delimiter_of_csl(delimiter_text(d)) == d,
{
    reveal_strlit(", ");
    reveal_strlit("; ");
    reveal_strlit(". ");
    reveal_strlit(": ");
    reveal_strlit(" & ");
    reveal_strlit(" | ");
    reveal_strlit("/ ");
    reveal_strlit("- ");
    reveal_strlit(" ");
    reveal_strlit("");
    reveal_strlit(",");
    reveal_strlit(";");
    reveal_strlit(".");
    reveal_strlit(":");
    reveal_strlit("&");
    reveal_strlit("|");
    reveal_strlit("/");
    reveal_strlit("-");
    reveal_strlit("none");
    match d {
        DelimiterPunctuation::Comma => {
            lemma_trim_spaced(',');
            assert(", "@ =~= seq![',', ' ']);
            assert(","@ =~= seq![',']);
            assert((","@)[0] != (";"@)[0]);
            assert((","@)[0] != ("."@)[0]);
            assert((","@)[0] != (":"@)[0]);
            assert((","@)[0] != ("&"@)[0]);
            assert((","@)[0] != ("|"@)[0]);
            assert((","@)[0] != ("/"@)[0]);
            assert((","@)[0] != ("-"@)[0]);
            let t = trim_spec(", "@);
            assert(t == ","@);
            assert(", "@ != " "@);
            assert(ascii_lower_seq(t).len() == 1);
            assert(delimiter_of_csl(", "@) == DelimiterPunctuation::Comma);
        },
        DelimiterPunctuation::Semicolon => {
            lemma_trim_spaced(';');
            assert("; "@ =~= seq![';', ' ']);
            assert(";"@ =~= seq![';']);
            assert((";"@)[0] != (","@)[0]);
            assert((";"@)[0] != ("."@)[0]);
            assert((";"@)[0] != (":"@)[0]);
            assert((";"@)[0] != ("&"@)[0]);
            assert((";"@)[0] != ("|"@)[0]);
            assert((";"@)[0] != ("/"@)[0]);
            assert((";"@)[0] != ("-"@)[0]);
            assert(trim_spec("; "@) == ";"@);
            assert(ascii_lower_seq(trim_spec("; "@)).len() == 1);
            assert(delimiter_of_csl("; "@) == DelimiterPunctuation::Semicolon);
        },
        DelimiterPunctuation::Period => {
            lemma_trim_spaced('.');
            assert(". "@ =~= seq!['.', ' ']);
            assert("."@ =~= seq!['.']);
            assert(("."@)[0] != (","@)[0]);
            assert(("."@)[0] != (";"@)[0]);
            assert(("."@)[0] != (":"@)[0]);
            assert(("."@)[0] != ("&"@)[0]);
            assert(("."@)[0] != ("|"@)[0]);
            assert(("."@)[0] != ("/"@)[0]);
            assert(("."@)[0] != ("-"@)[0]);
            assert(trim_spec(". "@) == "."@);
            assert(ascii_lower_seq(trim_spec(". "@)).len() == 1);
            assert(delimiter_of_csl(". "@) == DelimiterPunctuation::Period);
        },
        DelimiterPunctuation::Colon => {
            lemma_trim_spaced(':');
            assert(": "@ =~= seq![':', ' ']);
            assert(":"@ =~= seq![':']);
            assert((":"@)[0] != (","@)[0]);
            assert((":"@)[0] != (";"@)[0]);
            assert((":"@)[0] != ("."@)[0]);
            assert((":"@)[0] != ("&"@)[0]);
            assert((":"@)[0] != ("|"@)[0]);
            assert((":"@)[0] != ("/"@)[0]);
            assert((":"@)[0] != ("-"@)[0]);
            assert(trim_spec(": "@) == ":"@);
            assert(ascii_lower_seq(trim_spec(": "@)).len() == 1);
            assert(delimiter_of_csl(": "@) == DelimiterPunctuation::Colon);
        },
        DelimiterPunctuation::Ampersand => {
            lemma_trim_spaced('&');
            assert(" & "@ =~= seq![' ', '&', ' ']);
            assert("&"@ =~= seq!['&']);
            assert(("&"@)[0] != (","@)[0]);
            assert(("&"@)[0] != (";"@)[0]);
            assert(("&"@)[0] != ("."@)[0]);
            assert(("&"@)[0] != (":"@)[0]);
            assert(("&"@)[0] != ("|"@)[0]);
            assert(("&"@)[0] != ("/"@)[0]);
            assert(("&"@)[0] != ("-"@)[0]);
            assert(trim_spec(" & "@) == "&"@);
            assert(ascii_lower_seq(trim_spec(" & "@)).len() == 1);
            assert(delimiter_of_csl(" & "@) == DelimiterPunctuation::Ampersand);
        },
        DelimiterPunctuation::VerticalLine => {
            lemma_trim_spaced('|');
            assert(" | "@ =~= seq![' ', '|', ' ']);
            assert("|"@ =~= seq!['|']);
            assert(("|"@)[0] != (","@)[0]);
            assert(("|"@)[0] != (";"@)[0]);
            assert(("|"@)[0] != ("."@)[0]);
            assert(("|"@)[0] != (":"@)[0]);
            assert(("|"@)[0] != ("&"@)[0]);
            assert(("|"@)[0] != ("/"@)[0]);
            assert(("|"@)[0] != ("-"@)[0]);
            assert(trim_spec(" | "@) == "|"@);
            assert(ascii_lower_seq(trim_spec(" | "@)).len() == 1);
            assert(delimiter_of_csl(" | "@) == DelimiterPunctuation::VerticalLine);
        },
        DelimiterPunctuation::Slash => {
            lemma_trim_spaced('/');
            assert("/ "@ =~= seq!['/', ' ']);
            assert("/"@ =~= seq!['/']);
            assert(("/"@)[0] != (","@)[0]);
            assert(("/"@)[0] != (";"@)[0]);
            assert(("/"@)[0] != ("."@)[0]);
            assert(("/"@)[0] != (":"@)[0]);
            assert(("/"@)[0] != ("&"@)[0]);
            assert(("/"@)[0] != ("|"@)[0]);
            assert(("/"@)[0] != ("-"@)[0]);
            assert(trim_spec("/ "@) == "/"@);
            assert(ascii_lower_seq(trim_spec("/ "@)).len() == 1);
            assert(delimiter_of_csl("/ "@) == DelimiterPunctuation::Slash);
        },
        DelimiterPunctuation::Hyphen => {
            lemma_trim_spaced('-');
            assert("- "@ =~= seq!['-', ' ']);
            assert("-"@ =~= seq!['-']);
            assert(("-"@)[0] != (","@)[0]);
            assert(("-"@)[0] != (";"@)[0]);
            assert(("-"@)[0] != ("."@)[0]);
            assert(("-"@)[0] != (":"@)[0]);
            assert(("-"@)[0] != ("&"@)[0]);
            assert(("-"@)[0] != ("|"@)[0]);
            assert(("-"@)[0] != ("/"@)[0]);
            assert(trim_spec("- "@) == "-"@);
            assert(ascii_lower_seq(trim_spec("- "@)).len() == 1);
            assert(delimiter_of_csl("- "@) == DelimiterPunctuation::Hyphen);
        },
        DelimiterPunctuation::Space => {
            assert(delimiter_of_csl(" "@) == DelimiterPunctuation::Space);
        },
        DelimiterPunctuation::Empty => {
            assert(lead_ws(""@) == 0);
            assert(trim_spec(""@).len() == 0);
            assert(delimiter_of_csl(""@) == DelimiterPunctuation::Empty);
        },
        DelimiterPunctuation::Custom(_) => {},
    }
}

/// The delimiter a CSL delimiter string denotes: a single space is `Space`;
/// otherwise the trimmed text picks a named punctuation, empty or "none"
/// (any case) is `Empty`, and anything else is kept verbatim as `Custom`.
pub open spec fn delimiter_of_csl(s: Seq<char>) -> DelimiterPunctuation {
    let t = trim_spec(s);
    if s == " "@ {
        DelimiterPunctuation::Space
    } else if t.len() == 0 || ascii_lower_seq(t) == "none"@ {
        DelimiterPunctuation::Empty
    } else if t == ","@ {
        DelimiterPunctuation::Comma
    } else if t == ";"@ {
        DelimiterPunctuation::Semicolon
    } else if t == "."@ {
        DelimiterPunctuation::Period
    } else if t == ":"@ {
        DelimiterPunctuation::Colon
    } else if t == "&"@ {
        DelimiterPunctuation::Ampersand
    } else if t == "|"@ {
        DelimiterPunctuation::VerticalLine
    } else if t == "/"@ {
        DelimiterPunctuation::Slash
    } else if t == "-"@ {
        DelimiterPunctuation::Hyphen
    } else {
        DelimiterPunctuation::Custom(arbitrary())
    }
}

/// Equality of delimiters, custom ones by their text.
pub open spec fn same_delimiter(a: DelimiterPunctuation, b: DelimiterPunctuation) -> bool {
    match (a, b) {
        (DelimiterPunctuation::Custom(x), DelimiterPunctuation::Custom(y)) => x@ == y@,
        (DelimiterPunctuation::Custom(_), _) => false,
        (_, DelimiterPunctuation::Custom(_)) => false,
        _ => a == b,
    }
}

impl DelimiterPunctuation {
    /// A copy with the same contents.
    pub fn copy(&self) -> (r: Self)
        ensures
            r == *self,
    {
        match self {
            DelimiterPunctuation::Custom(s) => DelimiterPunctuation::Custom(s.clone()),
            DelimiterPunctuation::Comma => DelimiterPunctuation::Comma,
            DelimiterPunctuation::Semicolon => DelimiterPunctuation::Semicolon,
            DelimiterPunctuation::Period => DelimiterPunctuation::Period,
            DelimiterPunctuation::Colon => DelimiterPunctuation::Colon,
            DelimiterPunctuation::Ampersand => DelimiterPunctuation::Ampersand,
            DelimiterPunctuation::VerticalLine => DelimiterPunctuation::VerticalLine,
            DelimiterPunctuation::Slash => DelimiterPunctuation::Slash,
            DelimiterPunctuation::Hyphen => DelimiterPunctuation::Hyphen,
            DelimiterPunctuation::Space => DelimiterPunctuation::Space,
            DelimiterPunctuation::Empty => DelimiterPunctuation::Empty,
        }
    }

    /// The delimiter text: the punctuation followed by a space, except for
    /// space and empty delimiters; a custom delimiter is its own text.
    pub fn to_string_with_space(&self) -> (r: String)
        ensures
            r@ == delimiter_text(*self),
    {
        match self {
            DelimiterPunctuation::Comma => String::from_str(", "),
            DelimiterPunctuation::Semicolon => String::from_str("; "),
            DelimiterPunctuation::Period => String::from_str(". "),
            DelimiterPunctuation::Colon => String::from_str(": "),
            DelimiterPunctuation::Ampersand => String::from_str(" & "),
            DelimiterPunctuation::VerticalLine => String::from_str(" | "),
            DelimiterPunctuation::Slash => String::from_str("/ "),
            DelimiterPunctuation::Hyphen => String::from_str("- "),
            DelimiterPunctuation::Space => String::from_str(" "),
            DelimiterPunctuation::Empty => String::from_str(""),
            DelimiterPunctuation::Custom(s) => s.clone(),
        }
    }

    /// Parse from a CSL delimiter string.
    pub fn from_csl_string(s: &str) -> (r: Self)
        ensures
            r is Custom ==> delimiter_of_csl(s@) is Custom && r->Custom_0@ == s@,
            !(r is Custom) ==> r == delimiter_of_csl(s@),
    {
        if str_eq(s, " ") {
            return DelimiterPunctuation::Space;
        }
        let trimmed = trim(s);
        proof {
            reveal_strlit("none");
            assert(ascii_lower_seq("none"@) =~= "none"@);
        }
        if trimmed.unicode_len() == 0 || eq_ignore_ascii_case(trimmed, "none") {
            return DelimiterPunctuation::Empty;
        }
        if str_eq(trimmed, ",") {
            DelimiterPunctuation::Comma
        } else if str_eq(trimmed, ";") {
            DelimiterPunctuation::Semicolon
        } else if str_eq(trimmed, ".") {
            DelimiterPunctuation::Period
        } else if str_eq(trimmed, ":") {
            DelimiterPunctuation::Colon
        } else if str_eq(trimmed, "&") {
            DelimiterPunctuation::Ampersand
        } else if str_eq(trimmed, "|") {
            DelimiterPunctuation::VerticalLine
        } else if str_eq(trimmed, "/") {
            DelimiterPunctuation::Slash
        } else if str_eq(trimmed, "-") {
            DelimiterPunctuation::Hyphen
        } else {
            DelimiterPunctuation::Custom(String::from_str(s))
        }
    }
}

/// Merging renderings: a rendering that sets nothing changes nothing, a
/// rendering merged into itself is unchanged, and merged into a rendering
/// that sets nothing it gives itself.
pub proof fn law_merge_rendering(r: Rendering, other: Rendering)
    ensures
        merged_rendering(r, empty_rendering()) == r,
        merged_rendering(r, r) == r,
        merged_rendering(empty_rendering(), other) == other,
{
}

} // verus!
