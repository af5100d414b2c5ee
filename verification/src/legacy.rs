//! The CSL 1.0 node tree that the migration compiles into CSLN templates.

use vstd::prelude::*;
use crate::locale::types::{GeneralTerm, TermForm};

verus! {

/// CSL item types.
#[derive(Debug, Clone, Copy, PartialEq, Eq, Structural, Hash)]
pub enum ItemType {
    Article,
    ArticleJournal,
    ArticleMagazine,
    ArticleNewspaper,
    Bill,
    Book,
    Broadcast,
    Chapter,
    Dataset,
    Entry,
    EntryDictionary,
    EntryEncyclopedia,
    Figure,
    Graphic,
    Interview,
    LegalCase,
    Legislation,
    Manuscript,
    MapItem,
    MotionPicture,
    MusicalScore,
    Pamphlet,
    PaperConference,
    Patent,
    PersonalCommunication,
    Post,
    PostWeblog,
    Report,
    Review,
    ReviewBook,
    Song,
    Speech,
    Thesis,
    Treaty,
    Webpage,
    Software,
    Standard,
}

/// CSL variables.
#[derive(Debug, Clone, Copy, PartialEq, Eq, Structural, Hash)]
pub enum Variable {
    Author,
    CollectionEditor,
    Composer,
    ContainerAuthor,
    Director,
    Editor,
    EditorialDirector,
    Illustrator,
    Interviewer,
    OriginalAuthor,
    Recipient,
    ReviewedAuthor,
    Translator,
    Accessed,
    AvailableDate,
    EventDate,
    Issued,
    OriginalDate,
    Submitted,
    ChapterNumber,
    CollectionNumber,
    Edition,
    Issue,
    Number,
    NumberOfPages,
    NumberOfVolumes,
    Volume,
    Abstract,
    Annote,
    Archive,
    ArchiveLocation,
    ArchivePlace,
    Authority,
    CallNumber,
    CitationLabel,
    CitationNumber,
    CollectionTitle,
    ContainerTitle,
    ContainerTitleShort,
    Dimensions,
    DOI,
    Event,
    EventPlace,
    FirstReferenceNoteNumber,
    Genre,
    ISBN,
    ISSN,
    Jurisdiction,
    Keyword,
    Locator,
    Medium,
    Note,
    OriginalPublisher,
    OriginalPublisherPlace,
    OriginalTitle,
    Page,
    PageFirst,
    PMCID,
    PMID,
    Publisher,
    PublisherPlace,
    References,
    ReviewedTitle,
    Scale,
    Section,
    Source,
    Status,
    Title,
    TitleShort,
    URL,
    Version,
    YearSuffix,
}

/// A whole style: metadata, locale terms and the two node trees.
#[derive(Debug)]
pub struct CslnStyle {
    pub info: CslnInfo,
    pub locale: CslnLocale,
    pub citation: Vec<CslnNode>,
    pub bibliography: Vec<CslnNode>,
}

/// Locale terms of a style, each term name at most once.
#[derive(Debug, Default)]
pub struct CslnLocale {
    pub terms: Vec<(String, String)>,
}

/// Style metadata.
#[derive(Debug)]
pub struct CslnInfo {
    pub title: String,
    pub id: String,
}

/// A node of the CSL rendering tree.
#[derive(Debug)]
pub enum CslnNode {
    Text { value: String },
    Variable(VariableBlock),
    Date(DateBlock),
    Names(NamesBlock),
    Group(GroupBlock),
    Condition(ConditionBlock),
    Term(TermBlock),
}

/// A locale term.
#[derive(Debug)]
pub struct TermBlock {
    pub term: GeneralTerm,
    pub form: TermForm,
    pub formatting: FormattingOptions,
    pub source_order: Option<usize>,
}

/// A variable with its label, formatting and per-type formatting; each item
/// type occurs at most once among the overrides.
#[derive(Debug)]
pub struct VariableBlock {
    pub variable: Variable,
    pub label: Option<LabelOptions>,
    pub formatting: FormattingOptions,
    pub overrides: Vec<(ItemType, FormattingOptions)>,
    pub source_order: Option<usize>,
}

/// A group of nodes rendered together.
#[derive(Debug)]
pub struct GroupBlock {
    pub children: Vec<CslnNode>,
    pub delimiter: Option<String>,
    pub formatting: FormattingOptions,
    pub source_order: Option<usize>,
}

/// A conditional: its test, then-branch, else-if branches and else-branch.
#[derive(Debug)]
pub struct ConditionBlock {
    pub if_item_type: Vec<ItemType>,
    pub if_variables: Vec<Variable>,
    pub then_branch: Vec<CslnNode>,
    pub else_if_branches: Vec<ElseIfBranch>,
    pub else_branch: Option<Vec<CslnNode>>,
}

/// An else-if branch in a condition block, capturing type or variable conditions.
#[derive(Debug)]
pub struct ElseIfBranch {
    pub if_item_type: Vec<ItemType>,
    pub if_variables: Vec<Variable>,
    pub children: Vec<CslnNode>,
}

/// A label attached to a variable.
#[derive(Debug, PartialEq, Eq)]
pub struct LabelOptions {
    pub variable: Variable,
    pub form: LabelForm,
    pub pluralize: bool,
    pub formatting: FormattingOptions,
}

/// Label forms.
#[derive(Debug, Clone, Copy, PartialEq, Eq, Structural)]
pub enum LabelForm {
    Long,
    Short,
    Symbol,
    Verb,
    VerbShort,
}

/// A date variable.
#[derive(Debug)]
pub struct DateBlock {
    pub variable: Variable,
    pub options: DateOptions,
    pub formatting: FormattingOptions,
    pub source_order: Option<usize>,
}

/// A names variable.
#[derive(Debug)]
pub struct NamesBlock {
    pub variable: Variable,
    pub options: NamesOptions,
    pub formatting: FormattingOptions,
    pub source_order: Option<usize>,
}

/// Options of a names node.
#[derive(Debug, Default)]
pub struct NamesOptions {
    pub delimiter: Option<String>,
    pub mode: Option<NameMode>,
    pub and: Option<AndTerm>,
    pub delimiter_precedes_last: Option<DelimiterPrecedes>,
    pub initialize_with: Option<String>,
    pub sort_separator: Option<String>,
    pub name_as_sort_order: Option<NameAsSortOrder>,
    pub et_al: Option<EtAlOptions>,
    pub label: Option<LabelOptions>,
    pub substitute: Vec<Variable>,
}

/// Name forms.
#[derive(Debug, Clone, Copy, PartialEq, Eq, Structural)]
pub enum NameMode {
    Long,
    Short,
    Count,
}

/// How the last two names are joined.
#[derive(Debug, Clone, Copy, PartialEq, Eq, Structural)]
pub enum AndTerm {
    Text,
    Symbol,
}

/// When the delimiter precedes the last name.
#[derive(Debug, Clone, Copy, PartialEq, Eq, Structural)]
pub enum DelimiterPrecedes {
    Contextual,
    AfterInvertedName,
    Always,
    Never,
}

/// Which names are inverted.
#[derive(Debug, Clone, Copy, PartialEq, Eq, Structural)]
pub enum NameAsSortOrder {
    First,
    All,
}

/// Configuration for et-al abbreviation in names.
#[derive(Debug)]
pub struct EtAlOptions {
    /// Minimum number of names to trigger abbreviation.
    pub min: u8,
    /// Number of names to show when triggered.
    pub use_first: u8,
    /// Optional separate configuration for subsequent citations.
    pub subsequent: Option<Box<EtAlSubsequent>>,
    /// The term to use (e.g., "et al.", "and others").
    pub term: String,
    /// Formatting for the term (italic, bold).
    pub formatting: FormattingOptions,
}

/// Et-al settings for subsequent citations.
#[derive(Debug, Clone, Copy, PartialEq, Eq, Structural)]
pub struct EtAlSubsequent {
    pub min: u8,
    pub use_first: u8,
}

/// Options of a date node.
#[derive(Debug, Default)]
pub struct DateOptions {
    pub form: Option<DateForm>,
    pub parts: Option<DateParts>,
    pub delimiter: Option<String>,
    pub year_form: Option<DatePartForm>,
    pub month_form: Option<DatePartForm>,
    pub day_form: Option<DatePartForm>,
}

/// Date forms.
#[derive(Debug, Clone, Copy, PartialEq, Eq, Structural)]
pub enum DateForm {
    Text,
    Numeric,
}

/// Which date parts are shown.
#[derive(Debug, Clone, Copy, PartialEq, Eq, Structural)]
pub enum DateParts {
    Year,
    YearMonth,
    YearMonthDay,
}

/// Forms of one date part.
#[derive(Debug, Clone, Copy, PartialEq, Eq, Structural)]
pub enum DatePartForm {
    Numeric,
    NumericLeadingZeros,
    Ordinal,
    Long,
    Short,
}

/// Formatting of a node.
#[derive(Debug, PartialEq, Eq, Default)]
pub struct FormattingOptions {
    pub font_style: Option<FontStyle>,
    pub font_variant: Option<FontVariant>,
    pub font_weight: Option<FontWeight>,
    pub text_decoration: Option<TextDecoration>,
    pub vertical_align: Option<VerticalAlign>,
    pub quotes: Option<bool>,
    pub prefix: Option<String>,
    pub suffix: Option<String>,
    pub strip_periods: Option<bool>,
}

impl FormattingOptions {
    /// A copy with the same contents.
    pub fn copy(&self) -> (r: Self)
        ensures
            r == *self,
    {
        FormattingOptions {
            font_style: self.font_style,
            font_variant: self.font_variant,
            font_weight: self.font_weight,
            text_decoration: self.text_decoration,
            vertical_align: self.vertical_align,
            quotes: self.quotes,
            prefix: self.prefix.clone(),
            suffix: self.suffix.clone(),
            strip_periods: self.strip_periods,
        }
    }
}

/// Font styles.
#[derive(Debug, Clone, Copy, PartialEq, Eq, Structural)]
pub enum FontStyle {
    Normal,
    Italic,
    Oblique,
}

/// Font variants.
#[derive(Debug, Clone, Copy, PartialEq, Eq, Structural)]
pub enum FontVariant {
    Normal,
    SmallCaps,
}

/// Font weights.
#[derive(Debug, Clone, Copy, PartialEq, Eq, Structural)]
pub enum FontWeight {
    Normal,
    Bold,
    Light,
}

/// Text decorations (`Plain` is CSL's `none`).
#[derive(Debug, Clone, Copy, PartialEq, Eq, Structural)]
pub enum TextDecoration {
    Plain,
    Underline,
}

/// Vertical alignments.
#[derive(Debug, Clone, Copy, PartialEq, Eq, Structural)]
pub enum VerticalAlign {
    Baseline,
    Superscript,
    Subscript,
}

// ---------------------------------------------------------------------------
// The tree by its contents: sequences in place of vectors.
// ---------------------------------------------------------------------------

/// A variable node by its contents.
pub struct VariableBlockV {
    pub variable: Variable,
    pub label: Option<LabelOptions>,
    pub formatting: FormattingOptions,
    pub overrides: Seq<(ItemType, FormattingOptions)>,
    pub source_order: Option<usize>,
}

/// A group node by its contents.
pub struct GroupBlockV {
    pub children: Seq<NodeV>,
    pub delimiter: Option<String>,
    pub formatting: FormattingOptions,
    pub source_order: Option<usize>,
}

/// An else-if branch by its contents.
pub struct ElseIfV {
    pub if_item_type: Seq<ItemType>,
    pub if_variables: Seq<Variable>,
    pub children: Seq<NodeV>,
}

/// A condition node by its contents.
pub struct ConditionV {
    pub if_item_type: Seq<ItemType>,
    pub if_variables: Seq<Variable>,
    pub then_branch: Seq<NodeV>,
    pub else_if_branches: Seq<ElseIfV>,
    pub else_branch: Option<Seq<NodeV>>,
}

/// A node by its contents.
pub enum NodeV {
    Text(String),
    Variable(VariableBlockV),
    Date(DateBlock),
    Names(NamesBlock),
    Group(GroupBlockV),
    Condition(ConditionV),
    Term(TermBlock),
}

/// The contents of a variable node.
pub open spec fn variable_view(v: VariableBlock) -> VariableBlockV {
    VariableBlockV {
        variable: v.variable,
        label: v.label,
        formatting: v.formatting,
        overrides: v.overrides@,
        source_order: v.source_order,
    }
}

/// The contents of a node.
pub open spec fn node_view(n: CslnNode) -> NodeV
    decreases n, 2nat,
{
    match n {
        CslnNode::Text { value } => NodeV::Text(value),
        CslnNode::Variable(v) => NodeV::Variable(variable_view(v)),
        CslnNode::Date(d) => NodeV::Date(d),
        CslnNode::Names(x) => NodeV::Names(x),
        CslnNode::Group(g) => NodeV::Group(
            GroupBlockV {
                children: nodes_view(n->Group_0.children@),
                delimiter: g.delimiter,
                formatting: g.formatting,
                source_order: g.source_order,
            },
        ),
        CslnNode::Condition(c) => NodeV::Condition(
            ConditionV {
                if_item_type: c.if_item_type@,
                if_variables: c.if_variables@,
                then_branch: nodes_view(n->Condition_0.then_branch@),
                else_if_branches: branches_view(n->Condition_0.else_if_branches@),
                else_branch: match n->Condition_0.else_branch {
                    Some(e) => Some(nodes_view(e@)),
                    None => None,
                },
            },
        ),
        CslnNode::Term(t) => NodeV::Term(t),
    }
}

/// The contents of a sequence of nodes.
pub open spec fn nodes_view(s: Seq<CslnNode>) -> Seq<NodeV>
    decreases s, 0nat,
{
    if s.len() == 0 {
        Seq::empty()
    } else {
        nodes_view(s.drop_last()).push(node_view(s.last()))
    }
}

/// The contents of a sequence of else-if branches.
pub open spec fn branches_view(s: Seq<ElseIfBranch>) -> Seq<ElseIfV>
    decreases s, 1nat,
{
    if s.len() == 0 {
        Seq::empty()
    } else {
        branches_view(s.drop_last()).push(
            ElseIfV {
                if_item_type: s.last().if_item_type@,
                if_variables: s.last().if_variables@,
                children: nodes_view(s.last().children@),
            },
        )
    }
}

} // verus!
