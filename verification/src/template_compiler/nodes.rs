//! Compiling one legacy node into one template component.

use vstd::prelude::*;
use crate::template_compiler::TemplateCompiler;
use crate::legacy::{
    AndTerm, DateBlock, DateParts, DelimiterPrecedes, FontStyle, FontVariant, FontWeight, FormattingOptions,
    ItemType, LabelForm as LegacyLabelForm, NameMode, NamesBlock, NamesOptions, TermBlock, Variable,
    VariableBlock, CslnNode, DateForm as LegacyDateForm,
};
use crate::options::contributors::{AndOptions, AndOtherOptions, DelimiterPrecedesLast, ShortenListOptions};
use crate::passes::common::{insert_override, ov_insert, single};
use crate::template::{
    delimiter_of_csl, empty_rendering, role_str, ComponentOverride, ContributorForm, DelimiterPunctuation, ContributorRole, DateForm, DateVariable,
    LabelForm, NumberVariable, Rendering, SimpleVariable, TemplateComponent, TemplateContributor,
    TemplateDate, TemplateNumber, TemplateTerm, TemplateTitle, TemplateVariable, TitleType, TypeSelector,
    WrapPunctuation,
};
use crate::template_view::{rendering_view, tc_view, OverrideV, OverridesV, RenderingV, TCV};
use crate::text::{ascii_lower, opt_view, to_owned_string};

verus! {

/// The contributor role a variable names.
pub open spec fn role_of(v: Variable) -> Option<ContributorRole> {
    match v {
        Variable::Author => Some(ContributorRole::Author),
        Variable::Editor => Some(ContributorRole::Editor),
        Variable::Translator => Some(ContributorRole::Translator),
        Variable::Director => Some(ContributorRole::Director),
        Variable::Composer => Some(ContributorRole::Composer),
        Variable::Illustrator => Some(ContributorRole::Illustrator),
        Variable::Interviewer => Some(ContributorRole::Interviewer),
        Variable::Recipient => Some(ContributorRole::Recipient),
        Variable::CollectionEditor => Some(ContributorRole::CollectionEditor),
        Variable::ContainerAuthor => Some(ContributorRole::ContainerAuthor),
        Variable::EditorialDirector => Some(ContributorRole::EditorialDirector),
        Variable::OriginalAuthor => Some(ContributorRole::OriginalAuthor),
        Variable::ReviewedAuthor => Some(ContributorRole::ReviewedAuthor),
        _ => None,
    }
}

/// The date variable a variable names.
pub open spec fn date_of(v: Variable) -> Option<DateVariable> {
    match v {
        Variable::Issued => Some(DateVariable::Issued),
        Variable::Accessed => Some(DateVariable::Accessed),
        Variable::OriginalDate => Some(DateVariable::OriginalPublished),
        Variable::Submitted => Some(DateVariable::Submitted),
        Variable::EventDate => Some(DateVariable::EventDate),
        _ => None,
    }
}

/// The title a variable names.
pub open spec fn title_of(v: Variable) -> Option<TitleType> {
    match v {
        Variable::Title => Some(TitleType::Primary),
        Variable::ContainerTitle => Some(TitleType::ParentSerial),
        Variable::CollectionTitle => Some(TitleType::ParentMonograph),
        _ => None,
    }
}

/// The number variable a variable names.
pub open spec fn number_of(v: Variable) -> Option<NumberVariable> {
    match v {
        Variable::Volume => Some(NumberVariable::Volume),
        Variable::Issue => Some(NumberVariable::Issue),
        Variable::Page => Some(NumberVariable::Pages),
        Variable::Edition => Some(NumberVariable::Edition),
        Variable::ChapterNumber => Some(NumberVariable::ChapterNumber),
        Variable::CollectionNumber => Some(NumberVariable::CollectionNumber),
        Variable::NumberOfPages => Some(NumberVariable::NumberOfPages),
        Variable::CitationNumber => Some(NumberVariable::CitationNumber),
        Variable::Number => Some(NumberVariable::Number),
        _ => None,
    }
}

/// The CSL 1.0 name of a variable.
pub open spec fn csl_variable_name(v: Variable) -> Seq<char> {
    match v {
        Variable::Author => "author"@,
        Variable::CollectionEditor => "collection-editor"@,
        Variable::Composer => "composer"@,
        Variable::ContainerAuthor => "container-author"@,
        Variable::Director => "director"@,
        Variable::Editor => "editor"@,
        Variable::EditorialDirector => "editorial-director"@,
        Variable::Illustrator => "illustrator"@,
        Variable::Interviewer => "interviewer"@,
        Variable::OriginalAuthor => "original-author"@,
        Variable::Recipient => "recipient"@,
        Variable::ReviewedAuthor => "reviewed-author"@,
        Variable::Translator => "translator"@,
        Variable::Accessed => "accessed"@,
        Variable::AvailableDate => "available-date"@,
        Variable::EventDate => "event-date"@,
        Variable::Issued => "issued"@,
        Variable::OriginalDate => "original-date"@,
        Variable::Submitted => "submitted"@,
        Variable::ChapterNumber => "chapter-number"@,
        Variable::CollectionNumber => "collection-number"@,
        Variable::Edition => "edition"@,
        Variable::Issue => "issue"@,
        Variable::Number => "number"@,
        Variable::NumberOfPages => "number-of-pages"@,
        Variable::NumberOfVolumes => "number-of-volumes"@,
        Variable::Volume => "volume"@,
        Variable::Abstract => "abstract"@,
        Variable::Annote => "annote"@,
        Variable::Archive => "archive"@,
        Variable::ArchiveLocation => "archive_location"@,
        Variable::ArchivePlace => "archive-place"@,
        Variable::Authority => "authority"@,
        Variable::CallNumber => "call-number"@,
        Variable::CitationLabel => "citation-label"@,
        Variable::CitationNumber => "citation-number"@,
        Variable::CollectionTitle => "collection-title"@,
        Variable::ContainerTitle => "container-title"@,
        Variable::ContainerTitleShort => "container-title-short"@,
        Variable::Dimensions => "dimensions"@,
        Variable::DOI => "DOI"@,
        Variable::Event => "event"@,
        Variable::EventPlace => "event-place"@,
        Variable::FirstReferenceNoteNumber => "first-reference-note-number"@,
        Variable::Genre => "genre"@,
        Variable::ISBN => "ISBN"@,
        Variable::ISSN => "ISSN"@,
        Variable::Jurisdiction => "jurisdiction"@,
        Variable::Keyword => "keyword"@,
        Variable::Locator => "locator"@,
        Variable::Medium => "medium"@,
        Variable::Note => "note"@,
        Variable::OriginalPublisher => "original-publisher"@,
        Variable::OriginalPublisherPlace => "original-publisher-place"@,
        Variable::OriginalTitle => "original-title"@,
        Variable::Page => "page"@,
        Variable::PageFirst => "page-first"@,
        Variable::PMCID => "PMCID"@,
        Variable::PMID => "PMID"@,
        Variable::Publisher => "publisher"@,
        Variable::PublisherPlace => "publisher-place"@,
        Variable::References => "references"@,
        Variable::ReviewedTitle => "reviewed-title"@,
        Variable::Scale => "scale"@,
        Variable::Section => "section"@,
        Variable::Source => "source"@,
        Variable::Status => "status"@,
        Variable::Title => "title"@,
        Variable::TitleShort => "title-short"@,
        Variable::URL => "URL"@,
        Variable::Version => "version"@,
        Variable::YearSuffix => "year-suffix"@,
    }
}

/// The name of a number variable in a style (its serialised name).
pub open spec fn number_variable_style_name(n: NumberVariable) -> Seq<char> {
    match n {
        NumberVariable::Volume => "volume"@,
        NumberVariable::Issue => "issue"@,
        NumberVariable::Pages => "pages"@,
        NumberVariable::Edition => "edition"@,
        NumberVariable::ChapterNumber => "chapter-number"@,
        NumberVariable::CollectionNumber => "collection-number"@,
        NumberVariable::NumberOfPages => "number-of-pages"@,
        NumberVariable::NumberOfVolumes => "number-of-volumes"@,
        NumberVariable::CitationNumber => "citation-number"@,
        NumberVariable::CitationLabel => "citation-label"@,
        NumberVariable::Number => "number"@,
        NumberVariable::DocketNumber => "docket-number"@,
        NumberVariable::PatentNumber => "patent-number"@,
        NumberVariable::StandardNumber => "standard-number"@,
        NumberVariable::ReportNumber => "report-number"@,
    }
}

/// The number-variable name for a CSL variable name: the same name, but
/// for `page`, whose number variable is `pages`.
pub open spec fn number_name_for(csl_name: Seq<char>) -> Seq<char> {
    if csl_name == "page"@ {
        "pages"@
    } else {
        csl_name
    }
}

/// A variable that maps to a number variable maps to the one of the same
/// name (`page` to `pages`): the mapping renames nothing else.
pub proof fn law_number_variable_keeps_its_name(v: Variable)
    ensures
        number_of(v) is Some ==> number_variable_style_name(number_of(v).unwrap()) == number_name_for(
            csl_variable_name(v),
        ),
{
    reveal_strlit("volume");
    reveal_strlit("issue");
    reveal_strlit("page");
    reveal_strlit("edition");
    reveal_strlit("chapter-number");
    reveal_strlit("collection-number");
    reveal_strlit("number-of-pages");
    reveal_strlit("citation-number");
    reveal_strlit("number");
    reveal_strlit("pages");
}

/// The name of a simple variable in a style (its serialised name).
pub open spec fn simple_variable_style_name(v: SimpleVariable) -> Seq<char> {
    match v {
        SimpleVariable::Doi => "doi"@,
        SimpleVariable::Isbn => "isbn"@,
        SimpleVariable::Issn => "issn"@,
        SimpleVariable::Url => "url"@,
        SimpleVariable::Pmid => "pmid"@,
        SimpleVariable::Pmcid => "pmcid"@,
        SimpleVariable::Abstract => "abstract"@,
        SimpleVariable::Note => "note"@,
        SimpleVariable::Annote => "annote"@,
        SimpleVariable::Keyword => "keyword"@,
        SimpleVariable::Genre => "genre"@,
        SimpleVariable::Medium => "medium"@,
        SimpleVariable::Source => "source"@,
        SimpleVariable::Status => "status"@,
        SimpleVariable::Archive => "archive"@,
        SimpleVariable::ArchiveLocation => "archive-location"@,
        SimpleVariable::Publisher => "publisher"@,
        SimpleVariable::PublisherPlace => "publisher-place"@,
        SimpleVariable::EventPlace => "event-place"@,
        SimpleVariable::Dimensions => "dimensions"@,
        SimpleVariable::Scale => "scale"@,
        SimpleVariable::Version => "version"@,
        SimpleVariable::Locator => "locator"@,
        SimpleVariable::Authority => "authority"@,
        SimpleVariable::Reporter => "reporter"@,
        SimpleVariable::Page => "page"@,
        SimpleVariable::Volume => "volume"@,
        SimpleVariable::Number => "number"@,
        SimpleVariable::DocketNumber => "docket-number"@,
        SimpleVariable::PatentNumber => "patent-number"@,
        SimpleVariable::StandardNumber => "standard-number"@,
        SimpleVariable::ReportNumber => "report-number"@,
    }
}

/// A CSL variable name spelled as a style names variables: in lower case,
/// with `-` for `_`.
pub open spec fn style_spelling(csl_name: Seq<char>) -> Seq<char> {
    Seq::new(csl_name.len(), |i: int| if csl_name[i] == '_' { '-' } else { ascii_lower(csl_name[i]) })
}

/// A variable that maps to a simple variable maps to the one of the same
/// name, spelled as a style spells it (`DOI` to `doi`, `archive_location`
/// to `archive-location`).
pub proof fn law_simple_variable_keeps_its_name(v: Variable)
    ensures
        simple_of(v) is Some ==> simple_variable_style_name(simple_of(v).unwrap()) == style_spelling(
            csl_variable_name(v),
        ),
{
    match v {
        Variable::DOI => {
            reveal_strlit("DOI");
            reveal_strlit("doi");
            assert(style_spelling("DOI"@) =~= "doi"@);
        },
        Variable::ISBN => {
            reveal_strlit("ISBN");
            reveal_strlit("isbn");
            assert(style_spelling("ISBN"@) =~= "isbn"@);
        },
        Variable::ISSN => {
            reveal_strlit("ISSN");
            reveal_strlit("issn");
            assert(style_spelling("ISSN"@) =~= "issn"@);
        },
        Variable::URL => {
            reveal_strlit("URL");
            reveal_strlit("url");
            assert(style_spelling("URL"@) =~= "url"@);
        },
        Variable::Publisher => {
            reveal_strlit("publisher");
            reveal_strlit("publisher");
            assert(style_spelling("publisher"@) =~= "publisher"@);
        },
        Variable::PublisherPlace => {
            reveal_strlit("publisher-place");
            reveal_strlit("publisher-place");
            assert(style_spelling("publisher-place"@) =~= "publisher-place"@);
        },
        Variable::Genre => {
            reveal_strlit("genre");
            reveal_strlit("genre");
            assert(style_spelling("genre"@) =~= "genre"@);
        },
        Variable::Authority => {
            reveal_strlit("authority");
            reveal_strlit("authority");
            assert(style_spelling("authority"@) =~= "authority"@);
        },
        Variable::Archive => {
            reveal_strlit("archive");
            reveal_strlit("archive");
            assert(style_spelling("archive"@) =~= "archive"@);
        },
        Variable::ArchiveLocation => {
            reveal_strlit("archive_location");
            reveal_strlit("archive-location");
            assert(style_spelling("archive_location"@) =~= "archive-location"@);
        },
        Variable::Version => {
            reveal_strlit("version");
            reveal_strlit("version");
            assert(style_spelling("version"@) =~= "version"@);
        },
        Variable::Medium => {
            reveal_strlit("medium");
            reveal_strlit("medium");
            assert(style_spelling("medium"@) =~= "medium"@);
        },
        Variable::Source => {
            reveal_strlit("source");
            reveal_strlit("source");
            assert(style_spelling("source"@) =~= "source"@);
        },
        Variable::Status => {
            reveal_strlit("status");
            reveal_strlit("status");
            assert(style_spelling("status"@) =~= "status"@);
        },
        Variable::Locator => {
            reveal_strlit("locator");
            reveal_strlit("locator");
            assert(style_spelling("locator"@) =~= "locator"@);
        },
        Variable::PMID => {
            reveal_strlit("PMID");
            reveal_strlit("pmid");
            assert(style_spelling("PMID"@) =~= "pmid"@);
        },
        Variable::PMCID => {
            reveal_strlit("PMCID");
            reveal_strlit("pmcid");
            assert(style_spelling("PMCID"@) =~= "pmcid"@);
        },
        Variable::Note => {
            reveal_strlit("note");
            reveal_strlit("note");
            assert(style_spelling("note"@) =~= "note"@);
        },
        Variable::Annote => {
            reveal_strlit("annote");
            reveal_strlit("annote");
            assert(style_spelling("annote"@) =~= "annote"@);
        },
        Variable::Abstract => {
            reveal_strlit("abstract");
            reveal_strlit("abstract");
            assert(style_spelling("abstract"@) =~= "abstract"@);
        },
        _ => {},
    }
}

/// The contributor role a variable maps to has the variable's name.
pub proof fn law_role_keeps_its_name(v: Variable)
    ensures
        role_of(v) is Some ==> role_str(role_of(v).unwrap()) == csl_variable_name(v),
{
}

/// The name of a date variable in a style (its serialised name).
pub open spec fn date_variable_style_name(d: DateVariable) -> Seq<char> {
    match d {
        DateVariable::Issued => "issued"@,
        DateVariable::Accessed => "accessed"@,
        DateVariable::OriginalPublished => "original-published"@,
        DateVariable::Submitted => "submitted"@,
        DateVariable::EventDate => "event-date"@,
    }
}

/// The date-variable name for a CSL variable name: the same name, but for
/// `original-date`, whose date variable is `original-published`.
pub open spec fn date_name_for(csl_name: Seq<char>) -> Seq<char> {
    if csl_name == "original-date"@ {
        "original-published"@
    } else {
        csl_name
    }
}

/// A variable that maps to a date variable maps to the one of the same
/// name (`original-date` to `original-published`).
pub proof fn law_date_variable_keeps_its_name(v: Variable)
    ensures
        date_of(v) is Some ==> date_variable_style_name(date_of(v).unwrap()) == date_name_for(csl_variable_name(v)),
{
    reveal_strlit("original-date");
    reveal_strlit("original-published");
    reveal_strlit("issued");
    reveal_strlit("accessed");
    reveal_strlit("submitted");
    reveal_strlit("event-date");
}

/// The simple variable a variable names.
pub open spec fn simple_of(v: Variable) -> Option<SimpleVariable> {
    match v {
        Variable::DOI => Some(SimpleVariable::Doi),
        Variable::ISBN => Some(SimpleVariable::Isbn),
        Variable::ISSN => Some(SimpleVariable::Issn),
        Variable::URL => Some(SimpleVariable::Url),
        Variable::Publisher => Some(SimpleVariable::Publisher),
        Variable::PublisherPlace => Some(SimpleVariable::PublisherPlace),
        Variable::Genre => Some(SimpleVariable::Genre),
        Variable::Authority => Some(SimpleVariable::Authority),
        Variable::Archive => Some(SimpleVariable::Archive),
        Variable::ArchiveLocation => Some(SimpleVariable::ArchiveLocation),
        Variable::Version => Some(SimpleVariable::Version),
        Variable::Medium => Some(SimpleVariable::Medium),
        Variable::Source => Some(SimpleVariable::Source),
        Variable::Status => Some(SimpleVariable::Status),
        Variable::Locator => Some(SimpleVariable::Locator),
        Variable::PMID => Some(SimpleVariable::Pmid),
        Variable::PMCID => Some(SimpleVariable::Pmcid),
        Variable::Note => Some(SimpleVariable::Note),
        Variable::Annote => Some(SimpleVariable::Annote),
        Variable::Abstract => Some(SimpleVariable::Abstract),
        _ => None,
    }
}

/// The template label form of a legacy label form (verbs become long).
pub open spec fn label_form_of(f: LegacyLabelForm) -> LabelForm {
    match f {
        LegacyLabelForm::Long => LabelForm::Long,
        LegacyLabelForm::Short => LabelForm::Short,
        LegacyLabelForm::Symbol => LabelForm::Symbol,
        LegacyLabelForm::Verb => LabelForm::Long,
        LegacyLabelForm::VerbShort => LabelForm::Long,
    }
}

/// The CSL name of an item type.
pub open spec fn item_type_name(t: ItemType) -> Seq<char> {
    match t {
        ItemType::Article => "article"@,
        ItemType::ArticleJournal => "article-journal"@,
        ItemType::ArticleMagazine => "article-magazine"@,
        ItemType::ArticleNewspaper => "article-newspaper"@,
        ItemType::Bill => "bill"@,
        ItemType::Book => "book"@,
        ItemType::Broadcast => "broadcast"@,
        ItemType::Chapter => "chapter"@,
        ItemType::Dataset => "dataset"@,
        ItemType::Entry => "entry"@,
        ItemType::EntryDictionary => "entry-dictionary"@,
        ItemType::EntryEncyclopedia => "entry-encyclopedia"@,
        ItemType::Figure => "figure"@,
        ItemType::Graphic => "graphic"@,
        ItemType::Interview => "interview"@,
        ItemType::LegalCase => "legal_case"@,
        ItemType::Legislation => "legislation"@,
        ItemType::Manuscript => "manuscript"@,
        ItemType::MapItem => "map"@,
        ItemType::MotionPicture => "motion_picture"@,
        ItemType::MusicalScore => "musical_score"@,
        ItemType::Pamphlet => "pamphlet"@,
        ItemType::PaperConference => "paper-conference"@,
        ItemType::Patent => "patent"@,
        ItemType::PersonalCommunication => "personal_communication"@,
        ItemType::Post => "post"@,
        ItemType::PostWeblog => "post-weblog"@,
        ItemType::Report => "report"@,
        ItemType::Review => "review"@,
        ItemType::ReviewBook => "review-book"@,
        ItemType::Song => "song"@,
        ItemType::Speech => "speech"@,
        ItemType::Thesis => "thesis"@,
        ItemType::Treaty => "treaty"@,
        ItemType::Webpage => "webpage"@,
        ItemType::Software => "software"@,
        ItemType::Standard => "standard"@,
    }
}

/// `s`, or nothing when it is empty.
pub open spec fn nonempty(s: Seq<char>) -> Option<Seq<char>> {
    if s.len() == 0 {
        None
    } else {
        Some(s)
    }
}

/// Wrap punctuation read off affixes: a prefix ending in "(" with a suffix
/// starting with ")" gives parentheses, "[" and "]" brackets; the
/// punctuation is taken off and what is left of each affix (none when
/// empty) is returned. Otherwise no wrap and the affixes unchanged.
pub open spec fn wrap_split(prefix: Option<Seq<char>>, suffix: Option<Seq<char>>) -> (
    Option<WrapPunctuation>,
    Option<Seq<char>>,
    Option<Seq<char>>,
) {
    match (prefix, suffix) {
        (Some(p), Some(s)) => if p.len() > 0 && s.len() > 0 && p.last() == '(' && s[0] == ')' {
            (Some(WrapPunctuation::Parentheses), nonempty(p.drop_last()), nonempty(s.drop_first()))
        } else if p.len() > 0 && s.len() > 0 && p.last() == '[' && s[0] == ']' {
            (Some(WrapPunctuation::Brackets), nonempty(p.drop_last()), nonempty(s.drop_first()))
        } else {
            (None, prefix, suffix)
        },
        _ => (None, prefix, suffix),
    }
}

/// The rendering of legacy formatting: italic, bold and small caps as
/// flags, quotes as a quote wrap, a wrap read off the affixes (as
/// `wrap_split` says); with a wrap the remaining affixes are inner ones.
pub open spec fn converted_rendering(f: FormattingOptions) -> RenderingV {
    let (w, p, s) = wrap_split(opt_view(f.prefix), opt_view(f.suffix));
    let wrap = if f.quotes == Some(true) {
        Some(WrapPunctuation::Quotes)
    } else {
        w
    };
    RenderingV {
        emph: match f.font_style {
            Some(x) => Some(x == FontStyle::Italic),
            None => None,
        },
        quote: f.quotes,
        strong: match f.font_weight {
            Some(x) => Some(x == FontWeight::Bold),
            None => None,
        },
        small_caps: match f.font_variant {
            Some(x) => Some(x == FontVariant::SmallCaps),
            None => None,
        },
        prefix: if wrap is Some { None } else { p },
        suffix: if wrap is Some { None } else { s },
        inner_prefix: if wrap is Some { p } else { None },
        inner_suffix: if wrap is Some { s } else { None },
        wrap,
        suppress: None,
        initialize_with: None,
        strip_periods: f.strip_periods,
    }
}

/// Whether a role is rare enough that a substitute role is preferred.
pub open spec fn is_rare_role(r: ContributorRole) -> bool {
    r == ContributorRole::Composer || r == ContributorRole::Illustrator || r == ContributorRole::Interviewer
        || r == ContributorRole::Inventor || r == ContributorRole::Counsel || r == ContributorRole::CollectionEditor
        || r == ContributorRole::EditorialDirector || r == ContributorRole::OriginalAuthor
        || r == ContributorRole::ReviewedAuthor
}

/// The first variable of `s` that names a role.
pub open spec fn first_role(s: Seq<Variable>) -> Option<ContributorRole>
    decreases s.len(),
{
    if s.len() == 0 {
        None
    } else {
        match role_of(s[0]) {
            Some(r) => Some(r),
            None => first_role(s.drop_first()),
        }
    }
}

/// The role of a names node: its variable's role, or for a rare role with
/// substitutes the first substitute that names a role.
pub open spec fn names_role(n: NamesBlock) -> Option<ContributorRole> {
    match role_of(n.variable) {
        None => None,
        Some(role) => if is_rare_role(role) && n.options.substitute@.len() > 0 {
            match first_role(n.options.substitute@) {
                Some(r) => Some(r),
                None => Some(role),
            }
        } else {
            Some(role)
        },
    }
}

/// The contributor form of a name mode: short for short and count.
pub open spec fn names_form(m: Option<NameMode>) -> ContributorForm {
    match m {
        Some(NameMode::Short) => ContributorForm::Short,
        Some(NameMode::Count) => ContributorForm::Short,
        _ => ContributorForm::Long,
    }
}

/// The conjunction option of a legacy "and".
pub open spec fn and_of(a: Option<AndTerm>) -> Option<AndOptions> {
    match a {
        Some(AndTerm::Text) => Some(AndOptions::Text),
        Some(AndTerm::Symbol) => Some(AndOptions::Symbol),
        None => None,
    }
}

/// The delimiter-precedes-last option of a legacy one (contextual when unset).
pub open spec fn precedes_of(d: Option<DelimiterPrecedes>) -> DelimiterPrecedesLast {
    match d {
        Some(DelimiterPrecedes::Always) => DelimiterPrecedesLast::Always,
        Some(DelimiterPrecedes::Never) => DelimiterPrecedesLast::Never,
        Some(DelimiterPrecedes::AfterInvertedName) => DelimiterPrecedesLast::AfterInvertedName,
        _ => DelimiterPrecedesLast::Contextual,
    }
}

/// The shortening of a names node: from its et-al settings, with "et al."
/// as the term and no trailing names.
pub open spec fn shorten_of(o: NamesOptions) -> Option<ShortenListOptions> {
    match o.et_al {
        Some(et) => Some(
            ShortenListOptions {
                min: et.min,
                use_first: et.use_first,
                use_last: None,
                and_others: AndOtherOptions::EtAl,
                delimiter_precedes_last: precedes_of(o.delimiter_precedes_last),
            },
        ),
        None => None,
    }
}

/// The component a names node compiles to.
pub open spec fn names_component(n: NamesBlock) -> Option<TCV> {
    match names_role(n) {
        None => None,
        Some(role) => Some(
            TCV::Contributor(
                TemplateContributor {
                    contributor: role,
                    form: names_form(n.options.mode),
                    label: None,
                    name_order: None,
                    delimiter: n.options.delimiter,
                    sort_separator: n.options.sort_separator,
                    shorten: shorten_of(n.options),
                    and: and_of(n.options.and),
                    rendering: empty_rendering(),
                    links: None,
                    overrides: None,
                },
                converted_rendering(n.formatting),
                None,
            ),
        ),
    }
}

/// The date form of a date node: its parts when year or year-month, full
/// for a text or numeric form, the year otherwise.
pub open spec fn date_form_of(parts: Option<DateParts>, form: Option<LegacyDateForm>) -> DateForm {
    match parts {
        Some(DateParts::Year) => DateForm::Year,
        Some(DateParts::YearMonth) => DateForm::YearMonth,
        _ => match form {
            Some(_) => DateForm::Full,
            None => DateForm::Year,
        },
    }
}

/// The component a date node compiles to.
pub open spec fn date_component(d: DateBlock) -> Option<TCV> {
    match date_of(d.variable) {
        None => None,
        Some(v) => Some(
            TCV::Date(
                TemplateDate {
                    date: v,
                    form: date_form_of(d.options.parts, d.options.form),
                    fallback: None,
                    rendering: empty_rendering(),
                    links: None,
                    overrides: None,
                },
                None,
                converted_rendering(d.formatting),
                None,
            ),
        ),
    }
}

/// The component a term node compiles to.
pub open spec fn term_component(t: TermBlock) -> TCV {
    TCV::Term(
        TemplateTerm { term: t.term, form: Some(t.form), rendering: empty_rendering(), overrides: None },
        converted_rendering(t.formatting),
        None,
    )
}

/// Type-specific formatting as overrides: each entry sets the rendering
/// for its type's name, a later entry for the same type replacing an
/// earlier one; none when there is no entry.
pub open spec fn overrides_of(s: Seq<(ItemType, FormattingOptions)>) -> OverridesV
    decreases s.len(),
{
    if s.len() == 0 {
        None
    } else {
        ov_insert(
            overrides_of(s.drop_last()),
            single(item_type_name(s.last().0)),
            OverrideV::Rendering(converted_rendering(s.last().1)),
        )
    }
}

/// The component a variable node compiles to: a contributor, a title, a
/// number or a simple variable, tried in that order.
pub open spec fn variable_component(v: VariableBlock) -> Option<TCV> {
    let r = converted_rendering(v.formatting);
    let o = overrides_of(v.overrides@);
    match role_of(v.variable) {
        Some(role) => Some(
            TCV::Contributor(
                TemplateContributor {
                    contributor: role,
                    form: ContributorForm::Long,
                    label: None,
                    name_order: None,
                    delimiter: None,
                    sort_separator: None,
                    shorten: None,
                    and: None,
                    rendering: empty_rendering(),
                    links: None,
                    overrides: None,
                },
                r,
                None,
            ),
        ),
        None => match title_of(v.variable) {
            Some(t) => Some(
                TCV::Title(
                    TemplateTitle {
                        title: t,
                        form: None,
                        disambiguate_only: None,
                        rendering: empty_rendering(),
                        links: None,
                        overrides: None,
                    },
                    r,
                    o,
                ),
            ),
            None => match number_of(v.variable) {
                Some(n) => Some(
                    TCV::Number(
                        TemplateNumber {
                            number: n,
                            form: None,
                            label_form: match v.label {
                                Some(l) => Some(label_form_of(l.form)),
                                None => None,
                            },
                            rendering: empty_rendering(),
                            links: None,
                            overrides: None,
                        },
                        r,
                        o,
                    ),
                ),
                None => match simple_of(v.variable) {
                    Some(s) => Some(
                        TCV::Variable(
                            TemplateVariable {
                                variable: s,
                                show_label: None,
                                strip_label_periods: None,
                                rendering: empty_rendering(),
                                links: None,
                                overrides: None,
                            },
                            r,
                            o,
                        ),
                    ),
                    None => None,
                },
            },
        },
    }
}

/// The component a node compiles to on its own: names, dates, variables
/// and terms do; text, groups and conditions do not.
pub open spec fn node_component(n: CslnNode) -> Option<TCV> {
    match n {
        CslnNode::Names(x) => names_component(x),
        CslnNode::Date(x) => date_component(x),
        CslnNode::Variable(x) => variable_component(x),
        CslnNode::Term(x) => Some(term_component(x)),
        _ => None,
    }
}

/// The contents of an optional component.
pub open spec fn opt_tc_view(c: Option<TemplateComponent>) -> Option<TCV> {
    match c {
        Some(x) => Some(tc_view(x)),
        None => None,
    }
}

impl TemplateCompiler {
    /// The role a variable names (`role_of`).
    pub fn map_variable_to_role(&self, var: &Variable) -> (r: Option<ContributorRole>)
        ensures
            r == role_of(*var),
            r is Some ==> role_str(r.unwrap()) == csl_variable_name(*var),
    {
        proof {
            law_role_keeps_its_name(*var);
        }
        match var {
            Variable::Author => Some(ContributorRole::Author),
            Variable::Editor => Some(ContributorRole::Editor),
            Variable::Translator => Some(ContributorRole::Translator),
            Variable::Director => Some(ContributorRole::Director),
            Variable::Composer => Some(ContributorRole::Composer),
            Variable::Illustrator => Some(ContributorRole::Illustrator),
            Variable::Interviewer => Some(ContributorRole::Interviewer),
            Variable::Recipient => Some(ContributorRole::Recipient),
            Variable::CollectionEditor => Some(ContributorRole::CollectionEditor),
            Variable::ContainerAuthor => Some(ContributorRole::ContainerAuthor),
            Variable::EditorialDirector => Some(ContributorRole::EditorialDirector),
            Variable::OriginalAuthor => Some(ContributorRole::OriginalAuthor),
            Variable::ReviewedAuthor => Some(ContributorRole::ReviewedAuthor),
            _ => None,
        }
    }

    /// The date variable a variable names (`date_of`).
    pub fn map_variable_to_date(&self, var: &Variable) -> (r: Option<DateVariable>)
        ensures
            r == date_of(*var),
            r is Some ==> date_variable_style_name(r.unwrap()) == date_name_for(csl_variable_name(*var)),
    {
        proof {
            law_date_variable_keeps_its_name(*var);
        }
        match var {
            Variable::Issued => Some(DateVariable::Issued),
            Variable::Accessed => Some(DateVariable::Accessed),
            Variable::OriginalDate => Some(DateVariable::OriginalPublished),
            Variable::Submitted => Some(DateVariable::Submitted),
            Variable::EventDate => Some(DateVariable::EventDate),
            _ => None,
        }
    }

    /// The title a variable names (`title_of`).
    pub fn map_variable_to_title(&self, var: &Variable) -> (r: Option<TitleType>)
        ensures
            r == title_of(*var),
    {
        match var {
            Variable::Title => Some(TitleType::Primary),
            Variable::ContainerTitle => Some(TitleType::ParentSerial),
            Variable::CollectionTitle => Some(TitleType::ParentMonograph),
            _ => None,
        }
    }

    /// The number variable a variable names (`number_of`).
    pub fn map_variable_to_number(&self, var: &Variable) -> (r: Option<NumberVariable>)
        ensures
            r == number_of(*var),
            r is Some ==> number_variable_style_name(r.unwrap()) == number_name_for(csl_variable_name(*var)),
    {
        proof {
            law_number_variable_keeps_its_name(*var);
        }
        match var {
            Variable::Volume => Some(NumberVariable::Volume),
            Variable::Issue => Some(NumberVariable::Issue),
            Variable::Page => Some(NumberVariable::Pages),
            Variable::Edition => Some(NumberVariable::Edition),
            Variable::ChapterNumber => Some(NumberVariable::ChapterNumber),
            Variable::CollectionNumber => Some(NumberVariable::CollectionNumber),
            Variable::NumberOfPages => Some(NumberVariable::NumberOfPages),
            Variable::CitationNumber => Some(NumberVariable::CitationNumber),
            Variable::Number => Some(NumberVariable::Number),
            _ => None,
        }
    }

    /// The simple variable a variable names (`simple_of`).
    pub fn map_variable_to_simple(&self, var: &Variable) -> (r: Option<SimpleVariable>)
        ensures
            r == simple_of(*var),
            r is Some ==> simple_variable_style_name(r.unwrap()) == style_spelling(csl_variable_name(*var)),
    {
        proof {
            law_simple_variable_keeps_its_name(*var);
        }
        match var {
            Variable::DOI => Some(SimpleVariable::Doi),
            Variable::ISBN => Some(SimpleVariable::Isbn),
            Variable::ISSN => Some(SimpleVariable::Issn),
            Variable::URL => Some(SimpleVariable::Url),
            Variable::Publisher => Some(SimpleVariable::Publisher),
            Variable::PublisherPlace => Some(SimpleVariable::PublisherPlace),
            Variable::Genre => Some(SimpleVariable::Genre),
            Variable::Authority => Some(SimpleVariable::Authority),
            Variable::Archive => Some(SimpleVariable::Archive),
            Variable::ArchiveLocation => Some(SimpleVariable::ArchiveLocation),
            Variable::Version => Some(SimpleVariable::Version),
            Variable::Medium => Some(SimpleVariable::Medium),
            Variable::Source => Some(SimpleVariable::Source),
            Variable::Status => Some(SimpleVariable::Status),
            Variable::Locator => Some(SimpleVariable::Locator),
            Variable::PMID => Some(SimpleVariable::Pmid),
            Variable::PMCID => Some(SimpleVariable::Pmcid),
            Variable::Note => Some(SimpleVariable::Note),
            Variable::Annote => Some(SimpleVariable::Annote),
            Variable::Abstract => Some(SimpleVariable::Abstract),
            _ => None,
        }
    }

    /// The template label form of a legacy one (`label_form_of`).
    pub fn map_label_form(&self, form: &LegacyLabelForm) -> (r: LabelForm)
        ensures
            r == label_form_of(*form),
    {
        match form {
            LegacyLabelForm::Long => LabelForm::Long,
            LegacyLabelForm::Short => LabelForm::Short,
            LegacyLabelForm::Symbol => LabelForm::Symbol,
            LegacyLabelForm::Verb => LabelForm::Long,
            LegacyLabelForm::VerbShort => LabelForm::Long,
        }
    }

    /// The CSL name of an item type (`item_type_name`).
    pub fn item_type_to_string(&self, item_type: &ItemType) -> (r: String)
        ensures
            r@ == item_type_name(*item_type),
    {
        let s: &str = match item_type {
            ItemType::Article => "article",
            ItemType::ArticleJournal => "article-journal",
            ItemType::ArticleMagazine => "article-magazine",
            ItemType::ArticleNewspaper => "article-newspaper",
            ItemType::Bill => "bill",
            ItemType::Book => "book",
            ItemType::Broadcast => "broadcast",
            ItemType::Chapter => "chapter",
            ItemType::Dataset => "dataset",
            ItemType::Entry => "entry",
            ItemType::EntryDictionary => "entry-dictionary",
            ItemType::EntryEncyclopedia => "entry-encyclopedia",
            ItemType::Figure => "figure",
            ItemType::Graphic => "graphic",
            ItemType::Interview => "interview",
            ItemType::LegalCase => "legal_case",
            ItemType::Legislation => "legislation",
            ItemType::Manuscript => "manuscript",
            ItemType::MapItem => "map",
            ItemType::MotionPicture => "motion_picture",
            ItemType::MusicalScore => "musical_score",
            ItemType::Pamphlet => "pamphlet",
            ItemType::PaperConference => "paper-conference",
            ItemType::Patent => "patent",
            ItemType::PersonalCommunication => "personal_communication",
            ItemType::Post => "post",
            ItemType::PostWeblog => "post-weblog",
            ItemType::Report => "report",
            ItemType::Review => "review",
            ItemType::ReviewBook => "review-book",
            ItemType::Song => "song",
            ItemType::Speech => "speech",
            ItemType::Thesis => "thesis",
            ItemType::Treaty => "treaty",
            ItemType::Webpage => "webpage",
            ItemType::Software => "software",
            ItemType::Standard => "standard",
        };
        to_owned_string(s)
    }

    /// `s` as an owned string, or nothing when it is empty.
    fn nonempty_string(s: &str) -> (r: Option<String>)
        ensures
            opt_view(r) == nonempty(s@),
    {
        if s.unicode_len() == 0 {
            None
        } else {
            Some(to_owned_string(s))
        }
    }

    /// Wrap punctuation read off a prefix and a suffix (`wrap_split`).
    pub fn infer_wrap_from_affixes(prefix: &Option<String>, suffix: &Option<String>) -> (r: (
        Option<WrapPunctuation>,
        Option<String>,
        Option<String>,
    ))
        ensures
            (r.0, opt_view(r.1), opt_view(r.2)) == wrap_split(opt_view(*prefix), opt_view(*suffix)),
    {
        match (prefix, suffix) {
            (Some(p), Some(s)) => {
                let pl = p.as_str().unicode_len();
                let sl = s.as_str().unicode_len();
                if pl > 0 && sl > 0 {
                    let last = p.as_str().get_char(pl - 1);
                    let first = s.as_str().get_char(0);
                    let wrap = if last == '(' && first == ')' {
                        Some(WrapPunctuation::Parentheses)
                    } else if last == '[' && first == ']' {
                        Some(WrapPunctuation::Brackets)
                    } else {
                        None
                    };
                    if wrap.is_some() {
                        let rest_prefix = p.as_str().substring_char(0, pl - 1);
                        let rest_suffix = s.as_str().substring_char(1, sl);
                        proof {
                            assert(rest_prefix@ =~= p@.drop_last());
                            assert(rest_suffix@ =~= s@.drop_first());
                        }
                        return (wrap, Self::nonempty_string(rest_prefix), Self::nonempty_string(rest_suffix));
                    }
                }
                (None, prefix.clone(), suffix.clone())
            },
            _ => (None, prefix.clone(), suffix.clone()),
        }
    }

    /// The rendering of legacy formatting (`converted_rendering`).
    pub fn convert_formatting(&self, fmt: &FormattingOptions) -> (r: Rendering)
        ensures
            rendering_view(r) == converted_rendering(*fmt),
    {
        let (w, rest_prefix, rest_suffix) = Self::infer_wrap_from_affixes(&fmt.prefix, &fmt.suffix);
        let wrap = if fmt.quotes == Some(true) {
            Some(WrapPunctuation::Quotes)
        } else {
            w
        };
        let wrapped = wrap.is_some();
        let (prefix, suffix, inner_prefix, inner_suffix) = if wrapped {
            (None, None, rest_prefix, rest_suffix)
        } else {
            (rest_prefix, rest_suffix, None, None)
        };
        Rendering {
            emph: match fmt.font_style {
                Some(x) => Some(x == FontStyle::Italic),
                None => None,
            },
            quote: fmt.quotes,
            strong: match fmt.font_weight {
                Some(x) => Some(x == FontWeight::Bold),
                None => None,
            },
            small_caps: match fmt.font_variant {
                Some(x) => Some(x == FontVariant::SmallCaps),
                None => None,
            },
            prefix,
            suffix,
            inner_prefix,
            inner_suffix,
            wrap,
            suppress: None,
            initialize_with: None,
            strip_periods: fmt.strip_periods,
        }
    }

    /// The first variable of `vars` that names a role (`first_role`).
    fn first_substitute_role(&self, vars: &Vec<Variable>) -> (r: Option<ContributorRole>)
        ensures
            r == first_role(vars@),
    {
        let mut i: usize = vars.len();
        let mut found: Option<ContributorRole> = None;
        proof {
            assert(vars@.subrange(i as int, vars@.len() as int) =~= Seq::<Variable>::empty());
        }
        while i > 0
            invariant
                i <= vars@.len(),
                found == first_role(vars@.subrange(i as int, vars@.len() as int)),
            decreases i,
        {
            i = i - 1;
            let ghost rest = vars@.subrange(i as int, vars@.len() as int);
            proof {
                assert(rest.drop_first() =~= vars@.subrange(i + 1, vars@.len() as int));
                assert(rest[0] == vars@[i as int]);
            }
            match self.map_variable_to_role(&vars[i]) {
                Some(r) => {
                    found = Some(r);
                },
                None => {},
            }
        }
        proof {
            assert(vars@.subrange(0, vars@.len() as int) =~= vars@);
        }
        found
    }

    /// Compiles a names node into a contributor (`names_component`).
    pub fn compile_names(&self, names: &NamesBlock) -> (r: Option<TemplateComponent>)
        ensures
            opt_tc_view(r) == names_component(*names),
    {
        let primary = self.map_variable_to_role(&names.variable);
        let role = match primary {
            None => {
                return None;
            },
            Some(role) => {
                let rare = match role {
                    ContributorRole::Composer | ContributorRole::Illustrator | ContributorRole::Interviewer
                    | ContributorRole::Inventor | ContributorRole::Counsel | ContributorRole::CollectionEditor
                    | ContributorRole::EditorialDirector | ContributorRole::OriginalAuthor
                    | ContributorRole::ReviewedAuthor => true,
                    _ => false,
                };
                if rare && names.options.substitute.len() > 0 {
                    match self.first_substitute_role(&names.options.substitute) {
                        Some(r) => r,
                        None => role,
                    }
                } else {
                    role
                }
            },
        };
        let form = match names.options.mode {
            Some(NameMode::Short) => ContributorForm::Short,
            Some(NameMode::Count) => ContributorForm::Short,
            _ => ContributorForm::Long,
        };
        let and = match names.options.and {
            Some(AndTerm::Text) => Some(AndOptions::Text),
            Some(AndTerm::Symbol) => Some(AndOptions::Symbol),
            None => None,
        };
        let shorten = match &names.options.et_al {
            Some(et) => Some(
                ShortenListOptions {
                    min: et.min,
                    use_first: et.use_first,
                    use_last: None,
                    and_others: AndOtherOptions::EtAl,
                    delimiter_precedes_last: match names.options.delimiter_precedes_last {
                        Some(DelimiterPrecedes::Always) => DelimiterPrecedesLast::Always,
                        Some(DelimiterPrecedes::Never) => DelimiterPrecedesLast::Never,
                        Some(DelimiterPrecedes::AfterInvertedName) => DelimiterPrecedesLast::AfterInvertedName,
                        _ => DelimiterPrecedesLast::Contextual,
                    },
                },
            ),
            None => None,
        };
        Some(
            TemplateComponent::Contributor(
                TemplateContributor {
                    contributor: role,
                    form,
                    label: None,
                    name_order: None,
                    delimiter: names.options.delimiter.clone(),
                    sort_separator: names.options.sort_separator.clone(),
                    shorten,
                    and,
                    rendering: self.convert_formatting(&names.formatting),
                    links: None,
                    overrides: None,
                },
            ),
        )
    }

    /// Compiles a date node into a date (`date_component`).
    pub fn compile_date(&self, date: &DateBlock) -> (r: Option<TemplateComponent>)
        ensures
            opt_tc_view(r) == date_component(*date),
    {
        let v = match self.map_variable_to_date(&date.variable) {
            Some(v) => v,
            None => {
                return None;
            },
        };
        let form = match date.options.parts {
            Some(DateParts::Year) => DateForm::Year,
            Some(DateParts::YearMonth) => DateForm::YearMonth,
            _ => match date.options.form {
                Some(_) => DateForm::Full,
                None => DateForm::Year,
            },
        };
        Some(
            TemplateComponent::Date(
                TemplateDate {
                    date: v,
                    form,
                    fallback: None,
                    rendering: self.convert_formatting(&date.formatting),
                    links: None,
                    overrides: None,
                },
            ),
        )
    }

    /// Compiles a term node into a term (`term_component`).
    pub fn compile_term(&self, term: &TermBlock) -> (r: TemplateComponent)
        ensures
            tc_view(r) == term_component(*term),
    {
        TemplateComponent::Term(
            TemplateTerm {
                term: term.term,
                form: Some(term.form),
                rendering: self.convert_formatting(&term.formatting),
                overrides: None,
            },
        )
    }

    /// Type-specific formatting as overrides (`overrides_of`).
    fn compile_overrides(&self, entries: &Vec<(ItemType, FormattingOptions)>) -> (r: Option<Vec<(TypeSelector, ComponentOverride)>>)
        ensures
            crate::template_view::ovs_view(r) == overrides_of(entries@),
    {
        let mut out: Option<Vec<(TypeSelector, ComponentOverride)>> = None;
        let mut i: usize = 0;
        while i < entries.len()
            invariant
                i <= entries@.len(),
                crate::template_view::ovs_view(out) == overrides_of(entries@.subrange(0, i as int)),
            decreases entries@.len() - i,
        {
            let ghost pre = entries@.subrange(0, i as int);
            proof {
                assert(entries@.subrange(0, i + 1).drop_last() =~= pre);
            }
            let name = self.item_type_to_string(&entries[i].0);
            let rendering = self.convert_formatting(&entries[i].1);
            insert_override(&mut out, TypeSelector::Single(name), ComponentOverride::Rendering(rendering));
            i = i + 1;
        }
        proof {
            assert(entries@.subrange(0, entries@.len() as int) =~= entries@);
        }
        out
    }

    /// Compiles a variable node (`variable_component`).
    pub fn compile_variable(&self, var: &VariableBlock) -> (r: Option<TemplateComponent>)
        ensures
            opt_tc_view(r) == variable_component(*var),
    {
        if let Some(role) = self.map_variable_to_role(&var.variable) {
            return Some(
                TemplateComponent::Contributor(
                    TemplateContributor {
                        contributor: role,
                        form: ContributorForm::Long,
                        label: None,
                        name_order: None,
                        delimiter: None,
                        sort_separator: None,
                        shorten: None,
                        and: None,
                        rendering: self.convert_formatting(&var.formatting),
                        links: None,
                        overrides: None,
                    },
                ),
            );
        }
        if let Some(title) = self.map_variable_to_title(&var.variable) {
            return Some(
                TemplateComponent::Title(
                    TemplateTitle {
                        title,
                        form: None,
                        disambiguate_only: None,
                        rendering: self.convert_formatting(&var.formatting),
                        links: None,
                        overrides: self.compile_overrides(&var.overrides),
                    },
                ),
            );
        }
        if let Some(number) = self.map_variable_to_number(&var.variable) {
            let label_form = match &var.label {
                Some(l) => Some(self.map_label_form(&l.form)),
                None => None,
            };
            return Some(
                TemplateComponent::Number(
                    TemplateNumber {
                        number,
                        form: None,
                        label_form,
                        rendering: self.convert_formatting(&var.formatting),
                        links: None,
                        overrides: self.compile_overrides(&var.overrides),
                    },
                ),
            );
        }
        if let Some(variable) = self.map_variable_to_simple(&var.variable) {
            return Some(
                TemplateComponent::Variable(
                    TemplateVariable {
                        variable,
                        show_label: None,
                        strip_label_periods: None,
                        rendering: self.convert_formatting(&var.formatting),
                        links: None,
                        overrides: self.compile_overrides(&var.overrides),
                    },
                ),
            );
        }
        None
    }

    /// The punctuation of an optional CSL delimiter, read as
    /// `DelimiterPunctuation::from_csl_string` reads it.
    pub fn map_delimiter(&self, delimiter: &Option<String>) -> (r: Option<DelimiterPunctuation>)
        ensures
            delimiter.is_none() ==> r.is_none(),
            delimiter.is_some() ==> r.is_some() && (r.unwrap() is Custom ==> delimiter_of_csl(delimiter.unwrap()@) is Custom
                && r.unwrap()->Custom_0@ == delimiter.unwrap()@) && (!(r.unwrap() is Custom) ==> r.unwrap()
                == delimiter_of_csl(delimiter.unwrap()@)),
    {
        match delimiter {
            Some(d) => Some(DelimiterPunctuation::from_csl_string(d.as_str())),
            None => None,
        }
    }

    /// Compiles one node on its own (`node_component`).
    pub fn compile_node(&self, node: &CslnNode) -> (r: Option<TemplateComponent>)
        ensures
            opt_tc_view(r) == node_component(*node),
    {
        match node {
            CslnNode::Names(x) => self.compile_names(x),
            CslnNode::Date(x) => self.compile_date(x),
            CslnNode::Variable(x) => self.compile_variable(x),
            CslnNode::Term(x) => Some(self.compile_term(x)),
            _ => None,
        }
    }

}

/// The text of optional affix text (empty when there is none).
pub open spec fn affix_text(a: Option<Seq<char>>) -> Seq<char> {
    match a {
        Some(t) => t,
        None => Seq::empty(),
    }
}

/// The opening character of a wrap read off affixes.
pub open spec fn wrap_open(w: WrapPunctuation) -> Seq<char> {
    if w == WrapPunctuation::Brackets {
        seq!['[']
    } else {
        seq!['(']
    }
}

/// The closing character of a wrap read off affixes.
pub open spec fn wrap_close(w: WrapPunctuation) -> Seq<char> {
    if w == WrapPunctuation::Brackets {
        seq![']']
    } else {
        seq![')']
    }
}

/// Reading a wrap off affixes loses no text: the prefix is what is left of
/// it followed by the opening punctuation, and the suffix the closing
/// punctuation followed by what is left of it; without a wrap both affixes
/// are kept as they are.
pub proof fn law_wrap_split_keeps_text(p: Seq<char>, s: Seq<char>)
    ensures
        ({
            let (w, rp, rs) = wrap_split(Some(p), Some(s));
            match w {
                Some(x) => p == affix_text(rp) + wrap_open(x) && s == wrap_close(x) + affix_text(rs),
                None => rp == Some(p) && rs == Some(s),
            }
        }),
{
    if p.len() > 0 && s.len() > 0 {
        assert(p =~= p.drop_last() + seq![p.last()]);
        assert(s =~= seq![s[0]] + s.drop_first());
        assert(affix_text(nonempty(p.drop_last())) =~= p.drop_last());
        assert(affix_text(nonempty(s.drop_first())) =~= s.drop_first());
    }
}

} // verus!
