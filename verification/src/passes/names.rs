//! The variant names of template enums, as their `Debug` form gives them:
//! the migration passes key components by these names.

use vstd::prelude::*;
use crate::template::{ContributorRole, DateVariable, NumberVariable, SimpleVariable, TitleType};
use crate::locale::types::GeneralTerm;

verus! {

/// The variant name of a `SimpleVariable`.
pub open spec fn simple_variable_name(v: SimpleVariable) -> Seq<char> {
    match v {
        SimpleVariable::Doi => "Doi"@,
        SimpleVariable::Isbn => "Isbn"@,
        SimpleVariable::Issn => "Issn"@,
        SimpleVariable::Url => "Url"@,
        SimpleVariable::Pmid => "Pmid"@,
        SimpleVariable::Pmcid => "Pmcid"@,
        SimpleVariable::Abstract => "Abstract"@,
        SimpleVariable::Note => "Note"@,
        SimpleVariable::Annote => "Annote"@,
        SimpleVariable::Keyword => "Keyword"@,
        SimpleVariable::Genre => "Genre"@,
        SimpleVariable::Medium => "Medium"@,
        SimpleVariable::Source => "Source"@,
        SimpleVariable::Status => "Status"@,
        SimpleVariable::Archive => "Archive"@,
        SimpleVariable::ArchiveLocation => "ArchiveLocation"@,
        SimpleVariable::Publisher => "Publisher"@,
        SimpleVariable::PublisherPlace => "PublisherPlace"@,
        SimpleVariable::EventPlace => "EventPlace"@,
        SimpleVariable::Dimensions => "Dimensions"@,
        SimpleVariable::Scale => "Scale"@,
        SimpleVariable::Version => "Version"@,
        SimpleVariable::Locator => "Locator"@,
        SimpleVariable::Authority => "Authority"@,
        SimpleVariable::Reporter => "Reporter"@,
        SimpleVariable::Page => "Page"@,
        SimpleVariable::Volume => "Volume"@,
        SimpleVariable::Number => "Number"@,
        SimpleVariable::DocketNumber => "DocketNumber"@,
        SimpleVariable::PatentNumber => "PatentNumber"@,
        SimpleVariable::StandardNumber => "StandardNumber"@,
        SimpleVariable::ReportNumber => "ReportNumber"@,
    }
}

/// The variant name of a `SimpleVariable`.
pub fn simple_variable_debug_name(v: SimpleVariable) -> (r: &'static str)
    ensures
        r@ == simple_variable_name(v),
{
    match v {
        SimpleVariable::Doi => "Doi",
        SimpleVariable::Isbn => "Isbn",
        SimpleVariable::Issn => "Issn",
        SimpleVariable::Url => "Url",
        SimpleVariable::Pmid => "Pmid",
        SimpleVariable::Pmcid => "Pmcid",
        SimpleVariable::Abstract => "Abstract",
        SimpleVariable::Note => "Note",
        SimpleVariable::Annote => "Annote",
        SimpleVariable::Keyword => "Keyword",
        SimpleVariable::Genre => "Genre",
        SimpleVariable::Medium => "Medium",
        SimpleVariable::Source => "Source",
        SimpleVariable::Status => "Status",
        SimpleVariable::Archive => "Archive",
        SimpleVariable::ArchiveLocation => "ArchiveLocation",
        SimpleVariable::Publisher => "Publisher",
        SimpleVariable::PublisherPlace => "PublisherPlace",
        SimpleVariable::EventPlace => "EventPlace",
        SimpleVariable::Dimensions => "Dimensions",
        SimpleVariable::Scale => "Scale",
        SimpleVariable::Version => "Version",
        SimpleVariable::Locator => "Locator",
        SimpleVariable::Authority => "Authority",
        SimpleVariable::Reporter => "Reporter",
        SimpleVariable::Page => "Page",
        SimpleVariable::Volume => "Volume",
        SimpleVariable::Number => "Number",
        SimpleVariable::DocketNumber => "DocketNumber",
        SimpleVariable::PatentNumber => "PatentNumber",
        SimpleVariable::StandardNumber => "StandardNumber",
        SimpleVariable::ReportNumber => "ReportNumber",
    }
}

/// The variant name of a `NumberVariable`.
pub open spec fn number_variable_name(v: NumberVariable) -> Seq<char> {
    match v {
        NumberVariable::Volume => "Volume"@,
        NumberVariable::Issue => "Issue"@,
        NumberVariable::Pages => "Pages"@,
        NumberVariable::Edition => "Edition"@,
        NumberVariable::ChapterNumber => "ChapterNumber"@,
        NumberVariable::CollectionNumber => "CollectionNumber"@,
        NumberVariable::NumberOfPages => "NumberOfPages"@,
        NumberVariable::NumberOfVolumes => "NumberOfVolumes"@,
        NumberVariable::CitationNumber => "CitationNumber"@,
        NumberVariable::CitationLabel => "CitationLabel"@,
        NumberVariable::Number => "Number"@,
        NumberVariable::DocketNumber => "DocketNumber"@,
        NumberVariable::PatentNumber => "PatentNumber"@,
        NumberVariable::StandardNumber => "StandardNumber"@,
        NumberVariable::ReportNumber => "ReportNumber"@,
    }
}

/// The variant name of a `NumberVariable`.
pub fn number_variable_debug_name(v: NumberVariable) -> (r: &'static str)
    ensures
        r@ == number_variable_name(v),
{
    match v {
        NumberVariable::Volume => "Volume",
        NumberVariable::Issue => "Issue",
        NumberVariable::Pages => "Pages",
        NumberVariable::Edition => "Edition",
        NumberVariable::ChapterNumber => "ChapterNumber",
        NumberVariable::CollectionNumber => "CollectionNumber",
        NumberVariable::NumberOfPages => "NumberOfPages",
        NumberVariable::NumberOfVolumes => "NumberOfVolumes",
        NumberVariable::CitationNumber => "CitationNumber",
        NumberVariable::CitationLabel => "CitationLabel",
        NumberVariable::Number => "Number",
        NumberVariable::DocketNumber => "DocketNumber",
        NumberVariable::PatentNumber => "PatentNumber",
        NumberVariable::StandardNumber => "StandardNumber",
        NumberVariable::ReportNumber => "ReportNumber",
    }
}

/// The variant name of a `DateVariable`.
pub open spec fn date_variable_name(v: DateVariable) -> Seq<char> {
    match v {
        DateVariable::Issued => "Issued"@,
        DateVariable::Accessed => "Accessed"@,
        DateVariable::OriginalPublished => "OriginalPublished"@,
        DateVariable::Submitted => "Submitted"@,
        DateVariable::EventDate => "EventDate"@,
    }
}

/// The variant name of a `DateVariable`.
pub fn date_variable_debug_name(v: DateVariable) -> (r: &'static str)
    ensures
        r@ == date_variable_name(v),
{
    match v {
        DateVariable::Issued => "Issued",
        DateVariable::Accessed => "Accessed",
        DateVariable::OriginalPublished => "OriginalPublished",
        DateVariable::Submitted => "Submitted",
        DateVariable::EventDate => "EventDate",
    }
}

/// The variant name of a `TitleType`.
pub open spec fn title_type_name(v: TitleType) -> Seq<char> {
    match v {
        TitleType::Primary => "Primary"@,
        TitleType::ParentMonograph => "ParentMonograph"@,
        TitleType::ParentSerial => "ParentSerial"@,
    }
}

/// The variant name of a `TitleType`.
pub fn title_type_debug_name(v: TitleType) -> (r: &'static str)
    ensures
        r@ == title_type_name(v),
{
    match v {
        TitleType::Primary => "Primary",
        TitleType::ParentMonograph => "ParentMonograph",
        TitleType::ParentSerial => "ParentSerial",
    }
}

/// The variant name of a `ContributorRole`.
pub open spec fn contributor_role_name(v: ContributorRole) -> Seq<char> {
    match v {
        ContributorRole::Author => "Author"@,
        ContributorRole::Editor => "Editor"@,
        ContributorRole::Translator => "Translator"@,
        ContributorRole::Director => "Director"@,
        ContributorRole::Publisher => "Publisher"@,
        ContributorRole::Recipient => "Recipient"@,
        ContributorRole::Interviewer => "Interviewer"@,
        ContributorRole::Interviewee => "Interviewee"@,
        ContributorRole::Inventor => "Inventor"@,
        ContributorRole::Counsel => "Counsel"@,
        ContributorRole::Composer => "Composer"@,
        ContributorRole::CollectionEditor => "CollectionEditor"@,
        ContributorRole::ContainerAuthor => "ContainerAuthor"@,
        ContributorRole::EditorialDirector => "EditorialDirector"@,
        ContributorRole::Illustrator => "Illustrator"@,
        ContributorRole::OriginalAuthor => "OriginalAuthor"@,
        ContributorRole::ReviewedAuthor => "ReviewedAuthor"@,
    }
}

/// The variant name of a `ContributorRole`.
pub fn contributor_role_debug_name(v: ContributorRole) -> (r: &'static str)
    ensures
        r@ == contributor_role_name(v),
{
    match v {
        ContributorRole::Author => "Author",
        ContributorRole::Editor => "Editor",
        ContributorRole::Translator => "Translator",
        ContributorRole::Director => "Director",
        ContributorRole::Publisher => "Publisher",
        ContributorRole::Recipient => "Recipient",
        ContributorRole::Interviewer => "Interviewer",
        ContributorRole::Interviewee => "Interviewee",
        ContributorRole::Inventor => "Inventor",
        ContributorRole::Counsel => "Counsel",
        ContributorRole::Composer => "Composer",
        ContributorRole::CollectionEditor => "CollectionEditor",
        ContributorRole::ContainerAuthor => "ContainerAuthor",
        ContributorRole::EditorialDirector => "EditorialDirector",
        ContributorRole::Illustrator => "Illustrator",
        ContributorRole::OriginalAuthor => "OriginalAuthor",
        ContributorRole::ReviewedAuthor => "ReviewedAuthor",
    }
}

/// The variant name of a `GeneralTerm`.
pub open spec fn general_term_name(t: GeneralTerm) -> Seq<char> {
    match t {
        GeneralTerm::In => "In"@,
        GeneralTerm::Accessed => "Accessed"@,
        GeneralTerm::Retrieved => "Retrieved"@,
        GeneralTerm::At => "At"@,
        GeneralTerm::From => "From"@,
        GeneralTerm::By => "By"@,
        GeneralTerm::NoDate => "NoDate"@,
        GeneralTerm::Anonymous => "Anonymous"@,
        GeneralTerm::Circa => "Circa"@,
        GeneralTerm::AvailableAt => "AvailableAt"@,
        GeneralTerm::Ibid => "Ibid"@,
        GeneralTerm::And => "And"@,
        GeneralTerm::EtAl => "EtAl"@,
        GeneralTerm::AndOthers => "AndOthers"@,
        GeneralTerm::Forthcoming => "Forthcoming"@,
        GeneralTerm::Online => "Online"@,
        GeneralTerm::ReviewOf => "ReviewOf"@,
        GeneralTerm::OriginalWorkPublished => "OriginalWorkPublished"@,
        GeneralTerm::Patent => "Patent"@,
        GeneralTerm::Volume => "Volume"@,
        GeneralTerm::Issue => "Issue"@,
        GeneralTerm::Page => "Page"@,
        GeneralTerm::Chapter => "Chapter"@,
        GeneralTerm::Edition => "Edition"@,
        GeneralTerm::Section => "Section"@,
    }
}

/// The variant name of a `GeneralTerm`.
pub fn general_term_debug_name(t: GeneralTerm) -> (r: &'static str)
    ensures
        r@ == general_term_name(t),
{
    match t {
        GeneralTerm::In => "In",
        GeneralTerm::Accessed => "Accessed",
        GeneralTerm::Retrieved => "Retrieved",
        GeneralTerm::At => "At",
        GeneralTerm::From => "From",
        GeneralTerm::By => "By",
        GeneralTerm::NoDate => "NoDate",
        GeneralTerm::Anonymous => "Anonymous",
        GeneralTerm::Circa => "Circa",
        GeneralTerm::AvailableAt => "AvailableAt",
        GeneralTerm::Ibid => "Ibid",
        GeneralTerm::And => "And",
        GeneralTerm::EtAl => "EtAl",
        GeneralTerm::AndOthers => "AndOthers",
        GeneralTerm::Forthcoming => "Forthcoming",
        GeneralTerm::Online => "Online",
        GeneralTerm::ReviewOf => "ReviewOf",
        GeneralTerm::OriginalWorkPublished => "OriginalWorkPublished",
        GeneralTerm::Patent => "Patent",
        GeneralTerm::Volume => "Volume",
        GeneralTerm::Issue => "Issue",
        GeneralTerm::Page => "Page",
        GeneralTerm::Chapter => "Chapter",
        GeneralTerm::Edition => "Edition",
        GeneralTerm::Section => "Section",
    }
}

} // verus!
