//! A reference is a bibliographic item, such as a book, article, or web page.
//! It is the basic unit of bibliographic data.

pub mod contributor;
pub mod conversion;
pub mod csl_json;
pub mod date;
pub mod types;

use vstd::prelude::*;
use crate::reference::contributor::{
    contributor_location, contributor_name, copy_opt_contributor, same_opt_contributor, Contributor,
};
use crate::reference::date::{copy_opt_edtf, EdtfString};
use crate::reference::types::{
    copy_opt_num, copy_opt_title, opt_str_as_num, same_opt_title, Brief, Classic, Collection,
    CollectionComponent, CollectionType, Dataset, FieldLanguageMap, Hearing, LegalCase, Monograph,
    MonographComponentType, MonographType, NumOrStr, Parent, Patent, Regulation, Serial,
    SerialComponent, SerialType, Software, Standard, Statute, Title, Treaty,
};
use crate::text::{ascii_lower_seq, contains_seq, contains_str, opt_view, str_eq, to_ascii_lowercase, to_owned_string};
use crate::vecs::copy_opt_strings;

verus! {

/// The reference model: one class per kind of bibliographic item.
#[derive(Debug, PartialEq)]
pub enum InputReference {
    /// A monograph, such as a book or a report.
    Monograph(Box<Monograph>),
    /// A component of a collection, such as a chapter in a book.
    CollectionComponent(Box<CollectionComponent>),
    /// A component of a serial, such as a journal or newspaper article.
    SerialComponent(Box<SerialComponent>),
    /// A collection of works, such as an anthology or proceedings.
    Collection(Box<Collection>),
    /// A legal case (court decision).
    LegalCase(Box<LegalCase>),
    /// A statute or legislative act.
    Statute(Box<Statute>),
    /// An international treaty or agreement.
    Treaty(Box<Treaty>),
    /// A legislative or administrative hearing.
    Hearing(Box<Hearing>),
    /// An administrative regulation.
    Regulation(Box<Regulation>),
    /// A legal brief or filing.
    Brief(Box<Brief>),
    /// A classic work with standard citation forms.
    Classic(Box<Classic>),
    /// A patent.
    Patent(Box<Patent>),
    /// A research dataset.
    Dataset(Box<Dataset>),
    /// A technical standard or specification.
    Standard(Box<Standard>),
    /// Software or source code.
    Software(Box<Software>),
}

/// The reference ID, as `InputReference::id` returns it.
pub open spec fn id_of(r: InputReference) -> Option<String> {
    match r {
        InputReference::Monograph(x) => x.id,
        InputReference::CollectionComponent(x) => x.id,
        InputReference::SerialComponent(x) => x.id,
        InputReference::Collection(x) => x.id,
        InputReference::LegalCase(x) => x.id,
        InputReference::Statute(x) => x.id,
        InputReference::Treaty(x) => x.id,
        InputReference::Hearing(x) => x.id,
        InputReference::Regulation(x) => x.id,
        InputReference::Brief(x) => x.id,
        InputReference::Classic(x) => x.id,
        InputReference::Patent(x) => x.id,
        InputReference::Dataset(x) => x.id,
        InputReference::Standard(x) => x.id,
        InputReference::Software(x) => x.id,
    }
}

/// The author, as `InputReference::author` returns it.
pub open spec fn author_of(r: InputReference) -> Option<Contributor> {
    match r {
        InputReference::Monograph(x) => x.author,
        InputReference::CollectionComponent(x) => x.author,
        InputReference::SerialComponent(x) => x.author,
        InputReference::Treaty(x) => x.author,
        InputReference::Brief(x) => x.author,
        InputReference::Classic(x) => x.author,
        InputReference::Patent(x) => x.author,
        InputReference::Dataset(x) => x.author,
        InputReference::Software(x) => x.author,
        _ => None,
    }
}

/// The editor; of a chapter, that of its embedded collection, as `InputReference::editor` returns it.
pub open spec fn editor_of(r: InputReference) -> Option<Contributor> {
    match r {
        InputReference::Monograph(x) => x.editor,
        InputReference::Collection(x) => x.editor,
        InputReference::CollectionComponent(x) => match x.parent { Parent::Embedded(p) => p.editor, Parent::Id(_) => None },
        InputReference::Classic(x) => x.editor,
        _ => None,
    }
}

/// The translator, as `InputReference::translator` returns it.
pub open spec fn translator_of(r: InputReference) -> Option<Contributor> {
    match r {
        InputReference::Monograph(x) => x.translator,
        InputReference::CollectionComponent(x) => x.translator,
        InputReference::SerialComponent(x) => x.translator,
        InputReference::Collection(x) => x.translator,
        InputReference::Classic(x) => x.translator,
        _ => None,
    }
}

/// The publisher; of a component, that of its embedded parent, as `InputReference::publisher` returns it.
pub open spec fn publisher_of(r: InputReference) -> Option<Contributor> {
    match r {
        InputReference::Monograph(x) => x.publisher,
        InputReference::CollectionComponent(x) => match x.parent { Parent::Embedded(p) => p.publisher, Parent::Id(_) => None },
        InputReference::SerialComponent(x) => match x.parent { Parent::Embedded(p) => p.publisher, Parent::Id(_) => None },
        InputReference::Collection(x) => x.publisher,
        InputReference::Classic(x) => x.publisher,
        InputReference::Dataset(x) => x.publisher,
        InputReference::Standard(x) => x.publisher,
        InputReference::Software(x) => x.publisher,
        _ => None,
    }
}

/// The title, as `InputReference::title` returns it.
pub open spec fn title_of(r: InputReference) -> Option<Title> {
    match r {
        InputReference::Monograph(x) => Some(x.title),
        InputReference::CollectionComponent(x) => x.title,
        InputReference::SerialComponent(x) => x.title,
        InputReference::Collection(x) => x.title,
        InputReference::LegalCase(x) => Some(x.title),
        InputReference::Statute(x) => Some(x.title),
        InputReference::Treaty(x) => Some(x.title),
        InputReference::Hearing(x) => Some(x.title),
        InputReference::Regulation(x) => Some(x.title),
        InputReference::Brief(x) => Some(x.title),
        InputReference::Classic(x) => Some(x.title),
        InputReference::Patent(x) => Some(x.title),
        InputReference::Dataset(x) => Some(x.title),
        InputReference::Standard(x) => Some(x.title),
        InputReference::Software(x) => Some(x.title),
    }
}

/// The issued date, as `InputReference::issued` returns it.
pub open spec fn issued_of(r: InputReference) -> Option<EdtfString> {
    match r {
        InputReference::Monograph(x) => Some(x.issued),
        InputReference::CollectionComponent(x) => Some(x.issued),
        InputReference::SerialComponent(x) => Some(x.issued),
        InputReference::Collection(x) => Some(x.issued),
        InputReference::LegalCase(x) => Some(x.issued),
        InputReference::Statute(x) => Some(x.issued),
        InputReference::Treaty(x) => Some(x.issued),
        InputReference::Hearing(x) => Some(x.issued),
        InputReference::Regulation(x) => Some(x.issued),
        InputReference::Brief(x) => Some(x.issued),
        InputReference::Classic(x) => Some(x.issued),
        InputReference::Patent(x) => Some(x.issued),
        InputReference::Dataset(x) => Some(x.issued),
        InputReference::Standard(x) => Some(x.issued),
        InputReference::Software(x) => Some(x.issued),
    }
}

/// The DOI, as `InputReference::doi` returns it.
pub open spec fn doi_of(r: InputReference) -> Option<String> {
    match r {
        InputReference::Monograph(x) => x.doi,
        InputReference::CollectionComponent(x) => x.doi,
        InputReference::SerialComponent(x) => x.doi,
        InputReference::LegalCase(x) => x.doi,
        InputReference::Dataset(x) => x.doi,
        InputReference::Software(x) => x.doi,
        _ => None,
    }
}

/// The URL, as `InputReference::url` returns it; every kind of reference
/// has one field for it.
pub open spec fn url_of(r: InputReference) -> Option<String> {
    match r {
        InputReference::Monograph(x) => x.url,
        InputReference::CollectionComponent(x) => x.url,
        InputReference::SerialComponent(x) => x.url,
        InputReference::Collection(x) => x.url,
        InputReference::LegalCase(x) => x.url,
        InputReference::Statute(x) => x.url,
        InputReference::Treaty(x) => x.url,
        InputReference::Hearing(x) => x.url,
        InputReference::Regulation(x) => x.url,
        InputReference::Brief(x) => x.url,
        InputReference::Classic(x) => x.url,
        InputReference::Patent(x) => x.url,
        InputReference::Dataset(x) => x.url,
        InputReference::Standard(x) => x.url,
        InputReference::Software(x) => x.url,
    }
}

/// The note, as `InputReference::note` returns it.
pub open spec fn note_of(r: InputReference) -> Option<String> {
    match r {
        InputReference::Monograph(x) => x.note,
        InputReference::CollectionComponent(x) => x.note,
        InputReference::SerialComponent(x) => x.note,
        InputReference::LegalCase(x) => x.note,
        InputReference::Statute(x) => x.note,
        InputReference::Treaty(x) => x.note,
        InputReference::Standard(x) => x.note,
        _ => None,
    }
}

/// The genre, as `InputReference::genre` returns it.
pub open spec fn genre_of(r: InputReference) -> Option<String> {
    match r {
        InputReference::Monograph(x) => x.genre,
        InputReference::CollectionComponent(x) => x.genre,
        InputReference::SerialComponent(x) => x.genre,
        _ => None,
    }
}

/// The medium, as `InputReference::medium` returns it.
pub open spec fn medium_of(r: InputReference) -> Option<String> {
    match r {
        InputReference::Monograph(x) => x.medium,
        InputReference::CollectionComponent(x) => x.medium,
        InputReference::SerialComponent(x) => x.medium,
        _ => None,
    }
}

/// The version, as `InputReference::version` returns it.
pub open spec fn version_of(r: InputReference) -> Option<String> {
    match r {
        InputReference::Dataset(x) => x.version,
        InputReference::Software(x) => x.version,
        _ => None,
    }
}

/// The title of the embedded parent of a component, as `InputReference::container_title` returns it.
pub open spec fn container_title_of(r: InputReference) -> Option<Title> {
    match r {
        InputReference::CollectionComponent(x) => match x.parent { Parent::Embedded(p) => p.title, Parent::Id(_) => None },
        InputReference::SerialComponent(x) => match x.parent { Parent::Embedded(p) => Some(p.title), Parent::Id(_) => None },
        _ => None,
    }
}

/// The volume, as `InputReference::volume` returns it.
pub open spec fn volume_of(r: InputReference) -> Option<NumOrStr> {
    match r {
        InputReference::SerialComponent(x) => x.volume,
        InputReference::LegalCase(x) => match x.volume { Some(s) => Some(NumOrStr::Str(s)), None => None },
        InputReference::Statute(x) => match x.volume { Some(s) => Some(NumOrStr::Str(s)), None => None },
        InputReference::Treaty(x) => match x.volume { Some(s) => Some(NumOrStr::Str(s)), None => None },
        InputReference::Regulation(x) => match x.volume { Some(s) => Some(NumOrStr::Str(s)), None => None },
        InputReference::Classic(x) => match x.volume { Some(s) => Some(NumOrStr::Str(s)), None => None },
        _ => None,
    }
}

/// The collection (series) number, as `InputReference::collection_number` returns it.
pub open spec fn collection_number_of(r: InputReference) -> Option<String> {
    match r {
        InputReference::Monograph(x) => x.collection_number,
        InputReference::Collection(x) => x.collection_number,
        InputReference::CollectionComponent(x) => match x.parent { Parent::Embedded(p) => p.collection_number, Parent::Id(_) => None },
        _ => None,
    }
}

/// The issue, as `InputReference::issue` returns it.
pub open spec fn issue_of(r: InputReference) -> Option<NumOrStr> {
    match r {
        InputReference::SerialComponent(x) => x.issue,
        _ => None,
    }
}

/// The pages, as `InputReference::pages` returns it.
pub open spec fn pages_of(r: InputReference) -> Option<NumOrStr> {
    match r {
        InputReference::CollectionComponent(x) => x.pages,
        InputReference::SerialComponent(x) => match x.pages { Some(s) => Some(NumOrStr::Str(s)), None => None },
        InputReference::LegalCase(x) => match x.page { Some(s) => Some(NumOrStr::Str(s)), None => None },
        InputReference::Treaty(x) => match x.page { Some(s) => Some(NumOrStr::Str(s)), None => None },
        _ => None,
    }
}

/// The authority (court, legislative body, standards body), as `InputReference::authority` returns it.
pub open spec fn authority_of(r: InputReference) -> Option<String> {
    match r {
        InputReference::LegalCase(x) => Some(x.authority),
        InputReference::Statute(x) => x.authority,
        InputReference::Hearing(x) => x.authority,
        InputReference::Regulation(x) => x.authority,
        InputReference::Brief(x) => x.authority,
        InputReference::Standard(x) => x.authority,
        _ => None,
    }
}

/// The reporter (legal reporter series), as `InputReference::reporter` returns it.
pub open spec fn reporter_of(r: InputReference) -> Option<String> {
    match r {
        InputReference::LegalCase(x) => x.reporter,
        InputReference::Treaty(x) => x.reporter,
        _ => None,
    }
}

/// The code (legal code abbreviation), as `InputReference::code` returns it.
pub open spec fn code_of(r: InputReference) -> Option<String> {
    match r {
        InputReference::Statute(x) => x.code,
        InputReference::Regulation(x) => x.code,
        _ => None,
    }
}

/// The section, as `InputReference::section` returns it.
pub open spec fn section_of(r: InputReference) -> Option<String> {
    match r {
        InputReference::Statute(x) => x.section,
        InputReference::Regulation(x) => x.section,
        InputReference::Classic(x) => x.section,
        _ => None,
    }
}

/// The number (report, session, docket, patent or standard number), as `InputReference::number` returns it.
pub open spec fn number_of(r: InputReference) -> Option<String> {
    match r {
        InputReference::Monograph(x) => x.report_number,
        InputReference::Hearing(x) => x.session_number,
        InputReference::Brief(x) => x.docket_number,
        InputReference::Patent(x) => Some(x.patent_number),
        InputReference::Standard(x) => Some(x.standard_number),
        _ => None,
    }
}

/// The edition, as `InputReference::edition` returns it.
pub open spec fn edition_of(r: InputReference) -> Option<String> {
    match r {
        InputReference::Monograph(x) => x.edition,
        _ => None,
    }
}

/// The accessed date, as `InputReference::accessed` returns it.
pub open spec fn accessed_of(r: InputReference) -> Option<EdtfString> {
    match r {
        InputReference::Monograph(x) => x.accessed,
        InputReference::CollectionComponent(x) => x.accessed,
        InputReference::SerialComponent(x) => x.accessed,
        InputReference::Collection(x) => x.accessed,
        InputReference::LegalCase(x) => x.accessed,
        InputReference::Statute(x) => x.accessed,
        InputReference::Treaty(x) => x.accessed,
        InputReference::Hearing(x) => x.accessed,
        InputReference::Regulation(x) => x.accessed,
        InputReference::Brief(x) => x.accessed,
        InputReference::Classic(x) => x.accessed,
        InputReference::Patent(x) => x.accessed,
        InputReference::Dataset(x) => x.accessed,
        InputReference::Standard(x) => x.accessed,
        InputReference::Software(x) => x.accessed,
    }
}

/// The original publication date, as `InputReference::original_date` returns it.
pub open spec fn original_date_of(r: InputReference) -> Option<EdtfString> {
    match r {
        InputReference::Monograph(x) => x.original_date,
        _ => None,
    }
}

/// The ISBN, as `InputReference::isbn` returns it.
pub open spec fn isbn_of(r: InputReference) -> Option<String> {
    match r {
        InputReference::Monograph(x) => x.isbn,
        _ => None,
    }
}

/// The ISSN of the embedded serial of an article, as `InputReference::issn` returns it.
pub open spec fn issn_of(r: InputReference) -> Option<String> {
    match r {
        InputReference::SerialComponent(x) => match x.parent { Parent::Embedded(p) => p.issn, Parent::Id(_) => None },
        _ => None,
    }
}

/// The keywords, as `InputReference::keywords` returns it.
pub open spec fn keywords_of(r: InputReference) -> Option<Vec<String>> {
    match r {
        InputReference::Monograph(x) => x.keywords,
        InputReference::CollectionComponent(x) => x.keywords,
        InputReference::SerialComponent(x) => x.keywords,
        InputReference::Collection(x) => x.keywords,
        InputReference::LegalCase(x) => x.keywords,
        InputReference::Statute(x) => x.keywords,
        InputReference::Treaty(x) => x.keywords,
        InputReference::Hearing(x) => x.keywords,
        InputReference::Regulation(x) => x.keywords,
        InputReference::Brief(x) => x.keywords,
        InputReference::Classic(x) => x.keywords,
        InputReference::Patent(x) => x.keywords,
        InputReference::Dataset(x) => x.keywords,
        InputReference::Standard(x) => x.keywords,
        InputReference::Software(x) => x.keywords,
    }
}

/// The language, as `InputReference::language` returns it.
pub open spec fn language_of(r: InputReference) -> Option<String> {
    match r {
        InputReference::Monograph(x) => x.language,
        InputReference::CollectionComponent(x) => x.language,
        InputReference::SerialComponent(x) => x.language,
        InputReference::Collection(x) => x.language,
        InputReference::LegalCase(x) => x.language,
        InputReference::Statute(x) => x.language,
        InputReference::Treaty(x) => x.language,
        InputReference::Hearing(x) => x.language,
        InputReference::Regulation(x) => x.language,
        InputReference::Brief(x) => x.language,
        InputReference::Classic(x) => x.language,
        InputReference::Patent(x) => x.language,
        InputReference::Dataset(x) => x.language,
        InputReference::Standard(x) => x.language,
        InputReference::Software(x) => x.language,
    }
}

/// The publisher of a reference: the one `InputReference::publisher_place`
/// and `InputReference::publisher_str` read.
pub open spec fn publisher_source(r: InputReference) -> Option<Contributor> {
    publisher_of(r)
}

/// The location of an optional contributor.
pub open spec fn opt_location(c: Option<Contributor>) -> Option<String> {
    match c {
        Some(x) => contributor_location(x),
        None => None,
    }
}

/// The single-string name of an optional contributor.
pub open spec fn opt_name(c: Option<Contributor>) -> Option<Seq<char>> {
    match c {
        Some(x) => contributor_name(x),
        None => None,
    }
}

/// The field-level language overrides of a reference.
pub open spec fn field_languages_of(r: InputReference) -> FieldLanguageMap {
    match r {
        InputReference::Monograph(x) => x.field_languages,
        InputReference::CollectionComponent(x) => x.field_languages,
        InputReference::SerialComponent(x) => x.field_languages,
        InputReference::Collection(x) => x.field_languages,
        InputReference::LegalCase(x) => x.field_languages,
        InputReference::Statute(x) => x.field_languages,
        InputReference::Treaty(x) => x.field_languages,
        InputReference::Hearing(x) => x.field_languages,
        InputReference::Regulation(x) => x.field_languages,
        InputReference::Brief(x) => x.field_languages,
        InputReference::Classic(x) => x.field_languages,
        InputReference::Patent(x) => x.field_languages,
        InputReference::Dataset(x) => x.field_languages,
        InputReference::Standard(x) => x.field_languages,
        InputReference::Software(x) => x.field_languages,
    }
}

/// The reference with its ID set to `id`, all else unchanged.
pub open spec fn with_id(r: InputReference, id: String) -> InputReference {
    match r {
        InputReference::Monograph(x) => InputReference::Monograph(Box::new(Monograph { id: Some(id), ..*x })),
        InputReference::CollectionComponent(x) => InputReference::CollectionComponent(Box::new(CollectionComponent { id: Some(id), ..*x })),
        InputReference::SerialComponent(x) => InputReference::SerialComponent(Box::new(SerialComponent { id: Some(id), ..*x })),
        InputReference::Collection(x) => InputReference::Collection(Box::new(Collection { id: Some(id), ..*x })),
        InputReference::LegalCase(x) => InputReference::LegalCase(Box::new(LegalCase { id: Some(id), ..*x })),
        InputReference::Statute(x) => InputReference::Statute(Box::new(Statute { id: Some(id), ..*x })),
        InputReference::Treaty(x) => InputReference::Treaty(Box::new(Treaty { id: Some(id), ..*x })),
        InputReference::Hearing(x) => InputReference::Hearing(Box::new(Hearing { id: Some(id), ..*x })),
        InputReference::Regulation(x) => InputReference::Regulation(Box::new(Regulation { id: Some(id), ..*x })),
        InputReference::Brief(x) => InputReference::Brief(Box::new(Brief { id: Some(id), ..*x })),
        InputReference::Classic(x) => InputReference::Classic(Box::new(Classic { id: Some(id), ..*x })),
        InputReference::Patent(x) => InputReference::Patent(Box::new(Patent { id: Some(id), ..*x })),
        InputReference::Dataset(x) => InputReference::Dataset(Box::new(Dataset { id: Some(id), ..*x })),
        InputReference::Standard(x) => InputReference::Standard(Box::new(Standard { id: Some(id), ..*x })),
        InputReference::Software(x) => InputReference::Software(Box::new(Software { id: Some(id), ..*x })),
    }
}

/// Whether an optional medium names an interview (ASCII case-insensitively).
pub open spec fn is_interview_medium(m: Option<String>) -> bool {
    m is Some && contains_seq(ascii_lower_seq(m.unwrap()@), "interview"@)
}

/// Whether an optional genre names a film (ASCII case-insensitively).
pub open spec fn is_film_genre(g: Option<String>) -> bool {
    g is Some && contains_seq(ascii_lower_seq(g.unwrap()@), "film"@)
}

/// The CSL type name of a reference.
pub open spec fn ref_type_of(r: InputReference) -> Seq<char> {
    match r {
        InputReference::Monograph(x) => match x.kind {
            MonographType::Book => if is_interview_medium(x.medium) { "interview"@ } else { "book"@ },
            MonographType::Report => "report"@,
            MonographType::Thesis => "thesis"@,
            MonographType::Webpage => "webpage"@,
            MonographType::Post => "post"@,
            MonographType::PersonalCommunication => "personal-communication"@,
            MonographType::Document => if is_interview_medium(x.medium) { "interview"@ } else { "document"@ },
        },
        InputReference::CollectionComponent(x) => match x.kind {
            MonographComponentType::Chapter => "chapter"@,
            MonographComponentType::Document => "paper-conference"@,
        },
        InputReference::SerialComponent(x) => match x.parent {
            Parent::Embedded(s) => match s.kind {
                SerialType::AcademicJournal => if x.genre is Some && x.genre.unwrap()@ == "entry-encyclopedia"@ {
                    "entry-encyclopedia"@
                } else {
                    "article-journal"@
                },
                SerialType::Magazine => "article-magazine"@,
                SerialType::Newspaper => "article-newspaper"@,
                SerialType::BroadcastProgram => if is_film_genre(x.genre) { "motion-picture"@ } else { "broadcast"@ },
                _ => "article-journal"@,
            },
            Parent::Id(_) => "article-journal"@,
        },
        InputReference::Collection(x) => match x.kind {
            CollectionType::EditedBook => "book"@,
            _ => "collection"@,
        },
        InputReference::LegalCase(_) => "legal-case"@,
        InputReference::Statute(_) => "statute"@,
        InputReference::Treaty(_) => "treaty"@,
        InputReference::Hearing(_) => "hearing"@,
        InputReference::Regulation(_) => "regulation"@,
        InputReference::Brief(_) => "brief"@,
        InputReference::Classic(_) => "classic"@,
        InputReference::Patent(_) => "patent"@,
        InputReference::Dataset(_) => "dataset"@,
        InputReference::Standard(_) => "standard"@,
        InputReference::Software(_) => "software"@,
    }
}

impl InputReference {
    /// The reference ID.
    pub fn id(&self) -> (r: Option<String>)
        ensures
            r == id_of(*self),
    {
        match self {
            InputReference::Monograph(x) => x.id.clone(),
            InputReference::CollectionComponent(x) => x.id.clone(),
            InputReference::SerialComponent(x) => x.id.clone(),
            InputReference::Collection(x) => x.id.clone(),
            InputReference::LegalCase(x) => x.id.clone(),
            InputReference::Statute(x) => x.id.clone(),
            InputReference::Treaty(x) => x.id.clone(),
            InputReference::Hearing(x) => x.id.clone(),
            InputReference::Regulation(x) => x.id.clone(),
            InputReference::Brief(x) => x.id.clone(),
            InputReference::Classic(x) => x.id.clone(),
            InputReference::Patent(x) => x.id.clone(),
            InputReference::Dataset(x) => x.id.clone(),
            InputReference::Standard(x) => x.id.clone(),
            InputReference::Software(x) => x.id.clone(),
        }
    }

    /// The author.
    pub fn author(&self) -> (r: Option<Contributor>)
        ensures
            same_opt_contributor(r, author_of(*self)),
    {
        match self {
            InputReference::Monograph(x) => copy_opt_contributor(&x.author),
            InputReference::CollectionComponent(x) => copy_opt_contributor(&x.author),
            InputReference::SerialComponent(x) => copy_opt_contributor(&x.author),
            InputReference::Treaty(x) => copy_opt_contributor(&x.author),
            InputReference::Brief(x) => copy_opt_contributor(&x.author),
            InputReference::Classic(x) => copy_opt_contributor(&x.author),
            InputReference::Patent(x) => copy_opt_contributor(&x.author),
            InputReference::Dataset(x) => copy_opt_contributor(&x.author),
            InputReference::Software(x) => copy_opt_contributor(&x.author),
            _ => None,
        }
    }

    /// The editor; of a chapter, that of its embedded collection.
    pub fn editor(&self) -> (r: Option<Contributor>)
        ensures
            same_opt_contributor(r, editor_of(*self)),
    {
        match self {
            InputReference::Monograph(x) => copy_opt_contributor(&x.editor),
            InputReference::Collection(x) => copy_opt_contributor(&x.editor),
            InputReference::CollectionComponent(x) => match &x.parent { Parent::Embedded(p) => copy_opt_contributor(&p.editor), Parent::Id(_) => None },
            InputReference::Classic(x) => copy_opt_contributor(&x.editor),
            _ => None,
        }
    }

    /// The translator.
    pub fn translator(&self) -> (r: Option<Contributor>)
        ensures
            same_opt_contributor(r, translator_of(*self)),
    {
        match self {
            InputReference::Monograph(x) => copy_opt_contributor(&x.translator),
            InputReference::CollectionComponent(x) => copy_opt_contributor(&x.translator),
            InputReference::SerialComponent(x) => copy_opt_contributor(&x.translator),
            InputReference::Collection(x) => copy_opt_contributor(&x.translator),
            InputReference::Classic(x) => copy_opt_contributor(&x.translator),
            _ => None,
        }
    }

    /// The publisher; of a component, that of its embedded parent.
    pub fn publisher(&self) -> (r: Option<Contributor>)
        ensures
            same_opt_contributor(r, publisher_of(*self)),
    {
        match self {
            InputReference::Monograph(x) => copy_opt_contributor(&x.publisher),
            InputReference::CollectionComponent(x) => match &x.parent { Parent::Embedded(p) => copy_opt_contributor(&p.publisher), Parent::Id(_) => None },
            InputReference::SerialComponent(x) => match &x.parent { Parent::Embedded(p) => copy_opt_contributor(&p.publisher), Parent::Id(_) => None },
            InputReference::Collection(x) => copy_opt_contributor(&x.publisher),
            InputReference::Classic(x) => copy_opt_contributor(&x.publisher),
            InputReference::Dataset(x) => copy_opt_contributor(&x.publisher),
            InputReference::Standard(x) => copy_opt_contributor(&x.publisher),
            InputReference::Software(x) => copy_opt_contributor(&x.publisher),
            _ => None,
        }
    }

    /// The title.
    pub fn title(&self) -> (r: Option<Title>)
        ensures
            same_opt_title(r, title_of(*self)),
    {
        match self {
            InputReference::Monograph(x) => Some(x.title.copy()),
            InputReference::CollectionComponent(x) => copy_opt_title(&x.title),
            InputReference::SerialComponent(x) => copy_opt_title(&x.title),
            InputReference::Collection(x) => copy_opt_title(&x.title),
            InputReference::LegalCase(x) => Some(x.title.copy()),
            InputReference::Statute(x) => Some(x.title.copy()),
            InputReference::Treaty(x) => Some(x.title.copy()),
            InputReference::Hearing(x) => Some(x.title.copy()),
            InputReference::Regulation(x) => Some(x.title.copy()),
            InputReference::Brief(x) => Some(x.title.copy()),
            InputReference::Classic(x) => Some(x.title.copy()),
            InputReference::Patent(x) => Some(x.title.copy()),
            InputReference::Dataset(x) => Some(x.title.copy()),
            InputReference::Standard(x) => Some(x.title.copy()),
            InputReference::Software(x) => Some(x.title.copy()),
        }
    }

    /// The issued date.
    pub fn issued(&self) -> (r: Option<EdtfString>)
        ensures
            r == issued_of(*self),
    {
        match self {
            InputReference::Monograph(x) => Some(x.issued.copy()),
            InputReference::CollectionComponent(x) => Some(x.issued.copy()),
            InputReference::SerialComponent(x) => Some(x.issued.copy()),
            InputReference::Collection(x) => Some(x.issued.copy()),
            InputReference::LegalCase(x) => Some(x.issued.copy()),
            InputReference::Statute(x) => Some(x.issued.copy()),
            InputReference::Treaty(x) => Some(x.issued.copy()),
            InputReference::Hearing(x) => Some(x.issued.copy()),
            InputReference::Regulation(x) => Some(x.issued.copy()),
            InputReference::Brief(x) => Some(x.issued.copy()),
            InputReference::Classic(x) => Some(x.issued.copy()),
            InputReference::Patent(x) => Some(x.issued.copy()),
            InputReference::Dataset(x) => Some(x.issued.copy()),
            InputReference::Standard(x) => Some(x.issued.copy()),
            InputReference::Software(x) => Some(x.issued.copy()),
        }
    }

    /// The DOI.
    pub fn doi(&self) -> (r: Option<String>)
        ensures
            r == doi_of(*self),
    {
        match self {
            InputReference::Monograph(x) => x.doi.clone(),
            InputReference::CollectionComponent(x) => x.doi.clone(),
            InputReference::SerialComponent(x) => x.doi.clone(),
            InputReference::LegalCase(x) => x.doi.clone(),
            InputReference::Dataset(x) => x.doi.clone(),
            InputReference::Software(x) => x.doi.clone(),
            _ => None,
        }
    }

    /// The note.
    pub fn note(&self) -> (r: Option<String>)
        ensures
            r == note_of(*self),
    {
        match self {
            InputReference::Monograph(x) => x.note.clone(),
            InputReference::CollectionComponent(x) => x.note.clone(),
            InputReference::SerialComponent(x) => x.note.clone(),
            InputReference::LegalCase(x) => x.note.clone(),
            InputReference::Statute(x) => x.note.clone(),
            InputReference::Treaty(x) => x.note.clone(),
            InputReference::Standard(x) => x.note.clone(),
            _ => None,
        }
    }

    /// The URL, in the form the `url` crate wrote it when the reference
    /// was converted.
    pub fn url(&self) -> (r: Option<String>)
        ensures
            r == url_of(*self),
    {
        match self {
            InputReference::Monograph(x) => x.url.clone(),
            InputReference::CollectionComponent(x) => x.url.clone(),
            InputReference::SerialComponent(x) => x.url.clone(),
            InputReference::Collection(x) => x.url.clone(),
            InputReference::LegalCase(x) => x.url.clone(),
            InputReference::Statute(x) => x.url.clone(),
            InputReference::Treaty(x) => x.url.clone(),
            InputReference::Hearing(x) => x.url.clone(),
            InputReference::Regulation(x) => x.url.clone(),
            InputReference::Brief(x) => x.url.clone(),
            InputReference::Classic(x) => x.url.clone(),
            InputReference::Patent(x) => x.url.clone(),
            InputReference::Dataset(x) => x.url.clone(),
            InputReference::Standard(x) => x.url.clone(),
            InputReference::Software(x) => x.url.clone(),
        }
    }

    /// The genre.
    pub fn genre(&self) -> (r: Option<String>)
        ensures
            r == genre_of(*self),
    {
        match self {
            InputReference::Monograph(x) => x.genre.clone(),
            InputReference::CollectionComponent(x) => x.genre.clone(),
            InputReference::SerialComponent(x) => x.genre.clone(),
            _ => None,
        }
    }

    /// The medium.
    pub fn medium(&self) -> (r: Option<String>)
        ensures
            r == medium_of(*self),
    {
        match self {
            InputReference::Monograph(x) => x.medium.clone(),
            InputReference::CollectionComponent(x) => x.medium.clone(),
            InputReference::SerialComponent(x) => x.medium.clone(),
            _ => None,
        }
    }

    /// The version.
    pub fn version(&self) -> (r: Option<String>)
        ensures
            r == version_of(*self),
    {
        match self {
            InputReference::Dataset(x) => x.version.clone(),
            InputReference::Software(x) => x.version.clone(),
            _ => None,
        }
    }

    /// The title of the embedded parent of a component.
    pub fn container_title(&self) -> (r: Option<Title>)
        ensures
            same_opt_title(r, container_title_of(*self)),
    {
        match self {
            InputReference::CollectionComponent(x) => match &x.parent { Parent::Embedded(p) => copy_opt_title(&p.title), Parent::Id(_) => None },
            InputReference::SerialComponent(x) => match &x.parent { Parent::Embedded(p) => Some(p.title.copy()), Parent::Id(_) => None },
            _ => None,
        }
    }

    /// The volume.
    pub fn volume(&self) -> (r: Option<NumOrStr>)
        ensures
            r == volume_of(*self),
    {
        match self {
            InputReference::SerialComponent(x) => copy_opt_num(&x.volume),
            InputReference::LegalCase(x) => opt_str_as_num(&x.volume),
            InputReference::Statute(x) => opt_str_as_num(&x.volume),
            InputReference::Treaty(x) => opt_str_as_num(&x.volume),
            InputReference::Regulation(x) => opt_str_as_num(&x.volume),
            InputReference::Classic(x) => opt_str_as_num(&x.volume),
            _ => None,
        }
    }

    /// The collection (series) number.
    pub fn collection_number(&self) -> (r: Option<String>)
        ensures
            r == collection_number_of(*self),
    {
        match self {
            InputReference::Monograph(x) => x.collection_number.clone(),
            InputReference::Collection(x) => x.collection_number.clone(),
            InputReference::CollectionComponent(x) => match &x.parent { Parent::Embedded(p) => p.collection_number.clone(), Parent::Id(_) => None },
            _ => None,
        }
    }

    /// The issue.
    pub fn issue(&self) -> (r: Option<NumOrStr>)
        ensures
            r == issue_of(*self),
    {
        match self {
            InputReference::SerialComponent(x) => copy_opt_num(&x.issue),
            _ => None,
        }
    }

    /// The pages.
    pub fn pages(&self) -> (r: Option<NumOrStr>)
        ensures
            r == pages_of(*self),
    {
        match self {
            InputReference::CollectionComponent(x) => copy_opt_num(&x.pages),
            InputReference::SerialComponent(x) => opt_str_as_num(&x.pages),
            InputReference::LegalCase(x) => opt_str_as_num(&x.page),
            InputReference::Treaty(x) => opt_str_as_num(&x.page),
            _ => None,
        }
    }

    /// The authority (court, legislative body, standards body).
    pub fn authority(&self) -> (r: Option<String>)
        ensures
            r == authority_of(*self),
    {
        match self {
            InputReference::LegalCase(x) => Some(x.authority.clone()),
            InputReference::Statute(x) => x.authority.clone(),
            InputReference::Hearing(x) => x.authority.clone(),
            InputReference::Regulation(x) => x.authority.clone(),
            InputReference::Brief(x) => x.authority.clone(),
            InputReference::Standard(x) => x.authority.clone(),
            _ => None,
        }
    }

    /// The reporter (legal reporter series).
    pub fn reporter(&self) -> (r: Option<String>)
        ensures
            r == reporter_of(*self),
    {
        match self {
            InputReference::LegalCase(x) => x.reporter.clone(),
            InputReference::Treaty(x) => x.reporter.clone(),
            _ => None,
        }
    }

    /// The code (legal code abbreviation).
    pub fn code(&self) -> (r: Option<String>)
        ensures
            r == code_of(*self),
    {
        match self {
            InputReference::Statute(x) => x.code.clone(),
            InputReference::Regulation(x) => x.code.clone(),
            _ => None,
        }
    }

    /// The section.
    pub fn section(&self) -> (r: Option<String>)
        ensures
            r == section_of(*self),
    {
        match self {
            InputReference::Statute(x) => x.section.clone(),
            InputReference::Regulation(x) => x.section.clone(),
            InputReference::Classic(x) => x.section.clone(),
            _ => None,
        }
    }

    /// The number (report, session, docket, patent or standard number).
    pub fn number(&self) -> (r: Option<String>)
        ensures
            r == number_of(*self),
    {
        match self {
            InputReference::Monograph(x) => x.report_number.clone(),
            InputReference::Hearing(x) => x.session_number.clone(),
            InputReference::Brief(x) => x.docket_number.clone(),
            InputReference::Patent(x) => Some(x.patent_number.clone()),
            InputReference::Standard(x) => Some(x.standard_number.clone()),
            _ => None,
        }
    }

    /// The edition.
    pub fn edition(&self) -> (r: Option<String>)
        ensures
            r == edition_of(*self),
    {
        match self {
            InputReference::Monograph(x) => x.edition.clone(),
            _ => None,
        }
    }

    /// The accessed date.
    pub fn accessed(&self) -> (r: Option<EdtfString>)
        ensures
            r == accessed_of(*self),
    {
        match self {
            InputReference::Monograph(x) => copy_opt_edtf(&x.accessed),
            InputReference::CollectionComponent(x) => copy_opt_edtf(&x.accessed),
            InputReference::SerialComponent(x) => copy_opt_edtf(&x.accessed),
            InputReference::Collection(x) => copy_opt_edtf(&x.accessed),
            InputReference::LegalCase(x) => copy_opt_edtf(&x.accessed),
            InputReference::Statute(x) => copy_opt_edtf(&x.accessed),
            InputReference::Treaty(x) => copy_opt_edtf(&x.accessed),
            InputReference::Hearing(x) => copy_opt_edtf(&x.accessed),
            InputReference::Regulation(x) => copy_opt_edtf(&x.accessed),
            InputReference::Brief(x) => copy_opt_edtf(&x.accessed),
            InputReference::Classic(x) => copy_opt_edtf(&x.accessed),
            InputReference::Patent(x) => copy_opt_edtf(&x.accessed),
            InputReference::Dataset(x) => copy_opt_edtf(&x.accessed),
            InputReference::Standard(x) => copy_opt_edtf(&x.accessed),
            InputReference::Software(x) => copy_opt_edtf(&x.accessed),
        }
    }

    /// The original publication date.
    pub fn original_date(&self) -> (r: Option<EdtfString>)
        ensures
            r == original_date_of(*self),
    {
        match self {
            InputReference::Monograph(x) => copy_opt_edtf(&x.original_date),
            _ => None,
        }
    }

    /// The ISBN.
    pub fn isbn(&self) -> (r: Option<String>)
        ensures
            r == isbn_of(*self),
    {
        match self {
            InputReference::Monograph(x) => x.isbn.clone(),
            _ => None,
        }
    }

    /// The ISSN of the embedded serial of an article.
    pub fn issn(&self) -> (r: Option<String>)
        ensures
            r == issn_of(*self),
    {
        match self {
            InputReference::SerialComponent(x) => match &x.parent { Parent::Embedded(p) => p.issn.clone(), Parent::Id(_) => None },
            _ => None,
        }
    }

    /// The keywords.
    pub fn keywords(&self) -> (r: Option<Vec<String>>)
        ensures
            r is Some <==> keywords_of(*self) is Some,
            r is Some ==> r.unwrap()@ == keywords_of(*self).unwrap()@,
    {
        match self {
            InputReference::Monograph(x) => copy_opt_strings(&x.keywords),
            InputReference::CollectionComponent(x) => copy_opt_strings(&x.keywords),
            InputReference::SerialComponent(x) => copy_opt_strings(&x.keywords),
            InputReference::Collection(x) => copy_opt_strings(&x.keywords),
            InputReference::LegalCase(x) => copy_opt_strings(&x.keywords),
            InputReference::Statute(x) => copy_opt_strings(&x.keywords),
            InputReference::Treaty(x) => copy_opt_strings(&x.keywords),
            InputReference::Hearing(x) => copy_opt_strings(&x.keywords),
            InputReference::Regulation(x) => copy_opt_strings(&x.keywords),
            InputReference::Brief(x) => copy_opt_strings(&x.keywords),
            InputReference::Classic(x) => copy_opt_strings(&x.keywords),
            InputReference::Patent(x) => copy_opt_strings(&x.keywords),
            InputReference::Dataset(x) => copy_opt_strings(&x.keywords),
            InputReference::Standard(x) => copy_opt_strings(&x.keywords),
            InputReference::Software(x) => copy_opt_strings(&x.keywords),
        }
    }

    /// The language.
    pub fn language(&self) -> (r: Option<String>)
        ensures
            r == language_of(*self),
    {
        match self {
            InputReference::Monograph(x) => x.language.clone(),
            InputReference::CollectionComponent(x) => x.language.clone(),
            InputReference::SerialComponent(x) => x.language.clone(),
            InputReference::Collection(x) => x.language.clone(),
            InputReference::LegalCase(x) => x.language.clone(),
            InputReference::Statute(x) => x.language.clone(),
            InputReference::Treaty(x) => x.language.clone(),
            InputReference::Hearing(x) => x.language.clone(),
            InputReference::Regulation(x) => x.language.clone(),
            InputReference::Brief(x) => x.language.clone(),
            InputReference::Classic(x) => x.language.clone(),
            InputReference::Patent(x) => x.language.clone(),
            InputReference::Dataset(x) => x.language.clone(),
            InputReference::Standard(x) => x.language.clone(),
            InputReference::Software(x) => x.language.clone(),
        }
    }

    /// The location of the publisher.
    pub fn publisher_place(&self) -> (r: Option<String>)
        ensures
            r == opt_location(publisher_source(*self)),
    {
        match self.publisher() {
            Some(c) => c.location(),
            None => None,
        }
    }

    /// The publisher as a single string.
    pub fn publisher_str(&self) -> (r: Option<String>)
        ensures
            opt_view(r) == opt_name(publisher_source(*self)),
    {
        match self.publisher() {
            Some(c) => c.name(),
            None => None,
        }
    }

    /// The abstract: no reference class holds one.
    pub fn abstract_text(&self) -> (r: Option<String>)
        ensures
            r is None,
    {
        None
    }

    /// The field-level language overrides.
    pub fn field_languages(&self) -> (r: &FieldLanguageMap)
        ensures
            *r == field_languages_of(*self),
    {
        match self {
            InputReference::Monograph(x) => &x.field_languages,
            InputReference::CollectionComponent(x) => &x.field_languages,
            InputReference::SerialComponent(x) => &x.field_languages,
            InputReference::Collection(x) => &x.field_languages,
            InputReference::LegalCase(x) => &x.field_languages,
            InputReference::Statute(x) => &x.field_languages,
            InputReference::Treaty(x) => &x.field_languages,
            InputReference::Hearing(x) => &x.field_languages,
            InputReference::Regulation(x) => &x.field_languages,
            InputReference::Brief(x) => &x.field_languages,
            InputReference::Classic(x) => &x.field_languages,
            InputReference::Patent(x) => &x.field_languages,
            InputReference::Dataset(x) => &x.field_languages,
            InputReference::Standard(x) => &x.field_languages,
            InputReference::Software(x) => &x.field_languages,
        }
    }

    /// Sets the reference ID.
    pub fn set_id(&mut self, id: String)
        ensures
            *final(self) == with_id(*old(self), id),
    {
        match self {
            InputReference::Monograph(x) => x.id = Some(id),
            InputReference::CollectionComponent(x) => x.id = Some(id),
            InputReference::SerialComponent(x) => x.id = Some(id),
            InputReference::Collection(x) => x.id = Some(id),
            InputReference::LegalCase(x) => x.id = Some(id),
            InputReference::Statute(x) => x.id = Some(id),
            InputReference::Treaty(x) => x.id = Some(id),
            InputReference::Hearing(x) => x.id = Some(id),
            InputReference::Regulation(x) => x.id = Some(id),
            InputReference::Brief(x) => x.id = Some(id),
            InputReference::Classic(x) => x.id = Some(id),
            InputReference::Patent(x) => x.id = Some(id),
            InputReference::Dataset(x) => x.id = Some(id),
            InputReference::Standard(x) => x.id = Some(id),
            InputReference::Software(x) => x.id = Some(id),
        }
    }

    /// The reference type as a CSL type name.
    pub fn ref_type(&self) -> (r: String)
        ensures
            r@ == ref_type_of(*self),
    {
        match self {
            InputReference::Monograph(x) => match x.kind {
                MonographType::Book => if medium_is_interview(&x.medium) {
                    to_owned_string("interview")
                } else {
                    to_owned_string("book")
                },
                MonographType::Report => to_owned_string("report"),
                MonographType::Thesis => to_owned_string("thesis"),
                MonographType::Webpage => to_owned_string("webpage"),
                MonographType::Post => to_owned_string("post"),
                MonographType::PersonalCommunication => to_owned_string("personal-communication"),
                MonographType::Document => if medium_is_interview(&x.medium) {
                    to_owned_string("interview")
                } else {
                    to_owned_string("document")
                },
            },
            InputReference::CollectionComponent(x) => match x.kind {
                MonographComponentType::Chapter => to_owned_string("chapter"),
                MonographComponentType::Document => to_owned_string("paper-conference"),
            },
            InputReference::SerialComponent(x) => match &x.parent {
                Parent::Embedded(s) => match s.kind {
                    SerialType::AcademicJournal => {
                        let enc = match &x.genre {
                            Some(g) => str_eq(g.as_str(), "entry-encyclopedia"),
                            None => false,
                        };
                        if enc {
                            to_owned_string("entry-encyclopedia")
                        } else {
                            to_owned_string("article-journal")
                        }
                    },
                    SerialType::Magazine => to_owned_string("article-magazine"),
                    SerialType::Newspaper => to_owned_string("article-newspaper"),
                    SerialType::BroadcastProgram => {
                        let film = match &x.genre {
                            Some(g) => contains_str(to_ascii_lowercase(g.as_str()).as_str(), "film"),
                            None => false,
                        };
                        if film {
                            to_owned_string("motion-picture")
                        } else {
                            to_owned_string("broadcast")
                        }
                    },
                    _ => to_owned_string("article-journal"),
                },
                Parent::Id(_) => to_owned_string("article-journal"),
            },
            InputReference::Collection(x) => match x.kind {
                CollectionType::EditedBook => to_owned_string("book"),
                _ => to_owned_string("collection"),
            },
            InputReference::LegalCase(_) => to_owned_string("legal-case"),
            InputReference::Statute(_) => to_owned_string("statute"),
            InputReference::Treaty(_) => to_owned_string("treaty"),
            InputReference::Hearing(_) => to_owned_string("hearing"),
            InputReference::Regulation(_) => to_owned_string("regulation"),
            InputReference::Brief(_) => to_owned_string("brief"),
            InputReference::Classic(_) => to_owned_string("classic"),
            InputReference::Patent(_) => to_owned_string("patent"),
            InputReference::Dataset(_) => to_owned_string("dataset"),
            InputReference::Standard(_) => to_owned_string("standard"),
            InputReference::Software(_) => to_owned_string("software"),
        }
    }
}

fn medium_is_interview(m: &Option<String>) -> (r: bool)
    ensures
        r == is_interview_medium(*m),
{
    match m {
        Some(s) => contains_str(to_ascii_lowercase(s.as_str()).as_str(), "interview"),
        None => false,
    }
}

/// Setting the id of a reference makes `id` return it, and leaves its
/// type as it was.
pub proof fn law_set_id_then_id(r: InputReference, id: String)
    ensures
        id_of(with_id(r, id)) == Some(id),
        ref_type_of(with_id(r, id)) == ref_type_of(r),
{
}

} // verus!
