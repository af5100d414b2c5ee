//! Reference value types: titles, multilingual strings, numbers, parents and
//! the record type of each reference class.

use vstd::prelude::*;
use crate::reference::contributor::Contributor;
use crate::reference::date::EdtfString;
use crate::vecs::copy_pairs;

verus! {

/// A reference identifier.
pub type RefID = String;

/// A BCP 47 language tag.
pub type LangID = String;

/// Field-level language overrides: field path and language tag, each field
/// path at most once.
pub type FieldLanguageMap = Vec<(String, LangID)>;

/// A string in one script with its transliterations and translations.
#[derive(Debug, PartialEq, Default)]
pub struct MultilingualComplex {
    pub original: String,
    pub lang: Option<LangID>,
    pub transliterations: Vec<(String, String)>,
    pub translations: Vec<(LangID, String)>,
}

/// A string that is either plain or multilingual.
#[derive(Debug, PartialEq)]
pub enum MultilingualString {
    Simple(String),
    Complex(MultilingualComplex),
}

impl Default for MultilingualString {
    fn default() -> (r: Self)
        ensures
            r matches MultilingualString::Simple(s) && s@ == Seq::<char>::empty(),
    {
        MultilingualString::Simple(String::new())
    }
}

/// The text of a multilingual string: the plain string, or the original.
pub open spec fn ml_text(m: MultilingualString) -> Seq<char> {
    match m {
        MultilingualString::Simple(s) => s@,
        MultilingualString::Complex(c) => c.original@,
    }
}

/// Equality of multilingual strings by contents.
pub open spec fn same_ml(a: MultilingualString, b: MultilingualString) -> bool {
    match (a, b) {
        (MultilingualString::Simple(x), MultilingualString::Simple(y)) => x == y,
        (MultilingualString::Complex(x), MultilingualString::Complex(y)) => {
            &&& x.original == y.original
            &&& x.lang == y.lang
            &&& x.transliterations@ == y.transliterations@
            &&& x.translations@ == y.translations@
        },
        _ => false,
    }
}

impl MultilingualString {
    /// A copy with the same contents.
    pub fn copy(&self) -> (r: Self)
        ensures
            same_ml(r, *self),
    {
        match self {
            MultilingualString::Simple(s) => MultilingualString::Simple(s.clone()),
            MultilingualString::Complex(c) => MultilingualString::Complex(
                MultilingualComplex {
                    original: c.original.clone(),
                    lang: c.lang.clone(),
                    transliterations: copy_pairs(&c.transliterations),
                    translations: copy_pairs(&c.translations),
                },
            ),
        }
    }

    /// The text: the plain string, or the original of a multilingual one.
    pub fn text(&self) -> (r: String)
        ensures
            r@ == ml_text(*self),
    {
        match self {
            MultilingualString::Simple(s) => s.clone(),
            MultilingualString::Complex(c) => c.original.clone(),
        }
    }
}

/// A multilingual title.
#[derive(Debug, PartialEq, Default)]
pub struct MultilingualTitle {
    pub original: String,
    pub lang: Option<LangID>,
    pub transliterations: Vec<(String, String)>,
    pub translations: Vec<(LangID, String)>,
}

/// A title: a plain string or a multilingual one.
#[derive(Debug, PartialEq)]
pub enum Title {
    Single(String),
    Multilingual(MultilingualTitle),
}

/// Equality of titles by contents.
pub open spec fn same_title(a: Title, b: Title) -> bool {
    match (a, b) {
        (Title::Single(x), Title::Single(y)) => x == y,
        (Title::Multilingual(x), Title::Multilingual(y)) => {
            &&& x.original == y.original
            &&& x.lang == y.lang
            &&& x.transliterations@ == y.transliterations@
            &&& x.translations@ == y.translations@
        },
        _ => false,
    }
}

/// Equality of optional titles by contents.
pub open spec fn same_opt_title(a: Option<Title>, b: Option<Title>) -> bool {
    match (a, b) {
        (Some(x), Some(y)) => same_title(x, y),
        (None, None) => true,
        _ => false,
    }
}

impl Title {
    /// A copy with the same contents.
    pub fn copy(&self) -> (r: Self)
        ensures
            same_title(r, *self),
    {
        match self {
            Title::Single(s) => Title::Single(s.clone()),
            Title::Multilingual(m) => Title::Multilingual(
                MultilingualTitle {
                    original: m.original.clone(),
                    lang: m.lang.clone(),
                    transliterations: copy_pairs(&m.transliterations),
                    translations: copy_pairs(&m.translations),
                },
            ),
        }
    }
}

/// A copy of an optional title.
pub fn copy_opt_title(t: &Option<Title>) -> (r: Option<Title>)
    ensures
        same_opt_title(r, *t),
{
    match t {
        None => None,
        Some(x) => Some(x.copy()),
    }
}

/// A number or a string.
#[derive(Debug, PartialEq)]
pub enum NumOrStr {
    Number(i64),
    Str(String),
}

impl NumOrStr {
    /// A copy with the same contents.
    pub fn copy(&self) -> (r: Self)
        ensures
            r == *self,
    {
        match self {
            NumOrStr::Number(n) => NumOrStr::Number(*n),
            NumOrStr::Str(s) => NumOrStr::Str(s.clone()),
        }
    }
}

/// A copy of an optional number-or-string.
pub fn copy_opt_num(v: &Option<NumOrStr>) -> (r: Option<NumOrStr>)
    ensures
        r == *v,
{
    match v {
        None => None,
        Some(x) => Some(x.copy()),
    }
}

/// A string wrapped as an optional number-or-string.
pub fn opt_str_as_num(v: &Option<String>) -> (r: Option<NumOrStr>)
    ensures
        r == (match *v {
            Some(s) => Some(NumOrStr::Str(s)),
            None => None,
        }),
{
    match v {
        None => None,
        Some(s) => Some(NumOrStr::Str(s.clone())),
    }
}

/// The parent of a component: embedded, or referenced by its ID.
#[derive(Debug, PartialEq)]
pub enum Parent<T> {
    Embedded(T),
    Id(RefID),
}

/// Types of monographs.
#[derive(Debug, Clone, Copy, PartialEq, Eq, Structural)]
pub enum MonographType {
    Book,
    Report,
    Thesis,
    Webpage,
    Post,
    PersonalCommunication,
    Document,
}

/// Types of components of a monograph or collection.
#[derive(Debug, Clone, Copy, PartialEq, Eq, Structural)]
pub enum MonographComponentType {
    Chapter,
    Document,
}

/// Types of components of a serial.
#[derive(Debug, Clone, Copy, PartialEq, Eq, Structural)]
pub enum SerialComponentType {
    Article,
    Post,
    Review,
}

/// Types of serials.
#[derive(Debug, Clone, Copy, PartialEq, Eq, Structural)]
pub enum SerialType {
    AcademicJournal,
    Magazine,
    Newspaper,
    BroadcastProgram,
    Proceedings,
}

/// Types of collections.
#[derive(Debug, Clone, Copy, PartialEq, Eq, Structural)]
pub enum CollectionType {
    Anthology,
    Proceedings,
    EditedBook,
}

/// A monograph, such as a book or a report.
#[derive(Debug, PartialEq)]
pub struct Monograph {
    pub id: Option<RefID>,
    pub kind: MonographType,
    pub title: Title,
    pub author: Option<Contributor>,
    pub editor: Option<Contributor>,
    pub translator: Option<Contributor>,
    pub issued: EdtfString,
    pub publisher: Option<Contributor>,
    /// The URL, in its parsed and normalised text form.
    pub url: Option<String>,
    pub accessed: Option<EdtfString>,
    pub language: Option<LangID>,
    pub field_languages: FieldLanguageMap,
    pub note: Option<String>,
    pub isbn: Option<String>,
    pub doi: Option<String>,
    pub edition: Option<String>,
    pub report_number: Option<String>,
    pub collection_number: Option<String>,
    pub genre: Option<String>,
    pub medium: Option<String>,
    pub keywords: Option<Vec<String>>,
    pub original_date: Option<EdtfString>,
    pub original_title: Option<Title>,
}

/// A collection of works, such as an anthology or proceedings.
#[derive(Debug, PartialEq)]
pub struct Collection {
    pub id: Option<RefID>,
    pub kind: CollectionType,
    pub title: Option<Title>,
    pub editor: Option<Contributor>,
    pub translator: Option<Contributor>,
    pub issued: EdtfString,
    pub publisher: Option<Contributor>,
    pub collection_number: Option<String>,
    pub url: Option<String>,
    pub accessed: Option<EdtfString>,
    pub language: Option<LangID>,
    pub field_languages: FieldLanguageMap,
    pub note: Option<String>,
    pub isbn: Option<String>,
    pub keywords: Option<Vec<String>>,
}

/// A component of a collection, such as a chapter.
#[derive(Debug, PartialEq)]
pub struct CollectionComponent {
    pub id: Option<RefID>,
    pub kind: MonographComponentType,
    pub title: Option<Title>,
    pub author: Option<Contributor>,
    pub translator: Option<Contributor>,
    pub issued: EdtfString,
    pub parent: Parent<Collection>,
    pub pages: Option<NumOrStr>,
    pub url: Option<String>,
    pub accessed: Option<EdtfString>,
    pub language: Option<LangID>,
    pub field_languages: FieldLanguageMap,
    pub note: Option<String>,
    pub doi: Option<String>,
    pub genre: Option<String>,
    pub medium: Option<String>,
    pub keywords: Option<Vec<String>>,
}

/// A serial publication, such as a journal.
#[derive(Debug, PartialEq)]
pub struct Serial {
    pub kind: SerialType,
    pub title: Title,
    pub editor: Option<Contributor>,
    pub publisher: Option<Contributor>,
    pub issn: Option<String>,
}

/// A component of a serial, such as an article.
#[derive(Debug, PartialEq)]
pub struct SerialComponent {
    pub id: Option<RefID>,
    pub kind: SerialComponentType,
    pub title: Option<Title>,
    pub author: Option<Contributor>,
    pub translator: Option<Contributor>,
    pub issued: EdtfString,
    pub parent: Parent<Serial>,
    pub url: Option<String>,
    pub accessed: Option<EdtfString>,
    pub language: Option<LangID>,
    pub field_languages: FieldLanguageMap,
    pub note: Option<String>,
    pub doi: Option<String>,
    pub pages: Option<String>,
    pub volume: Option<NumOrStr>,
    pub issue: Option<NumOrStr>,
    pub genre: Option<String>,
    pub medium: Option<String>,
    pub keywords: Option<Vec<String>>,
}

/// A legal case (court decision).
#[derive(Debug, PartialEq)]
pub struct LegalCase {
    pub id: Option<RefID>,
    pub title: Title,
    pub authority: String,
    pub volume: Option<String>,
    pub reporter: Option<String>,
    pub page: Option<String>,
    pub issued: EdtfString,
    pub url: Option<String>,
    pub accessed: Option<EdtfString>,
    pub language: Option<LangID>,
    pub field_languages: FieldLanguageMap,
    pub note: Option<String>,
    pub doi: Option<String>,
    pub keywords: Option<Vec<String>>,
}

/// A statute or legislative act.
#[derive(Debug, PartialEq)]
pub struct Statute {
    pub id: Option<RefID>,
    pub title: Title,
    pub authority: Option<String>,
    pub volume: Option<String>,
    pub code: Option<String>,
    pub section: Option<String>,
    pub issued: EdtfString,
    pub url: Option<String>,
    pub accessed: Option<EdtfString>,
    pub language: Option<LangID>,
    pub field_languages: FieldLanguageMap,
    pub note: Option<String>,
    pub keywords: Option<Vec<String>>,
}

/// An international treaty or agreement.
#[derive(Debug, PartialEq)]
pub struct Treaty {
    pub id: Option<RefID>,
    pub title: Title,
    pub author: Option<Contributor>,
    pub volume: Option<String>,
    pub reporter: Option<String>,
    pub page: Option<String>,
    pub issued: EdtfString,
    pub url: Option<String>,
    pub accessed: Option<EdtfString>,
    pub language: Option<LangID>,
    pub field_languages: FieldLanguageMap,
    pub note: Option<String>,
    pub keywords: Option<Vec<String>>,
}

/// A legislative or administrative hearing.
#[derive(Debug, PartialEq)]
pub struct Hearing {
    pub id: Option<RefID>,
    pub title: Title,
    pub authority: Option<String>,
    pub session_number: Option<String>,
    pub issued: EdtfString,
    pub url: Option<String>,
    pub accessed: Option<EdtfString>,
    pub language: Option<LangID>,
    pub field_languages: FieldLanguageMap,
    pub note: Option<String>,
    pub keywords: Option<Vec<String>>,
}

/// An administrative regulation.
#[derive(Debug, PartialEq)]
pub struct Regulation {
    pub id: Option<RefID>,
    pub title: Title,
    pub authority: Option<String>,
    pub volume: Option<String>,
    pub code: Option<String>,
    pub section: Option<String>,
    pub issued: EdtfString,
    pub url: Option<String>,
    pub accessed: Option<EdtfString>,
    pub language: Option<LangID>,
    pub field_languages: FieldLanguageMap,
    pub note: Option<String>,
    pub keywords: Option<Vec<String>>,
}

/// A legal brief or filing.
#[derive(Debug, PartialEq)]
pub struct Brief {
    pub id: Option<RefID>,
    pub title: Title,
    pub author: Option<Contributor>,
    pub authority: Option<String>,
    pub docket_number: Option<String>,
    pub issued: EdtfString,
    pub url: Option<String>,
    pub accessed: Option<EdtfString>,
    pub language: Option<LangID>,
    pub field_languages: FieldLanguageMap,
    pub note: Option<String>,
    pub keywords: Option<Vec<String>>,
}

/// A classic work with standard citation forms.
#[derive(Debug, PartialEq)]
pub struct Classic {
    pub id: Option<RefID>,
    pub title: Title,
    pub author: Option<Contributor>,
    pub editor: Option<Contributor>,
    pub translator: Option<Contributor>,
    pub publisher: Option<Contributor>,
    pub volume: Option<String>,
    pub section: Option<String>,
    pub issued: EdtfString,
    pub url: Option<String>,
    pub accessed: Option<EdtfString>,
    pub language: Option<LangID>,
    pub field_languages: FieldLanguageMap,
    pub note: Option<String>,
    pub keywords: Option<Vec<String>>,
}

/// A patent.
#[derive(Debug, PartialEq)]
pub struct Patent {
    pub id: Option<RefID>,
    pub title: Title,
    pub author: Option<Contributor>,
    pub assignee: Option<Contributor>,
    pub patent_number: String,
    pub application_number: Option<String>,
    pub filing_date: Option<EdtfString>,
    pub issued: EdtfString,
    pub jurisdiction: Option<String>,
    pub authority: Option<String>,
    pub url: Option<String>,
    pub accessed: Option<EdtfString>,
    pub language: Option<LangID>,
    pub field_languages: FieldLanguageMap,
    pub note: Option<String>,
    pub keywords: Option<Vec<String>>,
}

/// A research dataset.
#[derive(Debug, PartialEq)]
pub struct Dataset {
    pub id: Option<RefID>,
    pub title: Title,
    pub author: Option<Contributor>,
    pub issued: EdtfString,
    pub publisher: Option<Contributor>,
    pub version: Option<String>,
    pub format: Option<String>,
    pub size: Option<String>,
    pub repository: Option<String>,
    pub doi: Option<String>,
    pub url: Option<String>,
    pub accessed: Option<EdtfString>,
    pub language: Option<LangID>,
    pub field_languages: FieldLanguageMap,
    pub note: Option<String>,
    pub keywords: Option<Vec<String>>,
}

/// A technical standard or specification.
#[derive(Debug, PartialEq)]
pub struct Standard {
    pub id: Option<RefID>,
    pub title: Title,
    pub authority: Option<String>,
    pub standard_number: String,
    pub issued: EdtfString,
    pub status: Option<String>,
    pub publisher: Option<Contributor>,
    pub url: Option<String>,
    pub accessed: Option<EdtfString>,
    pub language: Option<LangID>,
    pub field_languages: FieldLanguageMap,
    pub note: Option<String>,
    pub keywords: Option<Vec<String>>,
}

/// Software or source code.
#[derive(Debug, PartialEq)]
pub struct Software {
    pub id: Option<RefID>,
    pub title: Title,
    pub author: Option<Contributor>,
    pub publisher: Option<Contributor>,
    pub version: Option<String>,
    pub doi: Option<String>,
    pub issued: EdtfString,
    pub url: Option<String>,
    pub accessed: Option<EdtfString>,
    pub language: Option<LangID>,
    pub field_languages: FieldLanguageMap,
    pub note: Option<String>,
    pub keywords: Option<Vec<String>>,
}

} // verus!
