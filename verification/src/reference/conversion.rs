//! Conversion of CSL-JSON references into the reference model.

use vstd::prelude::*;
use crate::reference::contributor::{Contributor, ContributorList, SimpleName, StructuredName};
use crate::reference::csl_json::{
    date_text, opt_sn_text, padded, push_padded, push_signed, sn_text, CslDate, CslName, CslReference,
    StringOrNumber,
};
use crate::reference::date::EdtfString;
use crate::reference::types::{
    Collection, CollectionComponent, CollectionType, Dataset, LegalCase, Monograph, MonographComponentType,
    MonographType, MultilingualString, NumOrStr, Parent, Patent, Serial, SerialComponent, SerialComponentType,
    SerialType, Standard, Statute, Title, Treaty,
};
use crate::reference::{is_film_genre, is_interview_medium, ref_type_of, InputReference};
use crate::text::{append_str, contains_seq, contains_str, occurs_at, opt_view, push_char, str_eq, to_owned_string, trim, trim_spec};

verus! {

/// The view of an optional string, empty when absent.
pub open spec fn or_empty(o: Option<String>) -> Seq<char> {
    match o {
        Some(s) => s@,
        None => Seq::empty(),
    }
}

/// An EDTF string from a CSL-JSON date (`date_text`).
pub fn edtf_from_date(date: CslDate) -> (r: EdtfString)
    ensures
        r.0@ == date_text(date),
{
    if let Some(literal) = date.literal {
        return EdtfString(literal);
    }
    match date.date_parts {
        Some(parts) => {
            if parts.len() == 0 {
                return EdtfString(String::new());
            }
            let first = &parts[0];
            let mut s = String::new();
            if first.len() > 0 {
                push_padded(&mut s, first[0], 4);
            }
            let ghost year = s@;
            if first.len() > 1 {
                push_char(&mut s, '-');
                push_padded(&mut s, first[1], 2);
            }
            let ghost month = s@;
            if first.len() > 2 {
                push_char(&mut s, '-');
                push_padded(&mut s, first[2], 2);
            }
            proof {
                assert(s@ =~= date_text(date));
            }
            EdtfString(s)
        },
        None => EdtfString(String::new()),
    }
}

/// An optional EDTF string from an optional CSL-JSON date.
fn opt_edtf(d: Option<CslDate>) -> (r: Option<EdtfString>)
    ensures
        match (r, d) {
            (Some(e), Some(x)) => e.0@ == date_text(x),
            (None, None) => true,
            _ => false,
        },
{
    match d {
        Some(x) => Some(edtf_from_date(x)),
        None => None,
    }
}

/// Whether `c` is the contributor a CSL-JSON name converts to: a simple
/// name for a literal, else a structured name with the given and family
/// names (empty when absent) and the other parts as they are.
pub open spec fn name_contributor(c: Contributor, n: CslName) -> bool {
    if n.literal is Some {
        c == Contributor::SimpleName(
            SimpleName { name: MultilingualString::Simple(n.literal.unwrap()), location: None },
        )
    } else {
        &&& c is StructuredName
        &&& c->StructuredName_0.given matches MultilingualString::Simple(g) && g@ == or_empty(n.given)
        &&& c->StructuredName_0.family matches MultilingualString::Simple(f) && f@ == or_empty(n.family)
        &&& c->StructuredName_0.suffix == n.suffix
        &&& c->StructuredName_0.dropping_particle == n.dropping_particle
        &&& c->StructuredName_0.non_dropping_particle == n.non_dropping_particle
    }
}

/// Whether `c` is the list of contributors that CSL-JSON names convert to.
pub open spec fn names_contributor(c: Contributor, ns: Seq<CslName>) -> bool {
    &&& c is ContributorList
    &&& c->ContributorList_0.0@.len() == ns.len()
    &&& forall|i: int| 0 <= i < ns.len() ==> name_contributor(#[trigger] c->ContributorList_0.0@[i], ns[i])
}

/// `names_contributor` for optional values.
pub open spec fn opt_names_contributor(c: Option<Contributor>, ns: Option<Vec<CslName>>) -> bool {
    match (c, ns) {
        (Some(x), Some(v)) => names_contributor(x, v@),
        (None, None) => true,
        _ => false,
    }
}

fn string_or_empty(o: Option<String>) -> (r: String)
    ensures
        r@ == or_empty(o),
        o is Some ==> r == o.unwrap(),
{
    match o {
        Some(s) => s,
        None => String::new(),
    }
}

/// The contributor list that CSL-JSON names convert to.
pub fn contributor_from_names(names: Vec<CslName>) -> (r: Contributor)
    ensures
        names_contributor(r, names@),
{
    let ghost ns = names@;
    let mut names = names;
    let mut rev: Vec<Contributor> = Vec::new();
    let ghost n = ns.len();
    while names.len() > 0
        invariant
            names@ == ns.subrange(0, names@.len() as int),
            names@.len() + rev@.len() == n,
            n == ns.len(),
            forall|i: int| 0 <= i < rev@.len() ==> name_contributor(#[trigger] rev@[i], ns[n - 1 - i]),
        decreases names@.len(),
    {
        let ghost k = names@.len() - 1;
        let name = names.pop().unwrap();
        assert(name == ns[k]);
        let c = match name.literal {
            Some(literal) => Contributor::SimpleName(
                SimpleName { name: MultilingualString::Simple(literal), location: None },
            ),
            None => Contributor::StructuredName(
                StructuredName {
                    given: MultilingualString::Simple(string_or_empty(name.given)),
                    family: MultilingualString::Simple(string_or_empty(name.family)),
                    suffix: name.suffix,
                    dropping_particle: name.dropping_particle,
                    non_dropping_particle: name.non_dropping_particle,
                },
            ),
        };
        rev.push(c);
        proof {
            assert(names@ =~= ns.subrange(0, k));
        }
    }
    let mut out: Vec<Contributor> = Vec::new();
    while rev.len() > 0
        invariant
            rev@.len() + out@.len() == n,
            n == ns.len(),
            forall|i: int| 0 <= i < rev@.len() ==> name_contributor(#[trigger] rev@[i], ns[n - 1 - i]),
            forall|i: int| 0 <= i < out@.len() ==> name_contributor(#[trigger] out@[i], ns[i]),
        decreases rev@.len(),
    {
        let ghost m = rev@.len() - 1;
        let c = rev.pop().unwrap();
        out.push(c);
        proof {
            assert(out@.len() - 1 == n - 1 - m);
        }
    }
    Contributor::ContributorList(ContributorList(out))
}

fn opt_contributor(names: Option<Vec<CslName>>) -> (r: Option<Contributor>)
    ensures
        opt_names_contributor(r, names),
{
    match names {
        Some(v) => Some(contributor_from_names(v)),
        None => None,
    }
}

/// The interviewer text of one name: a literal as it is; otherwise the
/// trimmed family name after the first letter of the given name and ". ",
/// or nothing when the family name is empty.
pub open spec fn interviewer_piece(n: CslName) -> Option<Seq<char>> {
    if n.literal is Some {
        Some(n.literal.unwrap()@)
    } else {
        let fam = trim_spec(or_empty(n.family));
        if fam.len() == 0 {
            None
        } else {
            Some(
                (if n.given is Some && n.given.unwrap()@.len() > 0 {
                    seq![n.given.unwrap()@[0]] + ". "@
                } else {
                    Seq::empty()
                }) + fam,
            )
        }
    }
}

/// The interviewer texts of `ns`, in order, the empty ones left out.
pub open spec fn interviewer_pieces(ns: Seq<CslName>) -> Seq<Seq<char>>
    decreases ns.len(),
{
    if ns.len() == 0 {
        Seq::empty()
    } else {
        let p = interviewer_pieces(ns.drop_last());
        match interviewer_piece(ns.last()) {
            Some(x) => p.push(x),
            None => p,
        }
    }
}

/// `ps` joined by ", ".
pub open spec fn join_comma(ps: Seq<Seq<char>>) -> Seq<char>
    decreases ps.len(),
{
    if ps.len() == 0 {
        Seq::empty()
    } else if ps.len() == 1 {
        ps[0]
    } else {
        join_comma(ps.drop_last()) + ", "@ + ps.last()
    }
}

/// The note of an interview: its interviewers joined by ", " and followed
/// by ", Interviewer"; none when no interviewer has a text.
pub open spec fn interviewer_note(ns: Seq<CslName>) -> Option<Seq<char>> {
    let ps = interviewer_pieces(ns);
    if ps.len() == 0 {
        None
    } else {
        Some(join_comma(ps) + ", Interviewer"@)
    }
}

/// The note of an interview from its interviewers (`interviewer_note`).
pub fn format_interviewer_note(names: &Vec<CslName>) -> (r: Option<String>)
    ensures
        opt_view(r) == interviewer_note(names@),
{
    let mut joined = String::new();
    let mut count: usize = 0;
    let mut i: usize = 0;
    proof {
        assert(names@.subrange(0, 0) =~= Seq::<CslName>::empty());
    }
    while i < names.len()
        invariant
            i <= names@.len(),
            count == interviewer_pieces(names@.subrange(0, i as int)).len(),
            count <= i,
            joined@ == join_comma(interviewer_pieces(names@.subrange(0, i as int))),
        decreases names@.len() - i,
    {
        let n = &names[i];
        let piece: Option<String> = match &n.literal {
            Some(literal) => Some(literal.clone()),
            None => {
                let fam = match &n.family {
                    Some(f) => trim(f.as_str()),
                    None => "",
                };
                proof {
                    reveal_strlit("");
                }
                if fam.unicode_len() == 0 {
                    None
                } else {
                    let mut p = String::new();
                    match &n.given {
                        Some(g) => {
                            if g.unicode_len() > 0 {
                                push_char(&mut p, g.get_char(0));
                                p = append_str(p, ". ");
                            }
                        },
                        None => {},
                    }
                    p = append_str(p, fam);
                    Some(p)
                }
            },
        };
        assert(opt_view(piece) == interviewer_piece(names@[i as int]));
        let ghost t = names@.subrange(0, i + 1);
        proof {
            assert(t.drop_last() =~= names@.subrange(0, i as int));
            assert(t.last() == names@[i as int]);
        }
        let ghost ps = interviewer_pieces(names@.subrange(0, i as int));
        match piece {
            Some(p) => {
                let ghost before = joined@;
                if count > 0 {
                    joined = append_str(joined, ", ");
                }
                joined = append_str(joined, p.as_str());
                count = count + 1;
                proof {
                    let ps2 = ps.push(p@);
                    assert(ps2.drop_last() =~= ps);
                    assert(interviewer_pieces(t) == ps2);
                    if ps.len() == 0 {
                        assert(before =~= Seq::<char>::empty());
                        assert(joined@ =~= join_comma(ps2));
                    } else {
                        assert(joined@ =~= join_comma(ps2));
                    }
                }
            },
            None => {},
        }
        i = i + 1;
    }
    proof {
        assert(names@.subrange(0, names@.len() as int) =~= names@);
    }
    if count == 0 {
        None
    } else {
        Some(append_str(joined, ", Interviewer"))
    }
}

/// How a CSL-JSON type converts.
#[derive(Debug, Clone, Copy, PartialEq, Eq, Structural)]
pub enum CslClass {
    Monograph,
    Chapter,
    Article,
    LegalCase,
    Statute,
    Treaty,
    Standard,
    Patent,
    Dataset,
    Document,
}

/// The class a CSL-JSON type converts to.
pub open spec fn csl_class(t: Seq<char>) -> CslClass {
    if t == "book"@ || t == "report"@ || t == "thesis"@ || t == "webpage"@ || t == "post"@ || t == "post-weblog"@
        || t == "software"@ || t == "interview"@ || t == "personal_communication"@ || t == "personal-communication"@ {
        CslClass::Monograph
    } else if t == "chapter"@ || t == "paper-conference"@ || t == "entry-dictionary"@ {
        CslClass::Chapter
    } else if t == "article-journal"@ || t == "article"@ || t == "article-magazine"@ || t == "article-newspaper"@
        || t == "broadcast"@ || t == "motion_picture"@ || t == "entry-encyclopedia"@ {
        CslClass::Article
    } else if t == "legal-case"@ || t == "legal_case"@ {
        CslClass::LegalCase
    } else if t == "statute"@ || t == "legislation"@ {
        CslClass::Statute
    } else if t == "treaty"@ {
        CslClass::Treaty
    } else if t == "standard"@ {
        CslClass::Standard
    } else if t == "patent"@ {
        CslClass::Patent
    } else if t == "dataset"@ {
        CslClass::Dataset
    } else {
        CslClass::Document
    }
}

/// Whether a CSL-JSON type is a personal communication.
pub open spec fn is_personal(t: Seq<char>) -> bool {
    t == "personal_communication"@ || t == "personal-communication"@
}

/// The monograph type of a monograph-class CSL-JSON type.
pub open spec fn monograph_kind(t: Seq<char>) -> MonographType {
    if t == "report"@ {
        MonographType::Report
    } else if t == "thesis"@ {
        MonographType::Thesis
    } else if t == "webpage"@ {
        MonographType::Webpage
    } else if contains_seq(t, "post"@) {
        MonographType::Post
    } else if is_personal(t) {
        MonographType::PersonalCommunication
    } else {
        MonographType::Book
    }
}

/// The note of a monograph: "personal communication" for a personal
/// communication without one, the interviewer note for an interview
/// without one, else its own.
pub open spec fn monograph_note(l: CslReference) -> Option<Seq<char>> {
    let t = l.ref_type@;
    if is_personal(t) && l.note is None {
        Some("personal communication"@)
    } else if t == "interview"@ && l.note is None {
        match l.interviewer {
            Some(v) => interviewer_note(v@),
            None => None,
        }
    } else {
        opt_view(l.note)
    }
}

/// Whether `t` is the title a CSL-JSON title converts to (empty when absent).
pub open spec fn title_from(t: Title, src: Option<String>) -> bool {
    match src {
        Some(x) => t == Title::Single(x),
        None => t matches Title::Single(y) && y@ == Seq::<char>::empty(),
    }
}

/// Whether `e` is the EDTF string of an optional CSL-JSON date (empty when
/// absent).
pub open spec fn issued_from(e: EdtfString, d: Option<CslDate>) -> bool {
    e.0@ == match d {
        Some(x) => date_text(x),
        None => Seq::empty(),
    }
}

/// Whether `e` is the optional EDTF string of an optional CSL-JSON date.
pub open spec fn opt_edtf_from(e: Option<EdtfString>, d: Option<CslDate>) -> bool {
    match (e, d) {
        (Some(x), Some(y)) => x.0@ == date_text(y),
        (None, None) => true,
        _ => false,
    }
}

/// Whether `p` is the publisher a CSL-JSON name and place convert to.
pub open spec fn publisher_from(p: Option<Contributor>, name: Option<String>, place: Option<String>) -> bool {
    match name {
        Some(n) => p == Some(
            Contributor::SimpleName(SimpleName { name: MultilingualString::Simple(n), location: place }),
        ),
        None => p is None,
    }
}

/// Whether `m` is the monograph a CSL-JSON reference converts to, with the
/// given type and note.
pub open spec fn monograph_from(m: Monograph, l: CslReference, url: Option<String>, kind: MonographType, note: Option<Seq<char>>) -> bool {
    &&& m.id == Some(l.id)
    &&& m.kind == kind
    &&& title_from(m.title, l.title)
    &&& opt_names_contributor(m.author, l.author)
    &&& opt_names_contributor(m.editor, l.editor)
    &&& opt_names_contributor(m.translator, l.translator)
    &&& issued_from(m.issued, l.issued)
    &&& publisher_from(m.publisher, l.publisher, l.publisher_place)
    &&& m.url == url
    &&& opt_edtf_from(m.accessed, l.accessed)
    &&& m.language == l.language
    &&& m.field_languages@.len() == 0
    &&& opt_view(m.note) == note
    &&& m.isbn == l.isbn
    &&& m.doi == l.doi
    &&& opt_view(m.edition) == opt_sn_text(l.edition)
    &&& opt_view(m.report_number) == opt_view(l.number)
    &&& opt_view(m.collection_number) == opt_sn_text(l.collection_number)
    &&& m.genre == l.genre
    &&& m.medium == l.medium
    &&& m.keywords is None
    &&& m.original_date is None
    &&& m.original_title is None
}

/// Whether `c` is the chapter a CSL-JSON reference converts to: its
/// container an embedded edited book.
pub open spec fn chapter_from(c: CollectionComponent, l: CslReference, url: Option<String>) -> bool {
    &&& c.id == Some(l.id)
    &&& c.kind == (if l.ref_type@ == "paper-conference"@ {
        MonographComponentType::Document
    } else {
        MonographComponentType::Chapter
    })
    &&& c.title is Some && title_from(c.title.unwrap(), l.title)
    &&& opt_names_contributor(c.author, l.author)
    &&& opt_names_contributor(c.translator, l.translator)
    &&& issued_from(c.issued, l.issued)
    &&& c.parent is Embedded
    &&& {
        let p = c.parent->Embedded_0;
        &&& p.id is None
        &&& p.kind == CollectionType::EditedBook
        &&& p.title is Some && title_from(p.title.unwrap(), l.container_title)
        &&& opt_names_contributor(p.editor, l.editor)
        &&& p.translator is None
        &&& p.issued.0@ == Seq::<char>::empty()
        &&& publisher_from(p.publisher, l.publisher, l.publisher_place)
        &&& opt_view(p.collection_number) == (if l.collection_number is Some {
            opt_sn_text(l.collection_number)
        } else {
            opt_sn_text(l.volume)
        })
        &&& p.url is None && p.accessed is None && p.language is None && p.note is None && p.isbn is None
        &&& p.keywords is None && p.field_languages@.len() == 0
    }
    &&& c.pages == (match l.page { Some(x) => Some(NumOrStr::Str(x)), None => None })
    &&& c.url == url
    &&& opt_edtf_from(c.accessed, l.accessed)
    &&& c.language == l.language
    &&& c.field_languages@.len() == 0
    &&& c.note == l.note
    &&& c.doi == l.doi
    &&& c.genre == l.genre
    &&& c.medium == l.medium
    &&& c.keywords is None
}

/// The serial type of an article-class CSL-JSON type.
pub open spec fn serial_kind(t: Seq<char>) -> SerialType {
    if t == "article-magazine"@ {
        SerialType::Magazine
    } else if t == "article-newspaper"@ {
        SerialType::Newspaper
    } else if t == "broadcast"@ || t == "motion_picture"@ {
        SerialType::BroadcastProgram
    } else {
        SerialType::AcademicJournal
    }
}

/// The CSL-JSON type names that conversion keeps differ from every other
/// type name it tells apart.
proof fn reveal_type_literals()
    ensures
        "article-journal"@ != "article"@,
        "article-journal"@ != "article-magazine"@,
        "article-journal"@ != "article-newspaper"@,
        "article-journal"@ != "book"@,
        "article-journal"@ != "broadcast"@,
        "article-journal"@ != "chapter"@,
        "article-journal"@ != "dataset"@,
        "article-journal"@ != "entry-dictionary"@,
        "article-journal"@ != "entry-encyclopedia"@,
        "article-journal"@ != "interview"@,
        "article-journal"@ != "legal-case"@,
        "article-journal"@ != "legal_case"@,
        "article-journal"@ != "legislation"@,
        "article-journal"@ != "motion_picture"@,
        "article-journal"@ != "paper-conference"@,
        "article-journal"@ != "patent"@,
        "article-journal"@ != "personal-communication"@,
        "article-journal"@ != "personal_communication"@,
        "article-journal"@ != "post"@,
        "article-journal"@ != "post-weblog"@,
        "article-journal"@ != "report"@,
        "article-journal"@ != "software"@,
        "article-journal"@ != "standard"@,
        "article-journal"@ != "statute"@,
        "article-journal"@ != "thesis"@,
        "article-journal"@ != "treaty"@,
        "article-journal"@ != "webpage"@,
        "article-magazine"@ != "article"@,
        "article-magazine"@ != "article-journal"@,
        "article-magazine"@ != "article-newspaper"@,
        "article-magazine"@ != "book"@,
        "article-magazine"@ != "broadcast"@,
        "article-magazine"@ != "chapter"@,
        "article-magazine"@ != "dataset"@,
        "article-magazine"@ != "entry-dictionary"@,
        "article-magazine"@ != "entry-encyclopedia"@,
        "article-magazine"@ != "interview"@,
        "article-magazine"@ != "legal-case"@,
        "article-magazine"@ != "legal_case"@,
        "article-magazine"@ != "legislation"@,
        "article-magazine"@ != "motion_picture"@,
        "article-magazine"@ != "paper-conference"@,
        "article-magazine"@ != "patent"@,
        "article-magazine"@ != "personal-communication"@,
        "article-magazine"@ != "personal_communication"@,
        "article-magazine"@ != "post"@,
        "article-magazine"@ != "post-weblog"@,
        "article-magazine"@ != "report"@,
        "article-magazine"@ != "software"@,
        "article-magazine"@ != "standard"@,
        "article-magazine"@ != "statute"@,
        "article-magazine"@ != "thesis"@,
        "article-magazine"@ != "treaty"@,
        "article-magazine"@ != "webpage"@,
        "article-newspaper"@ != "article"@,
        "article-newspaper"@ != "article-journal"@,
        "article-newspaper"@ != "article-magazine"@,
        "article-newspaper"@ != "book"@,
        "article-newspaper"@ != "broadcast"@,
        "article-newspaper"@ != "chapter"@,
        "article-newspaper"@ != "dataset"@,
        "article-newspaper"@ != "entry-dictionary"@,
        "article-newspaper"@ != "entry-encyclopedia"@,
        "article-newspaper"@ != "interview"@,
        "article-newspaper"@ != "legal-case"@,
        "article-newspaper"@ != "legal_case"@,
        "article-newspaper"@ != "legislation"@,
        "article-newspaper"@ != "motion_picture"@,
        "article-newspaper"@ != "paper-conference"@,
        "article-newspaper"@ != "patent"@,
        "article-newspaper"@ != "personal-communication"@,
        "article-newspaper"@ != "personal_communication"@,
        "article-newspaper"@ != "post"@,
        "article-newspaper"@ != "post-weblog"@,
        "article-newspaper"@ != "report"@,
        "article-newspaper"@ != "software"@,
        "article-newspaper"@ != "standard"@,
        "article-newspaper"@ != "statute"@,
        "article-newspaper"@ != "thesis"@,
        "article-newspaper"@ != "treaty"@,
        "article-newspaper"@ != "webpage"@,
        "broadcast"@ != "article"@,
        "broadcast"@ != "article-journal"@,
        "broadcast"@ != "article-magazine"@,
        "broadcast"@ != "article-newspaper"@,
        "broadcast"@ != "book"@,
        "broadcast"@ != "chapter"@,
        "broadcast"@ != "dataset"@,
        "broadcast"@ != "entry-dictionary"@,
        "broadcast"@ != "entry-encyclopedia"@,
        "broadcast"@ != "interview"@,
        "broadcast"@ != "legal-case"@,
        "broadcast"@ != "legal_case"@,
        "broadcast"@ != "legislation"@,
        "broadcast"@ != "motion_picture"@,
        "broadcast"@ != "paper-conference"@,
        "broadcast"@ != "patent"@,
        "broadcast"@ != "personal-communication"@,
        "broadcast"@ != "personal_communication"@,
        "broadcast"@ != "post"@,
        "broadcast"@ != "post-weblog"@,
        "broadcast"@ != "report"@,
        "broadcast"@ != "software"@,
        "broadcast"@ != "standard"@,
        "broadcast"@ != "statute"@,
        "broadcast"@ != "thesis"@,
        "broadcast"@ != "treaty"@,
        "broadcast"@ != "webpage"@,
        "entry-encyclopedia"@ != "article"@,
        "entry-encyclopedia"@ != "article-journal"@,
        "entry-encyclopedia"@ != "article-magazine"@,
        "entry-encyclopedia"@ != "article-newspaper"@,
        "entry-encyclopedia"@ != "book"@,
        "entry-encyclopedia"@ != "broadcast"@,
        "entry-encyclopedia"@ != "chapter"@,
        "entry-encyclopedia"@ != "dataset"@,
        "entry-encyclopedia"@ != "entry-dictionary"@,
        "entry-encyclopedia"@ != "interview"@,
        "entry-encyclopedia"@ != "legal-case"@,
        "entry-encyclopedia"@ != "legal_case"@,
        "entry-encyclopedia"@ != "legislation"@,
        "entry-encyclopedia"@ != "motion_picture"@,
        "entry-encyclopedia"@ != "paper-conference"@,
        "entry-encyclopedia"@ != "patent"@,
        "entry-encyclopedia"@ != "personal-communication"@,
        "entry-encyclopedia"@ != "personal_communication"@,
        "entry-encyclopedia"@ != "post"@,
        "entry-encyclopedia"@ != "post-weblog"@,
        "entry-encyclopedia"@ != "report"@,
        "entry-encyclopedia"@ != "software"@,
        "entry-encyclopedia"@ != "standard"@,
        "entry-encyclopedia"@ != "statute"@,
        "entry-encyclopedia"@ != "thesis"@,
        "entry-encyclopedia"@ != "treaty"@,
        "entry-encyclopedia"@ != "webpage"@,
        "book"@ != "article"@,
        "book"@ != "article-journal"@,
        "book"@ != "article-magazine"@,
        "book"@ != "article-newspaper"@,
        "book"@ != "broadcast"@,
        "book"@ != "chapter"@,
        "book"@ != "dataset"@,
        "book"@ != "entry-dictionary"@,
        "book"@ != "entry-encyclopedia"@,
        "book"@ != "interview"@,
        "book"@ != "legal-case"@,
        "book"@ != "legal_case"@,
        "book"@ != "legislation"@,
        "book"@ != "motion_picture"@,
        "book"@ != "paper-conference"@,
        "book"@ != "patent"@,
        "book"@ != "personal-communication"@,
        "book"@ != "personal_communication"@,
        "book"@ != "post"@,
        "book"@ != "post-weblog"@,
        "book"@ != "report"@,
        "book"@ != "software"@,
        "book"@ != "standard"@,
        "book"@ != "statute"@,
        "book"@ != "thesis"@,
        "book"@ != "treaty"@,
        "book"@ != "webpage"@,
        "report"@ != "article"@,
        "report"@ != "article-journal"@,
        "report"@ != "article-magazine"@,
        "report"@ != "article-newspaper"@,
        "report"@ != "book"@,
        "report"@ != "broadcast"@,
        "report"@ != "chapter"@,
        "report"@ != "dataset"@,
        "report"@ != "entry-dictionary"@,
        "report"@ != "entry-encyclopedia"@,
        "report"@ != "interview"@,
        "report"@ != "legal-case"@,
        "report"@ != "legal_case"@,
        "report"@ != "legislation"@,
        "report"@ != "motion_picture"@,
        "report"@ != "paper-conference"@,
        "report"@ != "patent"@,
        "report"@ != "personal-communication"@,
        "report"@ != "personal_communication"@,
        "report"@ != "post"@,
        "report"@ != "post-weblog"@,
        "report"@ != "software"@,
        "report"@ != "standard"@,
        "report"@ != "statute"@,
        "report"@ != "thesis"@,
        "report"@ != "treaty"@,
        "report"@ != "webpage"@,
        "thesis"@ != "article"@,
        "thesis"@ != "article-journal"@,
        "thesis"@ != "article-magazine"@,
        "thesis"@ != "article-newspaper"@,
        "thesis"@ != "book"@,
        "thesis"@ != "broadcast"@,
        "thesis"@ != "chapter"@,
        "thesis"@ != "dataset"@,
        "thesis"@ != "entry-dictionary"@,
        "thesis"@ != "entry-encyclopedia"@,
        "thesis"@ != "interview"@,
        "thesis"@ != "legal-case"@,
        "thesis"@ != "legal_case"@,
        "thesis"@ != "legislation"@,
        "thesis"@ != "motion_picture"@,
        "thesis"@ != "paper-conference"@,
        "thesis"@ != "patent"@,
        "thesis"@ != "personal-communication"@,
        "thesis"@ != "personal_communication"@,
        "thesis"@ != "post"@,
        "thesis"@ != "post-weblog"@,
        "thesis"@ != "report"@,
        "thesis"@ != "software"@,
        "thesis"@ != "standard"@,
        "thesis"@ != "statute"@,
        "thesis"@ != "treaty"@,
        "thesis"@ != "webpage"@,
        "webpage"@ != "article"@,
        "webpage"@ != "article-journal"@,
        "webpage"@ != "article-magazine"@,
        "webpage"@ != "article-newspaper"@,
        "webpage"@ != "book"@,
        "webpage"@ != "broadcast"@,
        "webpage"@ != "chapter"@,
        "webpage"@ != "dataset"@,
        "webpage"@ != "entry-dictionary"@,
        "webpage"@ != "entry-encyclopedia"@,
        "webpage"@ != "interview"@,
        "webpage"@ != "legal-case"@,
        "webpage"@ != "legal_case"@,
        "webpage"@ != "legislation"@,
        "webpage"@ != "motion_picture"@,
        "webpage"@ != "paper-conference"@,
        "webpage"@ != "patent"@,
        "webpage"@ != "personal-communication"@,
        "webpage"@ != "personal_communication"@,
        "webpage"@ != "post"@,
        "webpage"@ != "post-weblog"@,
        "webpage"@ != "report"@,
        "webpage"@ != "software"@,
        "webpage"@ != "standard"@,
        "webpage"@ != "statute"@,
        "webpage"@ != "thesis"@,
        "webpage"@ != "treaty"@,
        "post"@ != "article"@,
        "post"@ != "article-journal"@,
        "post"@ != "article-magazine"@,
        "post"@ != "article-newspaper"@,
        "post"@ != "book"@,
        "post"@ != "broadcast"@,
        "post"@ != "chapter"@,
        "post"@ != "dataset"@,
        "post"@ != "entry-dictionary"@,
        "post"@ != "entry-encyclopedia"@,
        "post"@ != "interview"@,
        "post"@ != "legal-case"@,
        "post"@ != "legal_case"@,
        "post"@ != "legislation"@,
        "post"@ != "motion_picture"@,
        "post"@ != "paper-conference"@,
        "post"@ != "patent"@,
        "post"@ != "personal-communication"@,
        "post"@ != "personal_communication"@,
        "post"@ != "post-weblog"@,
        "post"@ != "report"@,
        "post"@ != "software"@,
        "post"@ != "standard"@,
        "post"@ != "statute"@,
        "post"@ != "thesis"@,
        "post"@ != "treaty"@,
        "post"@ != "webpage"@,
        "chapter"@ != "article"@,
        "chapter"@ != "article-journal"@,
        "chapter"@ != "article-magazine"@,
        "chapter"@ != "article-newspaper"@,
        "chapter"@ != "book"@,
        "chapter"@ != "broadcast"@,
        "chapter"@ != "dataset"@,
        "chapter"@ != "entry-dictionary"@,
        "chapter"@ != "entry-encyclopedia"@,
        "chapter"@ != "interview"@,
        "chapter"@ != "legal-case"@,
        "chapter"@ != "legal_case"@,
        "chapter"@ != "legislation"@,
        "chapter"@ != "motion_picture"@,
        "chapter"@ != "paper-conference"@,
        "chapter"@ != "patent"@,
        "chapter"@ != "personal-communication"@,
        "chapter"@ != "personal_communication"@,
        "chapter"@ != "post"@,
        "chapter"@ != "post-weblog"@,
        "chapter"@ != "report"@,
        "chapter"@ != "software"@,
        "chapter"@ != "standard"@,
        "chapter"@ != "statute"@,
        "chapter"@ != "thesis"@,
        "chapter"@ != "treaty"@,
        "chapter"@ != "webpage"@,
        "paper-conference"@ != "article"@,
        "paper-conference"@ != "article-journal"@,
        "paper-conference"@ != "article-magazine"@,
        "paper-conference"@ != "article-newspaper"@,
        "paper-conference"@ != "book"@,
        "paper-conference"@ != "broadcast"@,
        "paper-conference"@ != "chapter"@,
        "paper-conference"@ != "dataset"@,
        "paper-conference"@ != "entry-dictionary"@,
        "paper-conference"@ != "entry-encyclopedia"@,
        "paper-conference"@ != "interview"@,
        "paper-conference"@ != "legal-case"@,
        "paper-conference"@ != "legal_case"@,
        "paper-conference"@ != "legislation"@,
        "paper-conference"@ != "motion_picture"@,
        "paper-conference"@ != "patent"@,
        "paper-conference"@ != "personal-communication"@,
        "paper-conference"@ != "personal_communication"@,
        "paper-conference"@ != "post"@,
        "paper-conference"@ != "post-weblog"@,
        "paper-conference"@ != "report"@,
        "paper-conference"@ != "software"@,
        "paper-conference"@ != "standard"@,
        "paper-conference"@ != "statute"@,
        "paper-conference"@ != "thesis"@,
        "paper-conference"@ != "treaty"@,
        "paper-conference"@ != "webpage"@,
        "legal-case"@ != "article"@,
        "legal-case"@ != "article-journal"@,
        "legal-case"@ != "article-magazine"@,
        "legal-case"@ != "article-newspaper"@,
        "legal-case"@ != "book"@,
        "legal-case"@ != "broadcast"@,
        "legal-case"@ != "chapter"@,
        "legal-case"@ != "dataset"@,
        "legal-case"@ != "entry-dictionary"@,
        "legal-case"@ != "entry-encyclopedia"@,
        "legal-case"@ != "interview"@,
        "legal-case"@ != "legal_case"@,
        "legal-case"@ != "legislation"@,
        "legal-case"@ != "motion_picture"@,
        "legal-case"@ != "paper-conference"@,
        "legal-case"@ != "patent"@,
        "legal-case"@ != "personal-communication"@,
        "legal-case"@ != "personal_communication"@,
        "legal-case"@ != "post"@,
        "legal-case"@ != "post-weblog"@,
        "legal-case"@ != "report"@,
        "legal-case"@ != "software"@,
        "legal-case"@ != "standard"@,
        "legal-case"@ != "statute"@,
        "legal-case"@ != "thesis"@,
        "legal-case"@ != "treaty"@,
        "legal-case"@ != "webpage"@,
        "statute"@ != "article"@,
        "statute"@ != "article-journal"@,
        "statute"@ != "article-magazine"@,
        "statute"@ != "article-newspaper"@,
        "statute"@ != "book"@,
        "statute"@ != "broadcast"@,
        "statute"@ != "chapter"@,
        "statute"@ != "dataset"@,
        "statute"@ != "entry-dictionary"@,
        "statute"@ != "entry-encyclopedia"@,
        "statute"@ != "interview"@,
        "statute"@ != "legal-case"@,
        "statute"@ != "legal_case"@,
        "statute"@ != "legislation"@,
        "statute"@ != "motion_picture"@,
        "statute"@ != "paper-conference"@,
        "statute"@ != "patent"@,
        "statute"@ != "personal-communication"@,
        "statute"@ != "personal_communication"@,
        "statute"@ != "post"@,
        "statute"@ != "post-weblog"@,
        "statute"@ != "report"@,
        "statute"@ != "software"@,
        "statute"@ != "standard"@,
        "statute"@ != "thesis"@,
        "statute"@ != "treaty"@,
        "statute"@ != "webpage"@,
        "treaty"@ != "article"@,
        "treaty"@ != "article-journal"@,
        "treaty"@ != "article-magazine"@,
        "treaty"@ != "article-newspaper"@,
        "treaty"@ != "book"@,
        "treaty"@ != "broadcast"@,
        "treaty"@ != "chapter"@,
        "treaty"@ != "dataset"@,
        "treaty"@ != "entry-dictionary"@,
        "treaty"@ != "entry-encyclopedia"@,
        "treaty"@ != "interview"@,
        "treaty"@ != "legal-case"@,
        "treaty"@ != "legal_case"@,
        "treaty"@ != "legislation"@,
        "treaty"@ != "motion_picture"@,
        "treaty"@ != "paper-conference"@,
        "treaty"@ != "patent"@,
        "treaty"@ != "personal-communication"@,
        "treaty"@ != "personal_communication"@,
        "treaty"@ != "post"@,
        "treaty"@ != "post-weblog"@,
        "treaty"@ != "report"@,
        "treaty"@ != "software"@,
        "treaty"@ != "standard"@,
        "treaty"@ != "statute"@,
        "treaty"@ != "thesis"@,
        "treaty"@ != "webpage"@,
        "standard"@ != "article"@,
        "standard"@ != "article-journal"@,
        "standard"@ != "article-magazine"@,
        "standard"@ != "article-newspaper"@,
        "standard"@ != "book"@,
        "standard"@ != "broadcast"@,
        "standard"@ != "chapter"@,
        "standard"@ != "dataset"@,
        "standard"@ != "entry-dictionary"@,
        "standard"@ != "entry-encyclopedia"@,
        "standard"@ != "interview"@,
        "standard"@ != "legal-case"@,
        "standard"@ != "legal_case"@,
        "standard"@ != "legislation"@,
        "standard"@ != "motion_picture"@,
        "standard"@ != "paper-conference"@,
        "standard"@ != "patent"@,
        "standard"@ != "personal-communication"@,
        "standard"@ != "personal_communication"@,
        "standard"@ != "post"@,
        "standard"@ != "post-weblog"@,
        "standard"@ != "report"@,
        "standard"@ != "software"@,
        "standard"@ != "statute"@,
        "standard"@ != "thesis"@,
        "standard"@ != "treaty"@,
        "standard"@ != "webpage"@,
        "patent"@ != "article"@,
        "patent"@ != "article-journal"@,
        "patent"@ != "article-magazine"@,
        "patent"@ != "article-newspaper"@,
        "patent"@ != "book"@,
        "patent"@ != "broadcast"@,
        "patent"@ != "chapter"@,
        "patent"@ != "dataset"@,
        "patent"@ != "entry-dictionary"@,
        "patent"@ != "entry-encyclopedia"@,
        "patent"@ != "interview"@,
        "patent"@ != "legal-case"@,
        "patent"@ != "legal_case"@,
        "patent"@ != "legislation"@,
        "patent"@ != "motion_picture"@,
        "patent"@ != "paper-conference"@,
        "patent"@ != "personal-communication"@,
        "patent"@ != "personal_communication"@,
        "patent"@ != "post"@,
        "patent"@ != "post-weblog"@,
        "patent"@ != "report"@,
        "patent"@ != "software"@,
        "patent"@ != "standard"@,
        "patent"@ != "statute"@,
        "patent"@ != "thesis"@,
        "patent"@ != "treaty"@,
        "patent"@ != "webpage"@,
        "dataset"@ != "article"@,
        "dataset"@ != "article-journal"@,
        "dataset"@ != "article-magazine"@,
        "dataset"@ != "article-newspaper"@,
        "dataset"@ != "book"@,
        "dataset"@ != "broadcast"@,
        "dataset"@ != "chapter"@,
        "dataset"@ != "entry-dictionary"@,
        "dataset"@ != "entry-encyclopedia"@,
        "dataset"@ != "interview"@,
        "dataset"@ != "legal-case"@,
        "dataset"@ != "legal_case"@,
        "dataset"@ != "legislation"@,
        "dataset"@ != "motion_picture"@,
        "dataset"@ != "paper-conference"@,
        "dataset"@ != "patent"@,
        "dataset"@ != "personal-communication"@,
        "dataset"@ != "personal_communication"@,
        "dataset"@ != "post"@,
        "dataset"@ != "post-weblog"@,
        "dataset"@ != "report"@,
        "dataset"@ != "software"@,
        "dataset"@ != "standard"@,
        "dataset"@ != "statute"@,
        "dataset"@ != "thesis"@,
        "dataset"@ != "treaty"@,
        "dataset"@ != "webpage"@,
{
    reveal_strlit("article");
    reveal_strlit("article-journal");
    reveal_strlit("article-magazine");
    reveal_strlit("article-newspaper");
    reveal_strlit("book");
    reveal_strlit("broadcast");
    reveal_strlit("chapter");
    reveal_strlit("dataset");
    reveal_strlit("entry-dictionary");
    reveal_strlit("entry-encyclopedia");
    reveal_strlit("interview");
    reveal_strlit("legal-case");
    reveal_strlit("legal_case");
    reveal_strlit("legislation");
    reveal_strlit("motion_picture");
    reveal_strlit("paper-conference");
    reveal_strlit("patent");
    reveal_strlit("personal-communication");
    reveal_strlit("personal_communication");
    reveal_strlit("post");
    reveal_strlit("post-weblog");
    reveal_strlit("report");
    reveal_strlit("software");
    reveal_strlit("standard");
    reveal_strlit("statute");
    reveal_strlit("thesis");
    reveal_strlit("treaty");
    reveal_strlit("webpage");
    assert("article-journal"@.len() != "article"@.len());
    assert("article-journal"@.len() != "article-magazine"@.len());
    assert("article-journal"@.len() != "article-newspaper"@.len());
    assert("article-journal"@.len() != "book"@.len());
    assert("article-journal"@.len() != "broadcast"@.len());
    assert("article-journal"@.len() != "chapter"@.len());
    assert("article-journal"@.len() != "dataset"@.len());
    assert("article-journal"@.len() != "entry-dictionary"@.len());
    assert("article-journal"@.len() != "entry-encyclopedia"@.len());
    assert("article-journal"@.len() != "interview"@.len());
    assert("article-journal"@.len() != "legal-case"@.len());
    assert("article-journal"@.len() != "legal_case"@.len());
    assert("article-journal"@.len() != "legislation"@.len());
    assert("article-journal"@.len() != "motion_picture"@.len());
    assert("article-journal"@.len() != "paper-conference"@.len());
    assert("article-journal"@.len() != "patent"@.len());
    assert("article-journal"@.len() != "personal-communication"@.len());
    assert("article-journal"@.len() != "personal_communication"@.len());
    assert("article-journal"@.len() != "post"@.len());
    assert("article-journal"@.len() != "post-weblog"@.len());
    assert("article-journal"@.len() != "report"@.len());
    assert("article-journal"@.len() != "software"@.len());
    assert("article-journal"@.len() != "standard"@.len());
    assert("article-journal"@.len() != "statute"@.len());
    assert("article-journal"@.len() != "thesis"@.len());
    assert("article-journal"@.len() != "treaty"@.len());
    assert("article-journal"@.len() != "webpage"@.len());
    assert("article-magazine"@.len() != "article"@.len());
    assert("article-magazine"@.len() != "article-journal"@.len());
    assert("article-magazine"@.len() != "article-newspaper"@.len());
    assert("article-magazine"@.len() != "book"@.len());
    assert("article-magazine"@.len() != "broadcast"@.len());
    assert("article-magazine"@.len() != "chapter"@.len());
    assert("article-magazine"@.len() != "dataset"@.len());
    assert("article-magazine"@[0] != "entry-dictionary"@[0]);
    assert("article-magazine"@.len() != "entry-encyclopedia"@.len());
    assert("article-magazine"@.len() != "interview"@.len());
    assert("article-magazine"@.len() != "legal-case"@.len());
    assert("article-magazine"@.len() != "legal_case"@.len());
    assert("article-magazine"@.len() != "legislation"@.len());
    assert("article-magazine"@.len() != "motion_picture"@.len());
    assert("article-magazine"@[0] != "paper-conference"@[0]);
    assert("article-magazine"@.len() != "patent"@.len());
    assert("article-magazine"@.len() != "personal-communication"@.len());
    assert("article-magazine"@.len() != "personal_communication"@.len());
    assert("article-magazine"@.len() != "post"@.len());
    assert("article-magazine"@.len() != "post-weblog"@.len());
    assert("article-magazine"@.len() != "report"@.len());
    assert("article-magazine"@.len() != "software"@.len());
    assert("article-magazine"@.len() != "standard"@.len());
    assert("article-magazine"@.len() != "statute"@.len());
    assert("article-magazine"@.len() != "thesis"@.len());
    assert("article-magazine"@.len() != "treaty"@.len());
    assert("article-magazine"@.len() != "webpage"@.len());
    assert("article-newspaper"@.len() != "article"@.len());
    assert("article-newspaper"@.len() != "article-journal"@.len());
    assert("article-newspaper"@.len() != "article-magazine"@.len());
    assert("article-newspaper"@.len() != "book"@.len());
    assert("article-newspaper"@.len() != "broadcast"@.len());
    assert("article-newspaper"@.len() != "chapter"@.len());
    assert("article-newspaper"@.len() != "dataset"@.len());
    assert("article-newspaper"@.len() != "entry-dictionary"@.len());
    assert("article-newspaper"@.len() != "entry-encyclopedia"@.len());
    assert("article-newspaper"@.len() != "interview"@.len());
    assert("article-newspaper"@.len() != "legal-case"@.len());
    assert("article-newspaper"@.len() != "legal_case"@.len());
    assert("article-newspaper"@.len() != "legislation"@.len());
    assert("article-newspaper"@.len() != "motion_picture"@.len());
    assert("article-newspaper"@.len() != "paper-conference"@.len());
    assert("article-newspaper"@.len() != "patent"@.len());
    assert("article-newspaper"@.len() != "personal-communication"@.len());
    assert("article-newspaper"@.len() != "personal_communication"@.len());
    assert("article-newspaper"@.len() != "post"@.len());
    assert("article-newspaper"@.len() != "post-weblog"@.len());
    assert("article-newspaper"@.len() != "report"@.len());
    assert("article-newspaper"@.len() != "software"@.len());
    assert("article-newspaper"@.len() != "standard"@.len());
    assert("article-newspaper"@.len() != "statute"@.len());
    assert("article-newspaper"@.len() != "thesis"@.len());
    assert("article-newspaper"@.len() != "treaty"@.len());
    assert("article-newspaper"@.len() != "webpage"@.len());
    assert("broadcast"@.len() != "article"@.len());
    assert("broadcast"@.len() != "article-journal"@.len());
    assert("broadcast"@.len() != "article-magazine"@.len());
    assert("broadcast"@.len() != "article-newspaper"@.len());
    assert("broadcast"@.len() != "book"@.len());
    assert("broadcast"@.len() != "chapter"@.len());
    assert("broadcast"@.len() != "dataset"@.len());
    assert("broadcast"@.len() != "entry-dictionary"@.len());
    assert("broadcast"@.len() != "entry-encyclopedia"@.len());
    assert("broadcast"@[0] != "interview"@[0]);
    assert("broadcast"@.len() != "legal-case"@.len());
    assert("broadcast"@.len() != "legal_case"@.len());
    assert("broadcast"@.len() != "legislation"@.len());
    assert("broadcast"@.len() != "motion_picture"@.len());
    assert("broadcast"@.len() != "paper-conference"@.len());
    assert("broadcast"@.len() != "patent"@.len());
    assert("broadcast"@.len() != "personal-communication"@.len());
    assert("broadcast"@.len() != "personal_communication"@.len());
    assert("broadcast"@.len() != "post"@.len());
    assert("broadcast"@.len() != "post-weblog"@.len());
    assert("broadcast"@.len() != "report"@.len());
    assert("broadcast"@.len() != "software"@.len());
    assert("broadcast"@.len() != "standard"@.len());
    assert("broadcast"@.len() != "statute"@.len());
    assert("broadcast"@.len() != "thesis"@.len());
    assert("broadcast"@.len() != "treaty"@.len());
    assert("broadcast"@.len() != "webpage"@.len());
    assert("entry-encyclopedia"@.len() != "article"@.len());
    assert("entry-encyclopedia"@.len() != "article-journal"@.len());
    assert("entry-encyclopedia"@.len() != "article-magazine"@.len());
    assert("entry-encyclopedia"@.len() != "article-newspaper"@.len());
    assert("entry-encyclopedia"@.len() != "book"@.len());
    assert("entry-encyclopedia"@.len() != "broadcast"@.len());
    assert("entry-encyclopedia"@.len() != "chapter"@.len());
    assert("entry-encyclopedia"@.len() != "dataset"@.len());
    assert("entry-encyclopedia"@.len() != "entry-dictionary"@.len());
    assert("entry-encyclopedia"@.len() != "interview"@.len());
    assert("entry-encyclopedia"@.len() != "legal-case"@.len());
    assert("entry-encyclopedia"@.len() != "legal_case"@.len());
    assert("entry-encyclopedia"@.len() != "legislation"@.len());
    assert("entry-encyclopedia"@.len() != "motion_picture"@.len());
    assert("entry-encyclopedia"@.len() != "paper-conference"@.len());
    assert("entry-encyclopedia"@.len() != "patent"@.len());
    assert("entry-encyclopedia"@.len() != "personal-communication"@.len());
    assert("entry-encyclopedia"@.len() != "personal_communication"@.len());
    assert("entry-encyclopedia"@.len() != "post"@.len());
    assert("entry-encyclopedia"@.len() != "post-weblog"@.len());
    assert("entry-encyclopedia"@.len() != "report"@.len());
    assert("entry-encyclopedia"@.len() != "software"@.len());
    assert("entry-encyclopedia"@.len() != "standard"@.len());
    assert("entry-encyclopedia"@.len() != "statute"@.len());
    assert("entry-encyclopedia"@.len() != "thesis"@.len());
    assert("entry-encyclopedia"@.len() != "treaty"@.len());
    assert("entry-encyclopedia"@.len() != "webpage"@.len());
    assert("book"@.len() != "article"@.len());
    assert("book"@.len() != "article-journal"@.len());
    assert("book"@.len() != "article-magazine"@.len());
    assert("book"@.len() != "article-newspaper"@.len());
    assert("book"@.len() != "broadcast"@.len());
    assert("book"@.len() != "chapter"@.len());
    assert("book"@.len() != "dataset"@.len());
    assert("book"@.len() != "entry-dictionary"@.len());
    assert("book"@.len() != "entry-encyclopedia"@.len());
    assert("book"@.len() != "interview"@.len());
    assert("book"@.len() != "legal-case"@.len());
    assert("book"@.len() != "legal_case"@.len());
    assert("book"@.len() != "legislation"@.len());
    assert("book"@.len() != "motion_picture"@.len());
    assert("book"@.len() != "paper-conference"@.len());
    assert("book"@.len() != "patent"@.len());
    assert("book"@.len() != "personal-communication"@.len());
    assert("book"@.len() != "personal_communication"@.len());
    assert("book"@[0] != "post"@[0]);
    assert("book"@.len() != "post-weblog"@.len());
    assert("book"@.len() != "report"@.len());
    assert("book"@.len() != "software"@.len());
    assert("book"@.len() != "standard"@.len());
    assert("book"@.len() != "statute"@.len());
    assert("book"@.len() != "thesis"@.len());
    assert("book"@.len() != "treaty"@.len());
    assert("book"@.len() != "webpage"@.len());
    assert("report"@.len() != "article"@.len());
    assert("report"@.len() != "article-journal"@.len());
    assert("report"@.len() != "article-magazine"@.len());
    assert("report"@.len() != "article-newspaper"@.len());
    assert("report"@.len() != "book"@.len());
    assert("report"@.len() != "broadcast"@.len());
    assert("report"@.len() != "chapter"@.len());
    assert("report"@.len() != "dataset"@.len());
    assert("report"@.len() != "entry-dictionary"@.len());
    assert("report"@.len() != "entry-encyclopedia"@.len());
    assert("report"@.len() != "interview"@.len());
    assert("report"@.len() != "legal-case"@.len());
    assert("report"@.len() != "legal_case"@.len());
    assert("report"@.len() != "legislation"@.len());
    assert("report"@.len() != "motion_picture"@.len());
    assert("report"@.len() != "paper-conference"@.len());
    assert("report"@[0] != "patent"@[0]);
    assert("report"@.len() != "personal-communication"@.len());
    assert("report"@.len() != "personal_communication"@.len());
    assert("report"@.len() != "post"@.len());
    assert("report"@.len() != "post-weblog"@.len());
    assert("report"@.len() != "software"@.len());
    assert("report"@.len() != "standard"@.len());
    assert("report"@.len() != "statute"@.len());
    assert("report"@[0] != "thesis"@[0]);
    assert("report"@[0] != "treaty"@[0]);
    assert("report"@.len() != "webpage"@.len());
    assert("thesis"@.len() != "article"@.len());
    assert("thesis"@.len() != "article-journal"@.len());
    assert("thesis"@.len() != "article-magazine"@.len());
    assert("thesis"@.len() != "article-newspaper"@.len());
    assert("thesis"@.len() != "book"@.len());
    assert("thesis"@.len() != "broadcast"@.len());
    assert("thesis"@.len() != "chapter"@.len());
    assert("thesis"@.len() != "dataset"@.len());
    assert("thesis"@.len() != "entry-dictionary"@.len());
    assert("thesis"@.len() != "entry-encyclopedia"@.len());
    assert("thesis"@.len() != "interview"@.len());
    assert("thesis"@.len() != "legal-case"@.len());
    assert("thesis"@.len() != "legal_case"@.len());
    assert("thesis"@.len() != "legislation"@.len());
    assert("thesis"@.len() != "motion_picture"@.len());
    assert("thesis"@.len() != "paper-conference"@.len());
    assert("thesis"@[0] != "patent"@[0]);
    assert("thesis"@.len() != "personal-communication"@.len());
    assert("thesis"@.len() != "personal_communication"@.len());
    assert("thesis"@.len() != "post"@.len());
    assert("thesis"@.len() != "post-weblog"@.len());
    assert("thesis"@[0] != "report"@[0]);
    assert("thesis"@.len() != "software"@.len());
    assert("thesis"@.len() != "standard"@.len());
    assert("thesis"@.len() != "statute"@.len());
    assert("thesis"@[1] != "treaty"@[1]);
    assert("thesis"@.len() != "webpage"@.len());
    assert("webpage"@[0] != "article"@[0]);
    assert("webpage"@.len() != "article-journal"@.len());
    assert("webpage"@.len() != "article-magazine"@.len());
    assert("webpage"@.len() != "article-newspaper"@.len());
    assert("webpage"@.len() != "book"@.len());
    assert("webpage"@.len() != "broadcast"@.len());
    assert("webpage"@[0] != "chapter"@[0]);
    assert("webpage"@[0] != "dataset"@[0]);
    assert("webpage"@.len() != "entry-dictionary"@.len());
    assert("webpage"@.len() != "entry-encyclopedia"@.len());
    assert("webpage"@.len() != "interview"@.len());
    assert("webpage"@.len() != "legal-case"@.len());
    assert("webpage"@.len() != "legal_case"@.len());
    assert("webpage"@.len() != "legislation"@.len());
    assert("webpage"@.len() != "motion_picture"@.len());
    assert("webpage"@.len() != "paper-conference"@.len());
    assert("webpage"@.len() != "patent"@.len());
    assert("webpage"@.len() != "personal-communication"@.len());
    assert("webpage"@.len() != "personal_communication"@.len());
    assert("webpage"@.len() != "post"@.len());
    assert("webpage"@.len() != "post-weblog"@.len());
    assert("webpage"@.len() != "report"@.len());
    assert("webpage"@.len() != "software"@.len());
    assert("webpage"@.len() != "standard"@.len());
    assert("webpage"@[0] != "statute"@[0]);
    assert("webpage"@.len() != "thesis"@.len());
    assert("webpage"@.len() != "treaty"@.len());
    assert("post"@.len() != "article"@.len());
    assert("post"@.len() != "article-journal"@.len());
    assert("post"@.len() != "article-magazine"@.len());
    assert("post"@.len() != "article-newspaper"@.len());
    assert("post"@[0] != "book"@[0]);
    assert("post"@.len() != "broadcast"@.len());
    assert("post"@.len() != "chapter"@.len());
    assert("post"@.len() != "dataset"@.len());
    assert("post"@.len() != "entry-dictionary"@.len());
    assert("post"@.len() != "entry-encyclopedia"@.len());
    assert("post"@.len() != "interview"@.len());
    assert("post"@.len() != "legal-case"@.len());
    assert("post"@.len() != "legal_case"@.len());
    assert("post"@.len() != "legislation"@.len());
    assert("post"@.len() != "motion_picture"@.len());
    assert("post"@.len() != "paper-conference"@.len());
    assert("post"@.len() != "patent"@.len());
    assert("post"@.len() != "personal-communication"@.len());
    assert("post"@.len() != "personal_communication"@.len());
    assert("post"@.len() != "post-weblog"@.len());
    assert("post"@.len() != "report"@.len());
    assert("post"@.len() != "software"@.len());
    assert("post"@.len() != "standard"@.len());
    assert("post"@.len() != "statute"@.len());
    assert("post"@.len() != "thesis"@.len());
    assert("post"@.len() != "treaty"@.len());
    assert("post"@.len() != "webpage"@.len());
    assert("chapter"@[0] != "article"@[0]);
    assert("chapter"@.len() != "article-journal"@.len());
    assert("chapter"@.len() != "article-magazine"@.len());
    assert("chapter"@.len() != "article-newspaper"@.len());
    assert("chapter"@.len() != "book"@.len());
    assert("chapter"@.len() != "broadcast"@.len());
    assert("chapter"@[0] != "dataset"@[0]);
    assert("chapter"@.len() != "entry-dictionary"@.len());
    assert("chapter"@.len() != "entry-encyclopedia"@.len());
    assert("chapter"@.len() != "interview"@.len());
    assert("chapter"@.len() != "legal-case"@.len());
    assert("chapter"@.len() != "legal_case"@.len());
    assert("chapter"@.len() != "legislation"@.len());
    assert("chapter"@.len() != "motion_picture"@.len());
    assert("chapter"@.len() != "paper-conference"@.len());
    assert("chapter"@.len() != "patent"@.len());
    assert("chapter"@.len() != "personal-communication"@.len());
    assert("chapter"@.len() != "personal_communication"@.len());
    assert("chapter"@.len() != "post"@.len());
    assert("chapter"@.len() != "post-weblog"@.len());
    assert("chapter"@.len() != "report"@.len());
    assert("chapter"@.len() != "software"@.len());
    assert("chapter"@.len() != "standard"@.len());
    assert("chapter"@[0] != "statute"@[0]);
    assert("chapter"@.len() != "thesis"@.len());
    assert("chapter"@.len() != "treaty"@.len());
    assert("chapter"@[0] != "webpage"@[0]);
    assert("paper-conference"@.len() != "article"@.len());
    assert("paper-conference"@.len() != "article-journal"@.len());
    assert("paper-conference"@[0] != "article-magazine"@[0]);
    assert("paper-conference"@.len() != "article-newspaper"@.len());
    assert("paper-conference"@.len() != "book"@.len());
    assert("paper-conference"@.len() != "broadcast"@.len());
    assert("paper-conference"@.len() != "chapter"@.len());
    assert("paper-conference"@.len() != "dataset"@.len());
    assert("paper-conference"@[0] != "entry-dictionary"@[0]);
    assert("paper-conference"@.len() != "entry-encyclopedia"@.len());
    assert("paper-conference"@.len() != "interview"@.len());
    assert("paper-conference"@.len() != "legal-case"@.len());
    assert("paper-conference"@.len() != "legal_case"@.len());
    assert("paper-conference"@.len() != "legislation"@.len());
    assert("paper-conference"@.len() != "motion_picture"@.len());
    assert("paper-conference"@.len() != "patent"@.len());
    assert("paper-conference"@.len() != "personal-communication"@.len());
    assert("paper-conference"@.len() != "personal_communication"@.len());
    assert("paper-conference"@.len() != "post"@.len());
    assert("paper-conference"@.len() != "post-weblog"@.len());
    assert("paper-conference"@.len() != "report"@.len());
    assert("paper-conference"@.len() != "software"@.len());
    assert("paper-conference"@.len() != "standard"@.len());
    assert("paper-conference"@.len() != "statute"@.len());
    assert("paper-conference"@.len() != "thesis"@.len());
    assert("paper-conference"@.len() != "treaty"@.len());
    assert("paper-conference"@.len() != "webpage"@.len());
    assert("legal-case"@.len() != "article"@.len());
    assert("legal-case"@.len() != "article-journal"@.len());
    assert("legal-case"@.len() != "article-magazine"@.len());
    assert("legal-case"@.len() != "article-newspaper"@.len());
    assert("legal-case"@.len() != "book"@.len());
    assert("legal-case"@.len() != "broadcast"@.len());
    assert("legal-case"@.len() != "chapter"@.len());
    assert("legal-case"@.len() != "dataset"@.len());
    assert("legal-case"@.len() != "entry-dictionary"@.len());
    assert("legal-case"@.len() != "entry-encyclopedia"@.len());
    assert("legal-case"@.len() != "interview"@.len());
    assert("legal-case"@[5] != "legal_case"@[5]);
    assert("legal-case"@.len() != "legislation"@.len());
    assert("legal-case"@.len() != "motion_picture"@.len());
    assert("legal-case"@.len() != "paper-conference"@.len());
    assert("legal-case"@.len() != "patent"@.len());
    assert("legal-case"@.len() != "personal-communication"@.len());
    assert("legal-case"@.len() != "personal_communication"@.len());
    assert("legal-case"@.len() != "post"@.len());
    assert("legal-case"@.len() != "post-weblog"@.len());
    assert("legal-case"@.len() != "report"@.len());
    assert("legal-case"@.len() != "software"@.len());
    assert("legal-case"@.len() != "standard"@.len());
    assert("legal-case"@.len() != "statute"@.len());
    assert("legal-case"@.len() != "thesis"@.len());
    assert("legal-case"@.len() != "treaty"@.len());
    assert("legal-case"@.len() != "webpage"@.len());
    assert("statute"@[0] != "article"@[0]);
    assert("statute"@.len() != "article-journal"@.len());
    assert("statute"@.len() != "article-magazine"@.len());
    assert("statute"@.len() != "article-newspaper"@.len());
    assert("statute"@.len() != "book"@.len());
    assert("statute"@.len() != "broadcast"@.len());
    assert("statute"@[0] != "chapter"@[0]);
    assert("statute"@[0] != "dataset"@[0]);
    assert("statute"@.len() != "entry-dictionary"@.len());
    assert("statute"@.len() != "entry-encyclopedia"@.len());
    assert("statute"@.len() != "interview"@.len());
    assert("statute"@.len() != "legal-case"@.len());
    assert("statute"@.len() != "legal_case"@.len());
    assert("statute"@.len() != "legislation"@.len());
    assert("statute"@.len() != "motion_picture"@.len());
    assert("statute"@.len() != "paper-conference"@.len());
    assert("statute"@.len() != "patent"@.len());
    assert("statute"@.len() != "personal-communication"@.len());
    assert("statute"@.len() != "personal_communication"@.len());
    assert("statute"@.len() != "post"@.len());
    assert("statute"@.len() != "post-weblog"@.len());
    assert("statute"@.len() != "report"@.len());
    assert("statute"@.len() != "software"@.len());
    assert("statute"@.len() != "standard"@.len());
    assert("statute"@.len() != "thesis"@.len());
    assert("statute"@.len() != "treaty"@.len());
    assert("statute"@[0] != "webpage"@[0]);
    assert("treaty"@.len() != "article"@.len());
    assert("treaty"@.len() != "article-journal"@.len());
    assert("treaty"@.len() != "article-magazine"@.len());
    assert("treaty"@.len() != "article-newspaper"@.len());
    assert("treaty"@.len() != "book"@.len());
    assert("treaty"@.len() != "broadcast"@.len());
    assert("treaty"@.len() != "chapter"@.len());
    assert("treaty"@.len() != "dataset"@.len());
    assert("treaty"@.len() != "entry-dictionary"@.len());
    assert("treaty"@.len() != "entry-encyclopedia"@.len());
    assert("treaty"@.len() != "interview"@.len());
    assert("treaty"@.len() != "legal-case"@.len());
    assert("treaty"@.len() != "legal_case"@.len());
    assert("treaty"@.len() != "legislation"@.len());
    assert("treaty"@.len() != "motion_picture"@.len());
    assert("treaty"@.len() != "paper-conference"@.len());
    assert("treaty"@[0] != "patent"@[0]);
    assert("treaty"@.len() != "personal-communication"@.len());
    assert("treaty"@.len() != "personal_communication"@.len());
    assert("treaty"@.len() != "post"@.len());
    assert("treaty"@.len() != "post-weblog"@.len());
    assert("treaty"@[0] != "report"@[0]);
    assert("treaty"@.len() != "software"@.len());
    assert("treaty"@.len() != "standard"@.len());
    assert("treaty"@.len() != "statute"@.len());
    assert("treaty"@[1] != "thesis"@[1]);
    assert("treaty"@.len() != "webpage"@.len());
    assert("standard"@.len() != "article"@.len());
    assert("standard"@.len() != "article-journal"@.len());
    assert("standard"@.len() != "article-magazine"@.len());
    assert("standard"@.len() != "article-newspaper"@.len());
    assert("standard"@.len() != "book"@.len());
    assert("standard"@.len() != "broadcast"@.len());
    assert("standard"@.len() != "chapter"@.len());
    assert("standard"@.len() != "dataset"@.len());
    assert("standard"@.len() != "entry-dictionary"@.len());
    assert("standard"@.len() != "entry-encyclopedia"@.len());
    assert("standard"@.len() != "interview"@.len());
    assert("standard"@.len() != "legal-case"@.len());
    assert("standard"@.len() != "legal_case"@.len());
    assert("standard"@.len() != "legislation"@.len());
    assert("standard"@.len() != "motion_picture"@.len());
    assert("standard"@.len() != "paper-conference"@.len());
    assert("standard"@.len() != "patent"@.len());
    assert("standard"@.len() != "personal-communication"@.len());
    assert("standard"@.len() != "personal_communication"@.len());
    assert("standard"@.len() != "post"@.len());
    assert("standard"@.len() != "post-weblog"@.len());
    assert("standard"@.len() != "report"@.len());
    assert("standard"@[1] != "software"@[1]);
    assert("standard"@.len() != "statute"@.len());
    assert("standard"@.len() != "thesis"@.len());
    assert("standard"@.len() != "treaty"@.len());
    assert("standard"@.len() != "webpage"@.len());
    assert("patent"@.len() != "article"@.len());
    assert("patent"@.len() != "article-journal"@.len());
    assert("patent"@.len() != "article-magazine"@.len());
    assert("patent"@.len() != "article-newspaper"@.len());
    assert("patent"@.len() != "book"@.len());
    assert("patent"@.len() != "broadcast"@.len());
    assert("patent"@.len() != "chapter"@.len());
    assert("patent"@.len() != "dataset"@.len());
    assert("patent"@.len() != "entry-dictionary"@.len());
    assert("patent"@.len() != "entry-encyclopedia"@.len());
    assert("patent"@.len() != "interview"@.len());
    assert("patent"@.len() != "legal-case"@.len());
    assert("patent"@.len() != "legal_case"@.len());
    assert("patent"@.len() != "legislation"@.len());
    assert("patent"@.len() != "motion_picture"@.len());
    assert("patent"@.len() != "paper-conference"@.len());
    assert("patent"@.len() != "personal-communication"@.len());
    assert("patent"@.len() != "personal_communication"@.len());
    assert("patent"@.len() != "post"@.len());
    assert("patent"@.len() != "post-weblog"@.len());
    assert("patent"@[0] != "report"@[0]);
    assert("patent"@.len() != "software"@.len());
    assert("patent"@.len() != "standard"@.len());
    assert("patent"@.len() != "statute"@.len());
    assert("patent"@[0] != "thesis"@[0]);
    assert("patent"@[0] != "treaty"@[0]);
    assert("patent"@.len() != "webpage"@.len());
    assert("dataset"@[0] != "article"@[0]);
    assert("dataset"@.len() != "article-journal"@.len());
    assert("dataset"@.len() != "article-magazine"@.len());
    assert("dataset"@.len() != "article-newspaper"@.len());
    assert("dataset"@.len() != "book"@.len());
    assert("dataset"@.len() != "broadcast"@.len());
    assert("dataset"@[0] != "chapter"@[0]);
    assert("dataset"@.len() != "entry-dictionary"@.len());
    assert("dataset"@.len() != "entry-encyclopedia"@.len());
    assert("dataset"@.len() != "interview"@.len());
    assert("dataset"@.len() != "legal-case"@.len());
    assert("dataset"@.len() != "legal_case"@.len());
    assert("dataset"@.len() != "legislation"@.len());
    assert("dataset"@.len() != "motion_picture"@.len());
    assert("dataset"@.len() != "paper-conference"@.len());
    assert("dataset"@.len() != "patent"@.len());
    assert("dataset"@.len() != "personal-communication"@.len());
    assert("dataset"@.len() != "personal_communication"@.len());
    assert("dataset"@.len() != "post"@.len());
    assert("dataset"@.len() != "post-weblog"@.len());
    assert("dataset"@.len() != "report"@.len());
    assert("dataset"@.len() != "software"@.len());
    assert("dataset"@.len() != "standard"@.len());
    assert("dataset"@[0] != "statute"@[0]);
    assert("dataset"@.len() != "thesis"@.len());
    assert("dataset"@.len() != "treaty"@.len());
    assert("dataset"@[0] != "webpage"@[0]);
}

/// Whether a CSL-JSON reference's type survives conversion: an article
/// whose type is kept (`article_type_kept`), or a book (not an interview
/// by its medium), report, thesis, webpage, post, chapter, conference
/// paper, legal case, statute, treaty, standard, patent or dataset.
pub open spec fn csl_type_kept(l: CslReference) -> bool {
    let t = l.ref_type@;
    ||| article_type_kept(l)
    ||| t == "book"@ && !is_interview_medium(l.medium)
    ||| t == "report"@ || t == "thesis"@ || t == "webpage"@ || t == "post"@
    ||| t == "chapter"@ || t == "paper-conference"@
    ||| t == "legal-case"@ || t == "statute"@ || t == "treaty"@ || t == "standard"@ || t == "patent"@
        || t == "dataset"@
}

/// Converting a CSL-JSON reference of a type that survives conversion
/// (`csl_type_kept`) gives a reference of the same CSL type.
pub proof fn law_csl_types_kept(l: CslReference, url: Option<String>, r: InputReference)
    requires
        converted(l, url, r),
        csl_type_kept(l),
    ensures
        ref_type_of(r) == l.ref_type@,
{
    reveal_type_literals();
    let t = l.ref_type@;
    if article_type_kept(l) {
        law_article_types_kept(l, url, r);
    } else if t == "chapter"@ || t == "paper-conference"@ {
        assert(csl_class(t) == CslClass::Chapter);
    } else if t == "book"@ || t == "report"@ || t == "thesis"@ || t == "webpage"@ || t == "post"@ {
        assert(csl_class(t) == CslClass::Monograph);
        if t == "post"@ {
            reveal_strlit("post");
            assert(t.subrange(0, 4) =~= "post"@);
            assert(occurs_at(t, "post"@, 0));
        }
        if t == "book"@ {
            reveal_strlit("book");
            reveal_strlit("post");
            assert forall|i: int| !occurs_at(t, "post"@, i) by {
                if occurs_at(t, "post"@, i) {
                    assert(t.subrange(i, i + 4)[0] == "post"@[0]);
                }
            }
        }
    }
}

/// Whether a CSL-JSON reference is an article whose type survives
/// conversion (`law_article_types_kept`).
pub open spec fn article_type_kept(l: CslReference) -> bool {
    &&& l.ref_type@ == "article-journal"@ || l.ref_type@ == "article-magazine"@ || l.ref_type@
        == "article-newspaper"@ || (l.ref_type@ == "broadcast"@ && !is_film_genre(l.genre)) || (l.ref_type@
        == "entry-encyclopedia"@ && l.genre is None)
    &&& !(l.ref_type@ == "article-journal"@ && l.genre is Some && l.genre.unwrap()@ == "entry-encyclopedia"@)
}

/// Converting a CSL-JSON article keeps its type: a journal, magazine or
/// newspaper article, a broadcast (of a genre other than film), or an
/// encyclopedia entry (without a genre of its own) converts to a reference
/// whose CSL type is the one it had. A journal article whose genre reads
/// "entry-encyclopedia" is read back as an encyclopedia entry.
pub proof fn law_article_types_kept(l: CslReference, url: Option<String>, r: InputReference)
    requires
        converted(l, url, r),
        article_type_kept(l),
    ensures
        ref_type_of(r) == l.ref_type@,
{
    reveal_type_literals();
    let a = *r->SerialComponent_0;
    assert(csl_class(l.ref_type@) == CslClass::Article);
    assert(article_from(a, l, url));
    if l.ref_type@ == "entry-encyclopedia"@ {
        assert(opt_view(a.genre) == Some("entry-encyclopedia"@));
    } else {
        assert(opt_view(a.genre) == opt_view(l.genre));
    }
}

/// The number-or-string of a CSL-JSON string-or-number.
pub open spec fn num_or_str(v: StringOrNumber) -> NumOrStr {
    match v {
        StringOrNumber::String(s) => NumOrStr::Str(s),
        StringOrNumber::Number(n) => NumOrStr::Number(n),
    }
}

/// Whether `a` is the article a CSL-JSON reference converts to: its serial
/// embedded; broadcasts and films take their number as the issue when they
/// have none; encyclopedia entries keep their type as the genre when they
/// have none.
pub open spec fn article_from(a: SerialComponent, l: CslReference, url: Option<String>) -> bool {
    let t = l.ref_type@;
    &&& a.id == Some(l.id)
    &&& a.kind == SerialComponentType::Article
    &&& a.title is Some && title_from(a.title.unwrap(), l.title)
    &&& opt_names_contributor(a.author, l.author)
    &&& opt_names_contributor(a.translator, l.translator)
    &&& issued_from(a.issued, l.issued)
    &&& a.parent is Embedded
    &&& {
        let p = a.parent->Embedded_0;
        &&& p.kind == serial_kind(t)
        &&& title_from(p.title, l.container_title)
        &&& p.editor is None
        &&& publisher_from(p.publisher, l.publisher, l.publisher_place)
        &&& p.issn == l.issn
    }
    &&& a.url == url
    &&& opt_edtf_from(a.accessed, l.accessed)
    &&& a.language == l.language
    &&& a.field_languages@.len() == 0
    &&& a.note == l.note
    &&& a.doi == l.doi
    &&& a.pages == l.page
    &&& a.volume == (match l.volume { Some(v) => Some(num_or_str(v)), None => None })
    &&& a.issue == (match l.issue {
        Some(v) => Some(num_or_str(v)),
        None => if (t == "broadcast"@ || t == "motion_picture"@) && l.number is Some {
            Some(NumOrStr::Str(l.number.unwrap()))
        } else {
            None
        },
    })
    &&& opt_view(a.genre) == (if t == "entry-encyclopedia"@ && l.genre is None {
        Some("entry-encyclopedia"@)
    } else {
        opt_view(l.genre)
    })
    &&& a.medium == l.medium
    &&& a.keywords is None
}

/// Whether `x` is the legal case a CSL-JSON reference converts to.
pub open spec fn legal_case_from(x: LegalCase, l: CslReference, url: Option<String>) -> bool {
    &&& x.id == Some(l.id)
    &&& title_from(x.title, l.title)
    &&& x.authority@ == or_empty(l.authority)
    &&& opt_view(x.volume) == opt_sn_text(l.volume)
    &&& x.reporter == l.container_title
    &&& x.page == l.page
    &&& issued_from(x.issued, l.issued)
    &&& x.url == url
    &&& opt_edtf_from(x.accessed, l.accessed)
    &&& x.language == l.language
    &&& x.field_languages@.len() == 0
    &&& x.note == l.note
    &&& x.doi == l.doi
    &&& x.keywords is None
}

/// Whether `x` is the statute a CSL-JSON reference converts to.
pub open spec fn statute_from(x: Statute, l: CslReference, url: Option<String>) -> bool {
    &&& x.id == Some(l.id)
    &&& title_from(x.title, l.title)
    &&& x.authority == l.authority
    &&& opt_view(x.volume) == opt_sn_text(l.volume)
    &&& x.code == l.container_title
    &&& x.section == l.section
    &&& issued_from(x.issued, l.issued)
    &&& x.url == url
    &&& opt_edtf_from(x.accessed, l.accessed)
    &&& x.language == l.language
    &&& x.field_languages@.len() == 0
    &&& x.note == l.note
    &&& x.keywords is None
}

/// Whether `x` is the treaty a CSL-JSON reference converts to.
pub open spec fn treaty_from(x: Treaty, l: CslReference, url: Option<String>) -> bool {
    &&& x.id == Some(l.id)
    &&& title_from(x.title, l.title)
    &&& opt_names_contributor(x.author, l.author)
    &&& opt_view(x.volume) == opt_sn_text(l.volume)
    &&& x.reporter == l.container_title
    &&& x.page == l.page
    &&& issued_from(x.issued, l.issued)
    &&& x.url == url
    &&& opt_edtf_from(x.accessed, l.accessed)
    &&& x.language == l.language
    &&& x.field_languages@.len() == 0
    &&& x.note == l.note
    &&& x.keywords is None
}

/// Whether `x` is the standard a CSL-JSON reference converts to.
pub open spec fn standard_from(x: Standard, l: CslReference, url: Option<String>) -> bool {
    &&& x.id == Some(l.id)
    &&& title_from(x.title, l.title)
    &&& x.authority == l.authority
    &&& x.standard_number@ == or_empty(l.number)
    &&& issued_from(x.issued, l.issued)
    &&& x.status is None
    &&& publisher_from(x.publisher, l.publisher, l.publisher_place)
    &&& x.url == url
    &&& opt_edtf_from(x.accessed, l.accessed)
    &&& x.language == l.language
    &&& x.field_languages@.len() == 0
    &&& x.note == l.note
    &&& x.keywords is None
}

/// Whether `x` is the patent a CSL-JSON reference converts to.
pub open spec fn patent_from(x: Patent, l: CslReference, url: Option<String>) -> bool {
    &&& x.id == Some(l.id)
    &&& title_from(x.title, l.title)
    &&& opt_names_contributor(x.author, l.author)
    &&& x.assignee is None
    &&& x.patent_number@ == or_empty(l.number)
    &&& x.application_number is None
    &&& x.filing_date is None
    &&& issued_from(x.issued, l.issued)
    &&& x.jurisdiction is None
    &&& x.authority == l.authority
    &&& x.url == url
    &&& opt_edtf_from(x.accessed, l.accessed)
    &&& x.language == l.language
    &&& x.field_languages@.len() == 0
    &&& x.note == l.note
    &&& x.keywords is None
}

/// Whether `x` is the dataset a CSL-JSON reference converts to.
pub open spec fn dataset_from(x: Dataset, l: CslReference, url: Option<String>) -> bool {
    &&& x.id == Some(l.id)
    &&& title_from(x.title, l.title)
    &&& opt_names_contributor(x.author, l.author)
    &&& issued_from(x.issued, l.issued)
    &&& publisher_from(x.publisher, l.publisher, l.publisher_place)
    &&& x.version is None && x.format is None && x.size is None && x.repository is None
    &&& x.doi == l.doi
    &&& x.url == url
    &&& opt_edtf_from(x.accessed, l.accessed)
    &&& x.language == l.language
    &&& x.field_languages@.len() == 0
    &&& x.note == l.note
    &&& x.keywords is None
}

/// Whether `r` is the reference a CSL-JSON reference converts to, given the
/// parsed form of its URL.
pub open spec fn converted(l: CslReference, url: Option<String>, r: InputReference) -> bool {
    match csl_class(l.ref_type@) {
        CslClass::Monograph => r is Monograph && monograph_from(
            *r->Monograph_0,
            l,
            url,
            monograph_kind(l.ref_type@),
            monograph_note(l),
        ),
        CslClass::Chapter => r is CollectionComponent && chapter_from(*r->CollectionComponent_0, l, url),
        CslClass::Article => r is SerialComponent && article_from(*r->SerialComponent_0, l, url),
        CslClass::LegalCase => r is LegalCase && legal_case_from(*r->LegalCase_0, l, url),
        CslClass::Statute => r is Statute && statute_from(*r->Statute_0, l, url),
        CslClass::Treaty => r is Treaty && treaty_from(*r->Treaty_0, l, url),
        CslClass::Standard => r is Standard && standard_from(*r->Standard_0, l, url),
        CslClass::Patent => r is Patent && patent_from(*r->Patent_0, l, url),
        CslClass::Dataset => r is Dataset && dataset_from(*r->Dataset_0, l, url),
        CslClass::Document => r is Monograph && monograph_from(
            *r->Monograph_0,
            l,
            url,
            MonographType::Document,
            opt_view(l.note),
        ),
    }
}

/// Names the text of the URL that `url::Url::parse` makes of a string (its
/// serialisation, normalised), `None` where it finds no absolute URL.
pub uninterp spec fn parsed_url(s: Seq<char>) -> Option<Seq<char>>;

/// Parses an absolute URL with `url::Url::parse`, giving its serialisation.
/// The contract claims only that the result is a function of the input
/// (named `parsed_url`); what the URL grammar accepts and how it normalises
/// is left to the `url` crate.
#[verifier::external_body]
fn parse_url(s: &str) -> (r: Option<String>)
    ensures
        opt_view(r) == parsed_url(s@),
{
    match url::Url::parse(s) {
        Ok(u) => Some(String::from(u.as_str())),
        Err(_) => None,
    }
}

/// The parsed text of an optional URL.
pub open spec fn url_text(u: Option<String>) -> Option<Seq<char>> {
    match u {
        Some(x) => parsed_url(x@),
        None => None,
    }
}

fn classify(t: &str) -> (r: CslClass)
    ensures
        r == csl_class(t@),
{
    if str_eq(t, "book") || str_eq(t, "report") || str_eq(t, "thesis") || str_eq(t, "webpage") || str_eq(t, "post")
        || str_eq(t, "post-weblog") || str_eq(t, "software") || str_eq(t, "interview") || str_eq(
        t,
        "personal_communication",
    ) || str_eq(t, "personal-communication") {
        CslClass::Monograph
    } else if str_eq(t, "chapter") || str_eq(t, "paper-conference") || str_eq(t, "entry-dictionary") {
        CslClass::Chapter
    } else if str_eq(t, "article-journal") || str_eq(t, "article") || str_eq(t, "article-magazine") || str_eq(
        t,
        "article-newspaper",
    ) || str_eq(t, "broadcast") || str_eq(t, "motion_picture") || str_eq(t, "entry-encyclopedia") {
        CslClass::Article
    } else if str_eq(t, "legal-case") || str_eq(t, "legal_case") {
        CslClass::LegalCase
    } else if str_eq(t, "statute") || str_eq(t, "legislation") {
        CslClass::Statute
    } else if str_eq(t, "treaty") {
        CslClass::Treaty
    } else if str_eq(t, "standard") {
        CslClass::Standard
    } else if str_eq(t, "patent") {
        CslClass::Patent
    } else if str_eq(t, "dataset") {
        CslClass::Dataset
    } else {
        CslClass::Document
    }
}

fn monograph_kind_of(t: &str) -> (r: MonographType)
    ensures
        r == monograph_kind(t@),
{
    if str_eq(t, "report") {
        MonographType::Report
    } else if str_eq(t, "thesis") {
        MonographType::Thesis
    } else if str_eq(t, "webpage") {
        MonographType::Webpage
    } else if contains_str(t, "post") {
        MonographType::Post
    } else if str_eq(t, "personal_communication") || str_eq(t, "personal-communication") {
        MonographType::PersonalCommunication
    } else {
        MonographType::Book
    }
}

fn monograph_note_of(l: &CslReference) -> (r: Option<String>)
    ensures
        opt_view(r) == monograph_note(*l),
{
    let t = l.ref_type.as_str();
    let personal = str_eq(t, "personal_communication") || str_eq(t, "personal-communication");
    if personal && l.note.is_none() {
        Some(to_owned_string("personal communication"))
    } else if str_eq(t, "interview") && l.note.is_none() {
        match &l.interviewer {
            Some(v) => format_interviewer_note(v),
            None => None,
        }
    } else {
        l.note.clone()
    }
}

/// The text of a string-or-number.
pub fn sn_string(v: StringOrNumber) -> (r: String)
    ensures
        r@ == sn_text(v),
{
    match v {
        StringOrNumber::String(s) => s,
        StringOrNumber::Number(n) => {
            let mut s = String::new();
            push_signed(&mut s, n);
            s
        },
    }
}

fn opt_sn_string(v: Option<StringOrNumber>) -> (r: Option<String>)
    ensures
        opt_view(r) == opt_sn_text(v),
{
    match v {
        Some(x) => Some(sn_string(x)),
        None => None,
    }
}

fn title_of(t: Option<String>) -> (r: Title)
    ensures
        title_from(r, t),
{
    match t {
        Some(x) => Title::Single(x),
        None => Title::Single(String::new()),
    }
}

fn issued_of(d: Option<CslDate>) -> (r: EdtfString)
    ensures
        issued_from(r, d),
{
    match d {
        Some(x) => edtf_from_date(x),
        None => EdtfString(String::new()),
    }
}

fn publisher_of(name: Option<String>, place: Option<String>) -> (r: Option<Contributor>)
    ensures
        publisher_from(r, name, place),
{
    match name {
        Some(n) => Some(
            Contributor::SimpleName(SimpleName { name: MultilingualString::Simple(n), location: place }),
        ),
        None => None,
    }
}

fn monograph_of(l: CslReference, url: Option<String>, kind: MonographType, note: Option<String>) -> (r: Monograph)
    ensures
        monograph_from(r, l, url, kind, opt_view(note)),
{
    let ghost l0 = l;
    let CslReference {
        id,
        ref_type: _,
        author,
        editor,
        translator,
        interviewer: _,
        title,
        container_title: _,
        issued,
        accessed,
        url: _,
        note: _,
        doi,
        isbn,
        issn: _,
        edition,
        publisher,
        publisher_place,
        number,
        collection_number,
        volume: _,
        issue: _,
        page: _,
        genre,
        medium,
        language,
        authority: _,
        section: _,
    } = l;
    Monograph {
        id: Some(id),
        kind,
        title: title_of(title),
        author: opt_contributor(author),
        editor: opt_contributor(editor),
        translator: opt_contributor(translator),
        issued: issued_of(issued),
        publisher: publisher_of(publisher, publisher_place),
        url,
        accessed: opt_edtf(accessed),
        language,
        field_languages: Vec::new(),
        note,
        isbn,
        doi,
        edition: opt_sn_string(edition),
        report_number: number,
        collection_number: opt_sn_string(collection_number),
        genre,
        medium,
        keywords: None,
        original_date: None,
        original_title: None,
    }
}

fn chapter_of(l: CslReference, url: Option<String>) -> (r: CollectionComponent)
    ensures
        chapter_from(r, l, url),
{
    let kind = if str_eq(l.ref_type.as_str(), "paper-conference") {
        MonographComponentType::Document
    } else {
        MonographComponentType::Chapter
    };
    let CslReference {
        id,
        ref_type: _,
        author,
        editor,
        translator,
        interviewer: _,
        title,
        container_title,
        issued,
        accessed,
        url: _,
        note,
        doi,
        isbn: _,
        issn: _,
        edition: _,
        publisher,
        publisher_place,
        number: _,
        collection_number,
        volume,
        issue: _,
        page,
        genre,
        medium,
        language,
        authority: _,
        section: _,
    } = l;
    let collection_number = match collection_number {
        Some(c) => Some(sn_string(c)),
        None => opt_sn_string(volume),
    };
    let parent = Collection {
        id: None,
        kind: CollectionType::EditedBook,
        title: Some(title_of(container_title)),
        editor: opt_contributor(editor),
        translator: None,
        issued: EdtfString(String::new()),
        publisher: publisher_of(publisher, publisher_place),
        collection_number,
        url: None,
        accessed: None,
        language: None,
        field_languages: Vec::new(),
        note: None,
        isbn: None,
        keywords: None,
    };
    CollectionComponent {
        id: Some(id),
        kind,
        title: Some(title_of(title)),
        author: opt_contributor(author),
        translator: opt_contributor(translator),
        issued: issued_of(issued),
        parent: Parent::Embedded(parent),
        pages: match page {
            Some(x) => Some(NumOrStr::Str(x)),
            None => None,
        },
        url,
        accessed: opt_edtf(accessed),
        language,
        field_languages: Vec::new(),
        note,
        doi,
        genre,
        medium,
        keywords: None,
    }
}

fn serial_kind_of(t: &str) -> (r: SerialType)
    ensures
        r == serial_kind(t@),
{
    if str_eq(t, "article-magazine") {
        SerialType::Magazine
    } else if str_eq(t, "article-newspaper") {
        SerialType::Newspaper
    } else if str_eq(t, "broadcast") || str_eq(t, "motion_picture") {
        SerialType::BroadcastProgram
    } else {
        SerialType::AcademicJournal
    }
}

fn num_or_str_of(v: StringOrNumber) -> (r: NumOrStr)
    ensures
        r == num_or_str(v),
{
    match v {
        StringOrNumber::String(s) => NumOrStr::Str(s),
        StringOrNumber::Number(n) => NumOrStr::Number(n),
    }
}

fn article_of(l: CslReference, url: Option<String>) -> (r: SerialComponent)
    ensures
        article_from(r, l, url),
{
    let t = l.ref_type.as_str();
    let serial = serial_kind_of(t);
    let broadcast = str_eq(t, "broadcast") || str_eq(t, "motion_picture");
    let encyclopedia = str_eq(t, "entry-encyclopedia");
    let CslReference {
        id,
        ref_type: _,
        author,
        editor: _,
        translator,
        interviewer: _,
        title,
        container_title,
        issued,
        accessed,
        url: _,
        note,
        doi,
        isbn: _,
        issn,
        edition: _,
        publisher,
        publisher_place,
        number,
        collection_number: _,
        volume,
        issue,
        page,
        genre,
        medium,
        language,
        authority: _,
        section: _,
    } = l;
    let genre = if encyclopedia && genre.is_none() {
        Some(to_owned_string("entry-encyclopedia"))
    } else {
        genre
    };
    let issue = match issue {
        Some(v) => Some(num_or_str_of(v)),
        None => if broadcast {
            match number {
                Some(n) => Some(NumOrStr::Str(n)),
                None => None,
            }
        } else {
            None
        },
    };
    SerialComponent {
        id: Some(id),
        kind: SerialComponentType::Article,
        title: Some(title_of(title)),
        author: opt_contributor(author),
        translator: opt_contributor(translator),
        issued: issued_of(issued),
        parent: Parent::Embedded(
            Serial {
                kind: serial,
                title: title_of(container_title),
                editor: None,
                publisher: publisher_of(publisher, publisher_place),
                issn,
            },
        ),
        url,
        accessed: opt_edtf(accessed),
        language,
        field_languages: Vec::new(),
        note,
        doi,
        pages: page,
        volume: match volume {
            Some(v) => Some(num_or_str_of(v)),
            None => None,
        },
        issue,
        genre,
        medium,
        keywords: None,
    }
}

fn legal_case_of(l: CslReference, url: Option<String>) -> (r: LegalCase)
    ensures
        legal_case_from(r, l, url),
{
    LegalCase {
        id: Some(l.id),
        title: title_of(l.title),
        authority: string_or_empty(l.authority),
        volume: opt_sn_string(l.volume),
        reporter: l.container_title,
        page: l.page,
        issued: issued_of(l.issued),
        url,
        accessed: opt_edtf(l.accessed),
        language: l.language,
        field_languages: Vec::new(),
        note: l.note,
        doi: l.doi,
        keywords: None,
    }
}

fn statute_of(l: CslReference, url: Option<String>) -> (r: Statute)
    ensures
        statute_from(r, l, url),
{
    Statute {
        id: Some(l.id),
        title: title_of(l.title),
        authority: l.authority,
        volume: opt_sn_string(l.volume),
        code: l.container_title,
        section: l.section,
        issued: issued_of(l.issued),
        url,
        accessed: opt_edtf(l.accessed),
        language: l.language,
        field_languages: Vec::new(),
        note: l.note,
        keywords: None,
    }
}

fn treaty_of(l: CslReference, url: Option<String>) -> (r: Treaty)
    ensures
        treaty_from(r, l, url),
{
    Treaty {
        id: Some(l.id),
        title: title_of(l.title),
        author: opt_contributor(l.author),
        volume: opt_sn_string(l.volume),
        reporter: l.container_title,
        page: l.page,
        issued: issued_of(l.issued),
        url,
        accessed: opt_edtf(l.accessed),
        language: l.language,
        field_languages: Vec::new(),
        note: l.note,
        keywords: None,
    }
}

fn standard_of(l: CslReference, url: Option<String>) -> (r: Standard)
    ensures
        standard_from(r, l, url),
{
    Standard {
        id: Some(l.id),
        title: title_of(l.title),
        authority: l.authority,
        standard_number: string_or_empty(l.number),
        issued: issued_of(l.issued),
        status: None,
        publisher: publisher_of(l.publisher, l.publisher_place),
        url,
        accessed: opt_edtf(l.accessed),
        language: l.language,
        field_languages: Vec::new(),
        note: l.note,
        keywords: None,
    }
}

fn patent_of(l: CslReference, url: Option<String>) -> (r: Patent)
    ensures
        patent_from(r, l, url),
{
    Patent {
        id: Some(l.id),
        title: title_of(l.title),
        author: opt_contributor(l.author),
        assignee: None,
        patent_number: string_or_empty(l.number),
        application_number: None,
        filing_date: None,
        issued: issued_of(l.issued),
        jurisdiction: None,
        authority: l.authority,
        url,
        accessed: opt_edtf(l.accessed),
        language: l.language,
        field_languages: Vec::new(),
        note: l.note,
        keywords: None,
    }
}

fn dataset_of(l: CslReference, url: Option<String>) -> (r: Dataset)
    ensures
        dataset_from(r, l, url),
{
    Dataset {
        id: Some(l.id),
        title: title_of(l.title),
        author: opt_contributor(l.author),
        issued: issued_of(l.issued),
        publisher: publisher_of(l.publisher, l.publisher_place),
        version: None,
        format: None,
        size: None,
        repository: None,
        doi: l.doi,
        url,
        accessed: opt_edtf(l.accessed),
        language: l.language,
        field_languages: Vec::new(),
        note: l.note,
        keywords: None,
    }
}

impl InputReference {
    /// The reference a CSL-JSON reference converts to, given the parsed form
    /// of its URL (as `converted` says): its CSL type picks the class.
    pub fn from_csl_with_url(legacy: CslReference, url: Option<String>) -> (r: InputReference)
        ensures
            converted(legacy, url, r),
            csl_type_kept(legacy) ==> ref_type_of(r) == legacy.ref_type@,
    {
        let ghost l = legacy;
        let r = Self::convert_with_url(legacy, url);
        proof {
            if csl_type_kept(l) {
                law_csl_types_kept(l, url, r);
            }
        }
        r
    }

    fn convert_with_url(legacy: CslReference, url: Option<String>) -> (r: InputReference)
        ensures
            converted(legacy, url, r),
    {
        let class = classify(legacy.ref_type.as_str());
        match class {
            CslClass::Monograph => {
                let kind = monograph_kind_of(legacy.ref_type.as_str());
                let note = monograph_note_of(&legacy);
                InputReference::Monograph(Box::new(monograph_of(legacy, url, kind, note)))
            },
            CslClass::Chapter => InputReference::CollectionComponent(Box::new(chapter_of(legacy, url))),
            CslClass::Article => InputReference::SerialComponent(Box::new(article_of(legacy, url))),
            CslClass::LegalCase => InputReference::LegalCase(Box::new(legal_case_of(legacy, url))),
            CslClass::Statute => InputReference::Statute(Box::new(statute_of(legacy, url))),
            CslClass::Treaty => InputReference::Treaty(Box::new(treaty_of(legacy, url))),
            CslClass::Standard => InputReference::Standard(Box::new(standard_of(legacy, url))),
            CslClass::Patent => InputReference::Patent(Box::new(patent_of(legacy, url))),
            CslClass::Dataset => InputReference::Dataset(Box::new(dataset_of(legacy, url))),
            CslClass::Document => {
                let note = legacy.note.clone();
                InputReference::Monograph(Box::new(monograph_of(legacy, url, MonographType::Document, note)))
            },
        }
    }

    /// The reference a CSL-JSON reference converts to, its URL parsed by
    /// the `url` crate (dropped when it is no absolute URL).
    pub fn from_csl(legacy: CslReference) -> (r: InputReference)
        ensures
            exists|u: Option<String>| opt_view(u) == url_text(legacy.url) && converted(legacy, u, r),
            csl_type_kept(legacy) ==> ref_type_of(r) == legacy.ref_type@,
    {
        let url = match &legacy.url {
            Some(u) => parse_url(u.as_str()),
            None => None,
        };
        let r = Self::from_csl_with_url(legacy, url);
        assert(opt_view(url) == url_text(legacy.url));
        r
    }
}

} // verus!
