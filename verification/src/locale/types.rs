//! Locale term types and the built-in English (US) terms.

use vstd::prelude::*;

verus! {

/// Form for term lookup.
#[derive(Debug, Clone, Copy, PartialEq, Eq, Structural)]
pub enum TermForm {
    Long,
    Short,
    Verb,
    VerbShort,
    Symbol,
}

/// General terms used in citations and bibliographies.
#[derive(Debug, Clone, Copy, PartialEq, Eq, Structural, Hash)]
pub enum GeneralTerm {
    In,
    Accessed,
    Retrieved,
    At,
    From,
    By,
    NoDate,
    Anonymous,
    Circa,
    AvailableAt,
    Ibid,
    And,
    EtAl,
    AndOthers,
    Forthcoming,
    Online,
    ReviewOf,
    OriginalWorkPublished,
    Patent,
    Volume,
    Issue,
    Page,
    Chapter,
    Edition,
    Section,
}

impl Default for GeneralTerm {
    fn default() -> (r: Self)
        ensures
            r == GeneralTerm::In,
    {
        GeneralTerm::In
    }
}

/// A simple term with long and short forms.
#[derive(Debug, Clone, PartialEq, Default)]
pub struct SimpleTerm {
    pub long: String,
    pub short: String,
}

/// General terms: the common ones as fields, the rest by term.
#[derive(Debug, Clone, Default)]
pub struct Terms {
    pub and: Option<String>,
    pub and_symbol: Option<String>,
    pub and_others: Option<String>,
    pub anonymous: SimpleTerm,
    pub at: Option<String>,
    pub accessed: Option<String>,
    pub available_at: Option<String>,
    pub by: Option<String>,
    pub circa: SimpleTerm,
    pub et_al: Option<String>,
    pub from: Option<String>,
    pub ibid: Option<String>,
    pub in_: Option<String>,
    pub no_date: Option<String>,
    pub retrieved: Option<String>,
    /// All other general terms, each term at most once.
    pub general: Vec<(GeneralTerm, SimpleTerm)>,
}

/// Terms for contributor roles.
#[derive(Debug, Clone, Default)]
pub struct ContributorTerm {
    pub singular: SimpleTerm,
    pub plural: SimpleTerm,
    pub verb: SimpleTerm,
}

/// A term with singular and plural forms.
#[derive(Debug, Clone, Default)]
pub struct SingularPlural {
    pub singular: String,
    pub plural: String,
}

/// Terms for locators (page, chapter, etc.).
#[derive(Debug, Clone, Default)]
pub struct LocatorTerm {
    pub long: Option<SingularPlural>,
    pub short: Option<SingularPlural>,
    pub symbol: Option<SingularPlural>,
}

/// Month name lists.
#[derive(Debug, Clone, Default)]
pub struct MonthNames {
    pub long: Vec<String>,
    pub short: Vec<String>,
}

/// Date-related terms.
#[derive(Debug, Clone, Default)]
pub struct DateTerms {
    pub months: MonthNames,
    pub seasons: Vec<String>,
    pub uncertainty_term: Option<String>,
    pub open_ended_term: Option<String>,
    pub am: Option<String>,
    pub pm: Option<String>,
    pub timezone_utc: Option<String>,
}

/// Some owned copy of a string literal.
fn owned(s: &str) -> (r: String)
    ensures
        r@ == s@,
{
    String::from_str(s)
}

/// Views of a vector of strings.
pub open spec fn string_views(v: Seq<String>) -> Seq<Seq<char>> {
    v.map_values(|s: String| s@)
}

/// Whether `s` holds exactly the strings `expected`, in order.
pub open spec fn holds_strings(s: Seq<String>, expected: Seq<Seq<char>>) -> bool {
    s.len() == expected.len() && forall|i: int| 0 <= i < s.len() ==> #[trigger] s[i]@ == expected[i]
}

/// Builds a vector from string literals, in order.
fn owned_all(items: &[&str]) -> (r: Vec<String>)
    ensures
        r@.len() == items@.len(),
        forall|i: int| 0 <= i < items@.len() ==> #[trigger] r@[i]@ == items@[i]@,
{
    let mut out: Vec<String> = Vec::new();
    let mut i: usize = 0;
    while i < items.len()
        invariant
            i <= items@.len(),
            out@.len() == i,
            forall|k: int| 0 <= k < i ==> #[trigger] out@[k]@ == items@[k]@,
        decreases items@.len() - i,
    {
        out.push(owned(items[i]));
        i = i + 1;
    }
    out
}

/// English month names, long forms.
pub open spec fn en_long_months() -> Seq<Seq<char>> {
    seq![
        "January"@, "February"@, "March"@, "April"@, "May"@, "June"@, "July"@, "August"@,
        "September"@, "October"@, "November"@, "December"@,
    ]
}

/// English month names, short forms.
pub open spec fn en_short_months() -> Seq<Seq<char>> {
    seq![
        "Jan."@, "Feb."@, "Mar."@, "Apr."@, "May"@, "June"@, "July"@, "Aug."@, "Sept."@, "Oct."@,
        "Nov."@, "Dec."@,
    ]
}

impl MonthNames {
    /// Create English month names.
    pub fn en_us() -> (r: Self)
        ensures
            holds_strings(r.long@, en_long_months()),
            holds_strings(r.short@, en_short_months()),
    {
        let long = owned_all(
            &[
                "January",
                "February",
                "March",
                "April",
                "May",
                "June",
                "July",
                "August",
                "September",
                "October",
                "November",
                "December",
            ],
        );
        let short = owned_all(
            &[
                "Jan.",
                "Feb.",
                "Mar.",
                "Apr.",
                "May",
                "June",
                "July",
                "Aug.",
                "Sept.",
                "Oct.",
                "Nov.",
                "Dec.",
            ],
        );
        MonthNames { long, short }
    }
}

/// Whether `o` holds exactly the string `s`.
pub open spec fn is_some_str(o: Option<String>, s: Seq<char>) -> bool {
    o is Some && o.unwrap()@ == s
}

impl DateTerms {
    /// Create English (US) date terms.
    pub fn en_us() -> (r: Self)
        ensures
            holds_strings(r.months.long@, en_long_months()),
            holds_strings(r.months.short@, en_short_months()),
            holds_strings(r.seasons@, seq!["Spring"@, "Summer"@, "Autumn"@, "Winter"@]),
            is_some_str(r.uncertainty_term, "uncertain"@),
            is_some_str(r.open_ended_term, "present"@),
            is_some_str(r.am, "AM"@),
            is_some_str(r.pm, "PM"@),
            is_some_str(r.timezone_utc, "UTC"@),
    {
        DateTerms {
            months: MonthNames::en_us(),
            seasons: owned_all(&["Spring", "Summer", "Autumn", "Winter"]),
            uncertainty_term: Some(owned("uncertain")),
            open_ended_term: Some(owned("present")),
            am: Some(owned("AM")),
            pm: Some(owned("PM")),
            timezone_utc: Some(owned("UTC")),
        }
    }
}

impl Terms {
    /// Create English (US) terms.
    pub fn en_us() -> (r: Self)
        ensures
            is_some_str(r.and, "and"@),
            is_some_str(r.and_symbol, "&"@),
            is_some_str(r.and_others, "and others"@),
            r.anonymous.long@ == "anonymous"@,
            r.anonymous.short@ == "anon."@,
            is_some_str(r.at, "at"@),
            is_some_str(r.accessed, "accessed"@),
            is_some_str(r.available_at, "available at"@),
            is_some_str(r.by, "by"@),
            r.circa.long@ == "circa"@,
            r.circa.short@ == "c."@,
            is_some_str(r.et_al, "et al."@),
            is_some_str(r.from, "from"@),
            is_some_str(r.ibid, "ibid."@),
            is_some_str(r.in_, "in"@),
            is_some_str(r.no_date, "n.d."@),
            is_some_str(r.retrieved, "retrieved"@),
            r.general@.len() == 0,
    {
        Terms {
            and: Some(owned("and")),
            and_symbol: Some(owned("&")),
            and_others: Some(owned("and others")),
            anonymous: SimpleTerm { long: owned("anonymous"), short: owned("anon.") },
            at: Some(owned("at")),
            accessed: Some(owned("accessed")),
            available_at: Some(owned("available at")),
            by: Some(owned("by")),
            circa: SimpleTerm { long: owned("circa"), short: owned("c.") },
            et_al: Some(owned("et al.")),
            from: Some(owned("from")),
            ibid: Some(owned("ibid.")),
            in_: Some(owned("in")),
            no_date: Some(owned("n.d.")),
            retrieved: Some(owned("retrieved")),
            general: Vec::new(),
        }
    }
}

} // verus!
