//! Raw locale format: terms keyed by name, as written in locale YAML files.

use vstd::prelude::*;

verus! {

/// A term value: a plain string, form-keyed values, or singular/plural forms.
#[derive(Debug)]
pub enum RawTermValue {
    Simple(String),
    /// Form-keyed values, each key at most once.
    Forms(Vec<(String, RawTermValue)>),
    SingularPlural { singular: String, plural: String },
}

impl Default for RawTermValue {
    fn default() -> (r: Self)
        ensures
            r matches RawTermValue::Simple(s) && s@.len() == 0,
    {
        RawTermValue::Simple(String::new())
    }
}

impl RawTermValue {
    /// The simple string value, if this is one.
    pub fn as_string(&self) -> (r: Option<&str>)
        ensures
            match self {
                RawTermValue::Simple(s) => r is Some && r.unwrap()@ == s@,
                _ => r is None,
            },
    {
        match self {
            RawTermValue::Simple(s) => Some(s.as_str()),
            _ => None,
        }
    }
}

/// Raw month names.
#[derive(Debug, Clone, Default)]
pub struct RawMonthNames {
    pub long: Vec<String>,
    pub short: Vec<String>,
}

/// Raw date terms.
#[derive(Debug, Clone, Default)]
pub struct RawDateTerms {
    pub months: RawMonthNames,
    pub seasons: Vec<String>,
    pub uncertainty_term: Option<String>,
    pub open_ended_term: Option<String>,
    pub am: Option<String>,
    pub pm: Option<String>,
    pub timezone_utc: Option<String>,
}

/// Raw role term with form-keyed values.
#[derive(Debug, Default)]
pub struct RawRoleTerm {
    pub long: Option<RawTermValue>,
    pub short: Option<RawTermValue>,
    pub verb: Option<RawTermValue>,
    pub verb_short: Option<RawTermValue>,
}

/// Raw locale: identifier, date terms, role terms and general terms by name.
#[derive(Debug, Default)]
pub struct RawLocale {
    pub locale: String,
    pub dates: RawDateTerms,
    /// Role terms by role name, each name at most once.
    pub roles: Vec<(String, RawRoleTerm)>,
    /// General terms by term name, each name at most once.
    pub terms: Vec<(String, RawTermValue)>,
}

} // verus!
