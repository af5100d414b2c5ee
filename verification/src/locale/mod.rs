//! Locale terms: general terms, role terms, date terms and the raw YAML shape.

pub mod raw;
pub mod types;

pub use raw::{RawDateTerms, RawLocale, RawMonthNames, RawRoleTerm, RawTermValue};
pub use types::{
    ContributorTerm, DateTerms, GeneralTerm, LocatorTerm, MonthNames, SimpleTerm, SingularPlural,
    TermForm, Terms,
};
