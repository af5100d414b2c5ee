//! EDTF date strings.

use vstd::prelude::*;
use crate::text::{append_str, contains_char, decimal, has_char, push_decimal, to_owned_string};

verus! {

/// An EDTF string.
#[derive(Debug, PartialEq, Default)]
pub struct EdtfString(pub String);

impl EdtfString {
    /// A copy with the same contents.
    pub fn copy(&self) -> (r: Self)
        ensures
            r == *self,
    {
        EdtfString(self.0.clone())
    }

    /// Whether the date is uncertain (holds a `?` qualifier).
    pub fn is_uncertain(&self) -> (r: bool)
        ensures
            r == has_char(self.0@, '?'),
    {
        contains_char(self.0.as_str(), '?')
    }

    /// Whether the date is approximate (holds a `~` qualifier).
    pub fn is_approximate(&self) -> (r: bool)
        ensures
            r == has_char(self.0@, '~'),
    {
        contains_char(self.0.as_str(), '~')
    }
}

/// The name of month `m` (1 for the first) in `months`; empty when there is
/// no such month.
pub open spec fn month_name(m: u32, months: Seq<String>) -> Seq<char> {
    if m > 0 && m - 1 < months.len() {
        months[m - 1]@
    } else {
        Seq::empty()
    }
}

/// A month and a year as "month year"; empty when either is empty.
pub open spec fn year_month_text(month: Seq<char>, year: Seq<char>) -> Seq<char> {
    if month.len() == 0 || year.len() == 0 {
        Seq::empty()
    } else {
        month + seq![' '] + year
    }
}

/// A month and a day as "month day"; empty without a day or a month.
pub open spec fn month_day_text(month: Seq<char>, day: Option<u32>) -> Seq<char> {
    match day {
        Some(d) => if month.len() > 0 {
            month + seq![' '] + decimal(d as nat)
        } else {
            Seq::empty()
        },
        None => Seq::empty(),
    }
}

impl EdtfString {
    /// The name of month `month` in `months` (`month_name`).
    pub fn month_to_string(month: u32, months: &Vec<String>) -> (r: String)
        ensures
            r@ == month_name(month, months@),
    {
        if month > 0 {
            let index = month - 1;
            if (index as usize) < months.len() {
                months[index as usize].clone()
            } else {
                String::new()
            }
        } else {
            String::new()
        }
    }

    /// The month and year texts of a date put together as "month year"
    /// (`year_month_text`).
    pub fn compose_year_month(month: &str, year: &str) -> (r: String)
        ensures
            r@ == year_month_text(month@, year@),
    {
        if month.unicode_len() == 0 || year.unicode_len() == 0 {
            String::new()
        } else {
            let s = append_str(to_owned_string(month), " ");
            proof {
                reveal_strlit(" ");
            }
            append_str(s, year)
        }
    }

    /// The month text and day of a date put together as "month day"
    /// (`month_day_text`).
    pub fn compose_month_day(month: &str, day: Option<u32>) -> (r: String)
        ensures
            r@ == month_day_text(month@, day),
    {
        match day {
            Some(d) => {
                if month.unicode_len() > 0 {
                    let mut s = append_str(to_owned_string(month), " ");
                    proof {
                        reveal_strlit(" ");
                    }
                    push_decimal(&mut s, d as usize);
                    s
                } else {
                    String::new()
                }
            },
            None => String::new(),
        }
    }
}

/// A copy of an optional EDTF string.
pub fn copy_opt_edtf(d: &Option<EdtfString>) -> (r: Option<EdtfString>)
    ensures
        r == *d,
{
    match d {
        None => None,
        Some(x) => Some(x.copy()),
    }
}

} // verus!
