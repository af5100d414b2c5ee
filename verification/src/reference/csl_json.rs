//! The CSL-JSON reference model that legacy bibliographies come in.

use vstd::prelude::*;
use crate::text::{decimal, push_char, push_decimal, push_str_mut};

verus! {

/// A name in CSL-JSON.
#[derive(Debug, Default)]
pub struct CslName {
    pub family: Option<String>,
    pub given: Option<String>,
    pub literal: Option<String>,
    pub suffix: Option<String>,
    pub dropping_particle: Option<String>,
    pub non_dropping_particle: Option<String>,
}

/// A value that is a string or a number in CSL-JSON.
#[derive(Debug)]
pub enum StringOrNumber {
    String(String),
    Number(i64),
}

/// A date in CSL-JSON: date parts (year, month, day; the first entry is the
/// date, a second one the end of a range) or a literal.
#[derive(Debug, Default)]
pub struct CslDate {
    pub date_parts: Option<Vec<Vec<i32>>>,
    pub literal: Option<String>,
}

/// A reference in CSL-JSON.
#[derive(Debug, Default)]
pub struct CslReference {
    pub id: String,
    pub ref_type: String,
    pub author: Option<Vec<CslName>>,
    pub editor: Option<Vec<CslName>>,
    pub translator: Option<Vec<CslName>>,
    pub interviewer: Option<Vec<CslName>>,
    pub title: Option<String>,
    pub container_title: Option<String>,
    pub issued: Option<CslDate>,
    pub accessed: Option<CslDate>,
    pub url: Option<String>,
    pub note: Option<String>,
    pub doi: Option<String>,
    pub isbn: Option<String>,
    pub issn: Option<String>,
    pub edition: Option<StringOrNumber>,
    pub publisher: Option<String>,
    pub publisher_place: Option<String>,
    pub number: Option<String>,
    pub collection_number: Option<StringOrNumber>,
    pub volume: Option<StringOrNumber>,
    pub issue: Option<StringOrNumber>,
    pub page: Option<String>,
    pub genre: Option<String>,
    pub medium: Option<String>,
    pub language: Option<String>,
    pub authority: Option<String>,
    pub section: Option<String>,
}

/// The decimal text of an integer, with a minus sign when negative.
pub open spec fn signed_decimal(n: int) -> Seq<char> {
    if n < 0 {
        seq!['-'] + decimal((-n) as nat)
    } else {
        decimal(n as nat)
    }
}

/// `n` zeros.
pub open spec fn zeros(n: int) -> Seq<char>
    decreases n,
{
    if n <= 0 {
        Seq::empty()
    } else {
        zeros(n - 1).push('0')
    }
}

/// The decimal text of `n` zero-padded to `width` characters, the sign
/// counted in the width (as `format!("{:0width$}", n)`).
pub open spec fn padded(n: int, width: int) -> Seq<char> {
    let digits = decimal((if n < 0 { -n } else { n }) as nat);
    let sign: Seq<char> = if n < 0 { seq!['-'] } else { Seq::empty() };
    sign + zeros(width - sign.len() - digits.len()) + digits
}

/// The text of a string-or-number.
pub open spec fn sn_text(v: StringOrNumber) -> Seq<char> {
    match v {
        StringOrNumber::String(s) => s@,
        StringOrNumber::Number(n) => signed_decimal(n as int),
    }
}

/// The text of an optional string-or-number.
pub open spec fn opt_sn_text(v: Option<StringOrNumber>) -> Option<Seq<char>> {
    match v {
        Some(x) => Some(sn_text(x)),
        None => None,
    }
}

/// The EDTF text of a CSL-JSON date: the literal when there is one, else
/// the first date as "YYYY", "YYYY-MM" or "YYYY-MM-DD", else empty.
pub open spec fn date_text(d: CslDate) -> Seq<char> {
    if d.literal is Some {
        d.literal.unwrap()@
    } else if d.date_parts is Some && d.date_parts.unwrap()@.len() > 0 {
        let p = d.date_parts.unwrap()@[0]@;
        (if p.len() > 0 { padded(p[0] as int, 4) } else { Seq::empty() })
            + (if p.len() > 1 { seq!['-'] + padded(p[1] as int, 2) } else { Seq::empty() })
            + (if p.len() > 2 { seq!['-'] + padded(p[2] as int, 2) } else { Seq::empty() })
    } else {
        Seq::empty()
    }
}

/// Appends the decimal text of `n` (with a minus sign when negative).
pub fn push_signed(s: &mut String, n: i64)
    ensures
        final(s)@ == old(s)@ + signed_decimal(n as int),
{
    if n < 0 {
        push_char(s, '-');
        let m: u64 = if n == i64::MIN {
            9223372036854775808u64
        } else {
            (-n) as u64
        };
        push_decimal_u64(s, m);
        proof {
            assert(m == -(n as int));
        }
    } else {
        push_decimal_u64(s, n as u64);
    }
    proof {
        assert(final(s)@ =~= old(s)@ + signed_decimal(n as int));
    }
}

fn push_decimal_u64(s: &mut String, n: u64)
    ensures
        final(s)@ == old(s)@ + decimal(n as nat),
    decreases n,
{
    if n >= 10 {
        push_decimal_u64(s, n / 10);
    }
    let d = (n % 10) as usize;
    let ghost before = s@;
    push_decimal(s, d);
    proof {
        assert(decimal(d as nat) == seq![crate::text::digit_char(d as nat)]);
        if n >= 10 {
            assert(old(s)@ + decimal(n as nat) =~= old(s)@ + decimal((n / 10) as nat) + seq![
                crate::text::digit_char((n % 10) as nat),
            ]);
        } else {
            assert(old(s)@ + decimal(n as nat) =~= old(s)@ + seq![crate::text::digit_char(n as nat)]);
        }
    }
}

proof fn lemma_decimal_len(n: nat)
    ensures
        decimal(n).len() >= 1,
        n < 10 ==> decimal(n).len() == 1,
        n >= 10 ==> decimal(n).len() >= 2,
        n >= 100 ==> decimal(n).len() >= 3,
        n >= 1000 ==> decimal(n).len() >= 4,
    decreases n,
{
    if n >= 10 {
        lemma_decimal_len(n / 10);
    }
}

/// Appends `n` zero-padded to `width` characters (the sign counted).
pub fn push_padded(s: &mut String, n: i32, width: usize)
    ensures
        final(s)@ == old(s)@ + padded(n as int, width as int),
{
    let neg = n < 0;
    let m: u64 = if neg {
        (-(n as i64)) as u64
    } else {
        n as u64
    };
    let mut digits = String::new();
    push_decimal_u64(&mut digits, m);
    let dl = digits.unicode_len();
    let sl: usize = if neg { 1 } else { 0 };
    if neg {
        push_char(s, '-');
    }
    let ghost mid = s@;
    let mut k: usize = 0;
    let fill: usize = if dl >= width {
        0
    } else if width - dl > sl {
        width - dl - sl
    } else {
        0
    };
    while k < fill
        invariant
            k <= fill,
            s@ == mid + zeros(k as int),
        decreases fill - k,
    {
        push_char(s, '0');
        k = k + 1;
    }
    push_str_mut(s, digits.as_str());
    proof {
        let sign: Seq<char> = if neg { seq!['-'] } else { Seq::empty() };
        assert(m == (if n < 0 { -(n as int) } else { n as int }));
        assert(zeros(fill as int) == zeros(width - sign.len() - digits@.len()));
        assert(final(s)@ =~= old(s)@ + padded(n as int, width as int));
    }
}

} // verus!
