//! Dates and instants, held as plain values: a timestamp parsed from the
//! remote API's date strings, and a calendar date rendered for it.

use vstd::prelude::*;
use crate::text::{dec_of, u64_to_string};

verus! {

/// The Unix timestamp a date-and-time string denotes, or nothing when the
/// string is not a well-formed instant. Parsing is a function of the
/// string alone.
pub uninterp spec fn utc_instant_of(s: Seq<char>) -> Option<i64>;

/// Relies on chrono's FromStr for DateTime<Utc> and on
/// DateTime::timestamp: parses a date-and-time string and takes its Unix
/// timestamp.
#[verifier::external_body]
pub(crate) fn parse_utc_instant(s: &str) -> (r: Option<i64>)
    ensures
        r == utc_instant_of(s@),
{
    match s.parse::<chrono::DateTime<chrono::Utc>>() {
        Ok(dt) => Some(dt.timestamp()),
        Err(_) => None,
    }
}

/// A calendar day, as the share expiration date is sent: year, month and
/// day as plain numbers.
#[derive(Debug, Clone, Copy, PartialEq, Eq, Structural)]
pub struct SimpleDate {
    /// Four-digit year.
    pub year: u16,
    /// Month, 1 to 12.
    pub month: u8,
    /// Day of month, 1 to 31.
    pub day: u8,
}

impl SimpleDate {
    /// A well-formed calendar day: the year fits four digits and month and
    /// day are in range.
    pub open spec fn wf(&self) -> bool {
        &&& self.year <= 9999
        &&& 1 <= self.month <= 12
        &&& 1 <= self.day <= 31
    }

    /// Create a calendar day.
    pub fn new(year: u16, month: u8, day: u8) -> (r: SimpleDate)
        requires
            year <= 9999,
            1 <= month <= 12,
            1 <= day <= 31,
        ensures
            r == (SimpleDate { year, month, day }),
            r.wf(),
    {
        SimpleDate { year, month, day }
    }
}

/// A number in decimal, left-padded with zeros to two digits.
pub open spec fn pad2_of(n: int) -> Seq<char> {
    if n < 10 {
        seq!['0'] + dec_of(n)
    } else {
        dec_of(n)
    }
}

/// A number in decimal, left-padded with zeros to four digits.
pub open spec fn pad4_of(n: int) -> Seq<char> {
    if n < 10 {
        seq!['0', '0', '0'] + dec_of(n)
    } else if n < 100 {
        seq!['0', '0'] + dec_of(n)
    } else if n < 1000 {
        seq!['0'] + dec_of(n)
    } else {
        dec_of(n)
    }
}

/// A calendar day rendered as `YYYY-MM-DD`.
pub open spec fn date_str_of(d: SimpleDate) -> Seq<char> {
    pad4_of(d.year as int) + "-"@ + pad2_of(d.month as int) + "-"@ + pad2_of(d.day as int)
}

/// Render a calendar day as `YYYY-MM-DD`.
pub fn date_to_string(d: &SimpleDate) -> (r: String)
    ensures
        r@ == date_str_of(*d),
{
    let mut out = String::new();
    if d.year < 10 {
        out.append("000");
    } else if d.year < 100 {
        out.append("00");
    } else if d.year < 1000 {
        out.append("0");
    }
    out.append(u64_to_string(d.year as u64).as_str());
    out.append("-");
    if d.month < 10 {
        out.append("0");
    }
    out.append(u64_to_string(d.month as u64).as_str());
    out.append("-");
    if d.day < 10 {
        out.append("0");
    }
    out.append(u64_to_string(d.day as u64).as_str());
    proof {
        reveal_strlit("0");
        reveal_strlit("00");
        reveal_strlit("000");
        assert(out@ =~= date_str_of(*d));
    }
    out
}

} // verus!
