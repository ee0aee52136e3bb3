//! Calendar timestamps as plain fields, their `YYYY-MM-DD HH:MM:SS`
//! rendering, and the two trusted bridges to the clock and to timestamp
//! strings in event payloads.

use vstd::prelude::*;
use crate::text::{dec_rep, u64_to_string};
use chrono::{Datelike, Timelike};

verus! {

/// A point in civil time, Coordinated Universal Time, second precision.
#[derive(Clone, Copy, Debug, PartialEq, Eq, Structural)]
pub struct DateTime {
    pub year: i32,
    pub month: u8,
    pub day: u8,
    pub hour: u8,
    pub minute: u8,
    pub second: u8,
}

impl DateTime {
    /// Every calendar component lies in its range.
    pub open spec fn wf(&self) -> bool {
        &&& 1 <= self.month <= 12
        &&& 1 <= self.day <= 31
        &&& self.hour < 24
        &&& self.minute < 60
        &&& self.second < 60
    }
}

/// `n` in decimal, left-padded with zeros to two digits.
pub open spec fn zero_pad2(n: nat) -> Seq<char> {
    if n < 10 {
        "0"@ + dec_rep(n)
    } else {
        dec_rep(n)
    }
}

/// `n` in decimal, left-padded with zeros to four digits.
pub open spec fn zero_pad4(n: nat) -> Seq<char> {
    if n < 10 {
        "000"@ + dec_rep(n)
    } else if n < 100 {
        "00"@ + dec_rep(n)
    } else if n < 1000 {
        "0"@ + dec_rep(n)
    } else {
        dec_rep(n)
    }
}

/// The year as rendered in a timestamp: at least four digits, a leading
/// minus sign for years before year zero.
pub open spec fn spec_year(y: int) -> Seq<char> {
    if y < 0 {
        "-"@ + zero_pad4((-y) as nat)
    } else {
        zero_pad4(y as nat)
    }
}

/// The `YYYY-MM-DD HH:MM:SS` rendering of `dt`.
pub open spec fn spec_format_datetime(dt: DateTime) -> Seq<char> {
    spec_year(dt.year as int) + "-"@ + zero_pad2(dt.month as nat) + "-"@ + zero_pad2(
        dt.day as nat,
    ) + " "@ + zero_pad2(dt.hour as nat) + ":"@ + zero_pad2(dt.minute as nat) + ":"@ + zero_pad2(
        dt.second as nat,
    )
}

/// Renders `n` zero-padded to two digits.
fn pad2(n: u64) -> (r: String)
    ensures
        r@ == zero_pad2(n as nat),
{
    if n < 10 {
        let mut s = String::from_str("0");
        s.append(u64_to_string(n).as_str());
        s
    } else {
        u64_to_string(n)
    }
}

/// Renders `n` zero-padded to four digits.
fn pad4(n: u64) -> (r: String)
    ensures
        r@ == zero_pad4(n as nat),
{
    if n < 10 {
        let mut s = String::from_str("000");
        s.append(u64_to_string(n).as_str());
        s
    } else if n < 100 {
        let mut s = String::from_str("00");
        s.append(u64_to_string(n).as_str());
        s
    } else if n < 1000 {
        let mut s = String::from_str("0");
        s.append(u64_to_string(n).as_str());
        s
    } else {
        u64_to_string(n)
    }
}

/// Renders `dt` as `YYYY-MM-DD HH:MM:SS`.
pub fn format_datetime(dt: &DateTime) -> (r: String)
    ensures
        r@ == spec_format_datetime(*dt),
{
    let magnitude: u64 = if dt.year < 0 {
        (-(dt.year as i64)) as u64
    } else {
        dt.year as u64
    };
    let mut s = if dt.year < 0 {
        let mut y = String::from_str("-");
        y.append(pad4(magnitude).as_str());
        y
    } else {
        pad4(magnitude)
    };
    s.append("-");
    s.append(pad2(dt.month as u64).as_str());
    s.append("-");
    s.append(pad2(dt.day as u64).as_str());
    s.append(" ");
    s.append(pad2(dt.hour as u64).as_str());
    s.append(":");
    s.append(pad2(dt.minute as u64).as_str());
    s.append(":");
    s.append(pad2(dt.second as u64).as_str());
    s
}

/// What chrono's RFC 3339 parser yields for a timestamp string, normalized
/// to Coordinated Universal Time; `None` where the string is malformed.
pub uninterp spec fn rfc3339_datetime(s: Seq<char>) -> Option<DateTime>;

/// Relies on chrono's `DateTime::parse_from_rfc3339` and `with_timezone`:
/// the result is a function of the characters alone, and the calendar
/// accessors of a parsed value return components in their documented ranges.
#[verifier::external_body]
pub(crate) fn parse_rfc3339(s: &str) -> (r: Option<DateTime>)
    ensures
        r == rfc3339_datetime(s@),
        r matches Some(d) ==> d.wf(),
{
    match chrono::DateTime::parse_from_rfc3339(s) {
        Ok(t) => {
            let u = t.with_timezone(&chrono::Utc);
            Some(DateTime {
                year: u.year(),
                month: u.month() as u8,
                day: u.day() as u8,
                hour: u.hour() as u8,
                minute: u.minute() as u8,
                second: u.second() as u8,
            })
        },
        Err(_) => None,
    }
}

/// Relies on chrono's `Utc::now`: the calendar accessors of the current time
/// return components in their documented ranges.
#[verifier::external_body]
pub(crate) fn now_datetime() -> (r: DateTime)
    ensures
        r.wf(),
{
    let now = chrono::Utc::now();
    DateTime {
        year: now.year(),
        month: now.month() as u8,
        day: now.day() as u8,
        hour: now.hour() as u8,
        minute: now.minute() as u8,
        second: now.second() as u8,
    }
}

} // verus!
