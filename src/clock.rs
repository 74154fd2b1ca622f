use vstd::prelude::*;
use vstd::string::StringExecFns;
use chrono::Datelike;
use chrono::Timelike;
use crate::text::{padded, padded_decimal};

verus! {

/// A local wall-clock reading, down to the second.
#[derive(Clone, Copy, Debug, PartialEq, Eq)]
pub struct Timestamp {
    pub year: i32,
    pub month: u32,
    pub day: u32,
    pub hour: u32,
    pub minute: u32,
    pub second: u32,
}

impl Timestamp {
    /// The fields lie in their calendar and clock ranges.
    pub open spec fn wf(&self) -> bool {
        &&& 1 <= self.month <= 12
        &&& 1 <= self.day <= 31
        &&& self.hour <= 23
        &&& self.minute <= 59
        &&& self.second <= 59
    }
}

/// The year as a date shows it: four digits for years 0 to 9999, and
/// otherwise a sign followed by at least four digits.
pub open spec fn year_text(y: int) -> Seq<char> {
    if 0 <= y <= 9999 {
        padded(y as nat, 4)
    } else if y < 0 {
        seq!['-'] + padded((-y) as nat, 4)
    } else {
        seq!['+'] + padded(y as nat, 4)
    }
}

/// The date of `t` as `YYYY-MM-DD`.
pub open spec fn date_text(t: Timestamp) -> Seq<char> {
    year_text(t.year as int) + seq!['-'] + padded(t.month as nat, 2) + seq!['-'] + padded(
        t.day as nat,
        2,
    )
}

/// The time of day of `t` as `HH:MM:SS`.
pub open spec fn time_text(t: Timestamp) -> Seq<char> {
    padded(t.hour as nat, 2) + seq![':'] + padded(t.minute as nat, 2) + seq![':'] + padded(
        t.second as nat,
        2,
    )
}

/// Relies on chrono::Local::now for the current local time, read through
/// chrono's Datelike and Timelike getters, whose documented ranges are
/// month 1 to 12, day 1 to 31, hour 0 to 23, minute and second 0 to 59.
#[verifier::external_body]
pub(crate) fn local_now() -> (r: Timestamp)
    ensures
        r.wf(),
{
    let t = chrono::Local::now();
    Timestamp {
        year: t.year(),
        month: t.month(),
        day: t.day(),
        hour: t.hour(),
        minute: t.minute(),
        second: t.second(),
    }
}

/// The text of the year `y`, as a date shows it.
fn year_display(y: i32) -> (r: String)
    ensures
        r@ == year_text(y as int),
{
    if 0 <= y && y <= 9999 {
        padded_decimal(y as u32, 4)
    } else {
        let (sign, magnitude) = if y < 0 {
            ("-", (-(y as i64)) as u32)
        } else {
            ("+", y as u32)
        };
        proof {
            reveal_strlit("-");
            reveal_strlit("+");
        }
        let mut r = String::from_str(sign);
        let digits = padded_decimal(magnitude, 4);
        r.append(digits.as_str());
        r
    }
}

/// The date of `t` as `YYYY-MM-DD`.
pub fn date_display(t: &Timestamp) -> (r: String)
    ensures
        r@ == date_text(*t),
{
    let dash = "-";
    proof {
        reveal_strlit("-");
    }
    let mut r = year_display(t.year);
    r.append(dash);
    let m = padded_decimal(t.month, 2);
    r.append(m.as_str());
    r.append(dash);
    let d = padded_decimal(t.day, 2);
    r.append(d.as_str());
    r
}

/// The time of day of `t` as `HH:MM:SS`.
pub fn time_display(t: &Timestamp) -> (r: String)
    ensures
        r@ == time_text(*t),
{
    let colon = ":";
    proof {
        reveal_strlit(":");
    }
    let mut r = padded_decimal(t.hour, 2);
    r.append(colon);
    let m = padded_decimal(t.minute, 2);
    r.append(m.as_str());
    r.append(colon);
    let s = padded_decimal(t.second, 2);
    r.append(s.as_str());
    r
}

} // verus!
