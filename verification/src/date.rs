//! Calendar dates: validity, rendering in the store's timestamp format, and
//! shifting a date back by a number of days through the calendar library.

use vstd::prelude::*;
use vstd::string::StringExecFns;
use chrono::Datelike;
use crate::text::four_digit_text;
use crate::text::push_four_digits;
use crate::text::push_two_digits;
use crate::text::two_digit_text;

verus! {

/// A calendar date with a four-digit year.
#[derive(Clone, Copy, Debug, PartialEq, Eq, Structural)]
pub struct DateYmd {
    pub year: u16,
    pub month: u8,
    pub day: u8,
}

/// Whether `y` is a leap year of the proleptic Gregorian calendar.
pub open spec fn leap_year(y: int) -> bool {
    y % 4 == 0 && (y % 100 != 0 || y % 400 == 0)
}

/// The number of days in month `m` of year `y`.
pub open spec fn days_in_month(y: int, m: int) -> int {
    if m == 2 {
        if leap_year(y) {
            29
        } else {
            28
        }
    } else if m == 4 || m == 6 || m == 9 || m == 11 {
        30
    } else {
        31
    }
}

/// Whether month `m` and day `d` name a real calendar day of year `y`.
pub open spec fn valid_ymd(y: int, m: int, d: int) -> bool {
    1 <= m <= 12 && 1 <= d <= days_in_month(y, m)
}

impl DateYmd {
    /// A real calendar day whose year renders in four digits.
    pub open spec fn wf(self) -> bool {
        1 <= self.year <= 9999 && valid_ymd(self.year as int, self.month as int, self.day as int)
    }

    /// The date's text in the store's format: `YYYY-MM-DD`.
    pub open spec fn date_text(self) -> Seq<char> {
        four_digit_text(self.year as int) + seq!['-'] + two_digit_text(self.month as int)
            + seq!['-'] + two_digit_text(self.day as int)
    }
}

/// The position of the day `(y, m, d)` in the calendar library's linear count
/// of days; consecutive calendar days have consecutive numbers. It stands for
/// the value of `chrono::NaiveDate::num_days_from_ce` on that day.
pub uninterp spec fn day_number(y: int, m: int, d: int) -> int;

/// Relies on `chrono::NaiveDate`: `from_ymd_opt` accepts exactly the real
/// calendar days within its supported year range (which covers four-digit
/// years), `checked_sub_signed` with a whole-day `TimeDelta` moves the date
/// back by exactly that many days and fails only out of range, and the
/// `Datelike` accessors hand the resulting day back as year, month and day.
/// Moving at most 364 days back stays within the previous year, since every
/// year has at least 365 days.
#[verifier::external_body]
fn sub_days_raw(y: u16, m: u8, d: u8, n: u32) -> (r: Option<(i32, u32, u32)>)
    ensures
        r matches Some(t) ==> valid_ymd(t.0 as int, t.1 as int, t.2 as int),
        r matches Some(t) ==> day_number(t.0 as int, t.1 as int, t.2 as int) == day_number(
            y as int,
            m as int,
            d as int,
        ) - n,
        r matches Some(t) ==> t.0 <= y,
        n < 365 ==> (r matches Some(t) ==> t.0 >= y - 1),
        (valid_ymd(y as int, m as int, d as int) && 1 <= y && n <= 100000) ==> r is Some,
{
    let date = chrono::NaiveDate::from_ymd_opt(y as i32, m as u32, d as u32)?;
    let delta = chrono::TimeDelta::try_days(n as i64)?;
    let back = date.checked_sub_signed(delta)?;
    Some((back.year(), back.month(), back.day()))
}

/// The calendar day `n` days before `d`, or `None` when that day cannot be
/// represented with a four-digit year.
pub fn back_dated(d: &DateYmd, n: u32) -> (r: Option<DateYmd>)
    requires
        d.wf(),
        n <= 100000,
    ensures
        r matches Some(b) ==> b.wf() && day_number(b.year as int, b.month as int, b.day as int)
            == day_number(d.year as int, d.month as int, d.day as int) - n,
        (d.year >= 2 && n < 365) ==> r is Some,
{
    match sub_days_raw(d.year, d.month, d.day, n) {
        Some((y, m, dd)) => {
            if 1 <= y && y <= 9999 {
                Some(DateYmd { year: y as u16, month: m as u8, day: dd as u8 })
            } else {
                None
            }
        },
        None => None,
    }
}

/// Renders `d` as `YYYY-MM-DD`.
pub fn render_date(d: &DateYmd) -> (r: String)
    requires
        d.wf(),
    ensures
        r@ == d.date_text(),
{
    let mut s = String::new();
    push_four_digits(&mut s, d.year);
    s.append("-");
    push_two_digits(&mut s, d.month);
    s.append("-");
    push_two_digits(&mut s, d.day);
    proof {
        reveal_strlit("-");
        assert(s@ =~= d.date_text());
    }
    s
}

/// The text of a time of day in the store's format: `HH:MM:SS`.
pub open spec fn time_text(h: int, mi: int, se: int) -> Seq<char> {
    two_digit_text(h) + seq![':'] + two_digit_text(mi) + seq![':'] + two_digit_text(se)
}

/// The text of an instant in the store's format: `YYYY-MM-DD HH:MM:SS`.
pub open spec fn datetime_text(d: DateYmd, h: int, mi: int, se: int) -> Seq<char> {
    d.date_text() + seq![' '] + time_text(h, mi, se)
}

/// Renders the instant `d` at `h:mi:se` as `YYYY-MM-DD HH:MM:SS`.
pub fn render_datetime(d: &DateYmd, h: u8, mi: u8, se: u8) -> (r: String)
    requires
        d.wf(),
        h < 24,
        mi < 60,
        se < 60,
    ensures
        r@ == datetime_text(*d, h as int, mi as int, se as int),
{
    let mut s = render_date(d);
    s.append(" ");
    push_two_digits(&mut s, h);
    s.append(":");
    push_two_digits(&mut s, mi);
    s.append(":");
    push_two_digits(&mut s, se);
    proof {
        reveal_strlit(" ");
        reveal_strlit(":");
        assert(s@ =~= datetime_text(*d, h as int, mi as int, se as int));
    }
    s
}

} // verus!
