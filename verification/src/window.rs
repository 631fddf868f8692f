//! The time window of a pass: a fixed trailing period of days ending at the
//! current date's final second and starting at the first second of the day
//! the period began.

use vstd::prelude::*;
use crate::date::DateYmd;
use crate::date::back_dated;
use crate::date::datetime_text;
use crate::date::day_number;
use crate::date::render_datetime;

verus! {

/// The length of the trailing window, in days.
pub const WINDOW_DAYS: u32 = 30;

/// A resolved window: its bounding dates and their rendered timestamps, both
/// bounds inclusive.
pub struct TimeWindow {
    pub start_date: DateYmd,
    pub end_date: DateYmd,
    pub start: String,
    pub end: String,
}

impl TimeWindow {
    /// The window's dates are real calendar days exactly `WINDOW_DAYS` apart,
    /// and the bound texts are the start date's first second and the end
    /// date's last second.
    pub open spec fn wf(self) -> bool {
        &&& self.start_date.wf()
        &&& self.end_date.wf()
        &&& day_number(
            self.start_date.year as int,
            self.start_date.month as int,
            self.start_date.day as int,
        ) == day_number(
            self.end_date.year as int,
            self.end_date.month as int,
            self.end_date.day as int,
        ) - WINDOW_DAYS
        &&& self.start@ == datetime_text(self.start_date, 0, 0, 0)
        &&& self.end@ == datetime_text(self.end_date, 23, 59, 59)
    }
}

/// The window calculation failed: the start of the trailing period cannot be
/// represented as a four-digit-year date.
#[derive(Clone, Copy, Debug, PartialEq, Eq, Structural)]
pub enum WindowError {
    OutOfRange,
}

/// Derives the window for a run on date `d`: start at the first second of
/// the day `WINDOW_DAYS` days before, end at the last second of `d`. The
/// start never follows the end, and the window spans exactly `WINDOW_DAYS`
/// days. Fails only when the start date cannot be represented; every date
/// from year two onward succeeds.
pub fn window_for(d: &DateYmd) -> (r: Result<TimeWindow, WindowError>)
    requires
        d.wf(),
    ensures
        r matches Ok(w) ==> w.wf() && w.end_date == *d,
        r matches Ok(w) ==> day_number(
            w.start_date.year as int,
            w.start_date.month as int,
            w.start_date.day as int,
        ) <= day_number(w.end_date.year as int, w.end_date.month as int, w.end_date.day as int),
        d.year >= 2 ==> r is Ok,
        r matches Err(e) ==> e == WindowError::OutOfRange,
{
    match back_dated(d, WINDOW_DAYS) {
        Some(b) => {
            let start = render_datetime(&b, 0, 0, 0);
            let end = render_datetime(d, 23, 59, 59);
            Ok(TimeWindow { start_date: b, end_date: *d, start, end })
        },
        None => Err(WindowError::OutOfRange),
    }
}

} // verus!
