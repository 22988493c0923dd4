//! Local wall-clock readings and the weekday on which a user's day falls.

use vstd::prelude::*;
use vstd::arithmetic::div_mod::{lemma_hoist_over_denominator, lemma_mod_multiples_vanish};
use chrono::Datelike;

verus! {

/// Smallest year that a calendar date may carry.
pub const MIN_YEAR: i32 = -262143;

/// Largest year that a calendar date may carry.
pub const MAX_YEAR: i32 = 262142;

/// The seven days of the week, Sunday first.
#[derive(Clone, Copy, Debug, PartialEq, Eq, Structural)]
pub enum Weekday {
    Sunday,
    Monday,
    Tuesday,
    Wednesday,
    Thursday,
    Friday,
    Saturday,
}

/// The weekday that lies `n` days after a Sunday, for `n` in `0..7`.
pub open spec fn weekday_from_index(n: int) -> Weekday {
    if n == 0 {
        Weekday::Sunday
    } else if n == 1 {
        Weekday::Monday
    } else if n == 2 {
        Weekday::Tuesday
    } else if n == 3 {
        Weekday::Wednesday
    } else if n == 4 {
        Weekday::Thursday
    } else if n == 5 {
        Weekday::Friday
    } else {
        Weekday::Saturday
    }
}

/// Number of days from the last Sunday to `d`.
pub open spec fn weekday_index(d: Weekday) -> int {
    match d {
        Weekday::Sunday => 0,
        Weekday::Monday => 1,
        Weekday::Tuesday => 2,
        Weekday::Wednesday => 3,
        Weekday::Thursday => 4,
        Weekday::Friday => 5,
        Weekday::Saturday => 6,
    }
}

impl Weekday {
    /// The weekday `n` days after a Sunday.
    pub fn from_days_from_sunday(n: u32) -> (r: Weekday)
        requires
            n < 7,
        ensures
            r == weekday_from_index(n as int),
            weekday_index(r) == n,
    {
        if n == 0 {
            Weekday::Sunday
        } else if n == 1 {
            Weekday::Monday
        } else if n == 2 {
            Weekday::Tuesday
        } else if n == 3 {
            Weekday::Wednesday
        } else if n == 4 {
            Weekday::Thursday
        } else if n == 5 {
            Weekday::Friday
        } else {
            Weekday::Saturday
        }
    }

    /// Number of days from the last Sunday to this day.
    pub fn days_from_sunday(&self) -> (r: u32)
        ensures
            r == weekday_index(*self),
            r < 7,
    {
        match self {
            Weekday::Sunday => 0,
            Weekday::Monday => 1,
            Weekday::Tuesday => 2,
            Weekday::Wednesday => 3,
            Weekday::Thursday => 4,
            Weekday::Friday => 5,
            Weekday::Saturday => 6,
        }
    }
}

/// Gregorian leap years, counted proleptically with a year zero.
pub open spec fn is_leap_year(year: int) -> bool {
    year % 4 == 0 && (year % 100 != 0 || year % 400 == 0)
}

/// Number of days in `month` (1 to 12) of `year`.
pub open spec fn days_in_month(year: int, month: int) -> int {
    if month == 2 {
        if is_leap_year(year) { 29 } else { 28 }
    } else if month == 4 || month == 6 || month == 9 || month == 11 {
        30
    } else {
        31
    }
}

/// A calendar date that exists, in the range of years that dates may carry.
pub open spec fn is_valid_date(year: int, month: int, day: int) -> bool {
    &&& MIN_YEAR <= year <= MAX_YEAR
    &&& 1 <= month <= 12
    &&& 1 <= day <= days_in_month(year, month)
}

/// The weekday of a calendar date, counted in days from Sunday.
pub uninterp spec fn weekday_of_date(year: int, month: int, day: int) -> int;

/// Relies on chrono's `NaiveDate::from_ymd_opt`, which gives a date for every
/// existing calendar day in its range, and on `Datelike::weekday` with
/// `Weekday::num_days_from_sunday`, which numbers the days Sunday = 0 to
/// Saturday = 6.
#[verifier::external_body]
fn date_weekday(year: i32, month: u32, day: u32) -> (r: u32)
    requires
        is_valid_date(year as int, month as int, day as int),
    ensures
        r == weekday_of_date(year as int, month as int, day as int),
        r < 7,
{
    let date = chrono::NaiveDate::from_ymd_opt(year, month, day).expect("an existing date");
    date.weekday().num_days_from_sunday()
}

/// A reading of the local wall clock: a calendar date and the hour of that day.
#[derive(Clone, Copy, Debug, PartialEq, Eq, Structural)]
pub struct WallClock {
    pub year: i32,
    pub month: u32,
    pub day: u32,
    pub hour: u32,
}

impl WallClock {
    /// The reading names an existing date and an hour of the day.
    pub open spec fn wf(&self) -> bool {
        &&& is_valid_date(self.year as int, self.month as int, self.day as int)
        &&& self.hour < 24
    }

    /// The weekday on which the user's day falls, when that day begins
    /// `day_start_hour` hours after midnight: the weekday of the reading moved
    /// back by `day_start_hour` hours on the wall clock.
    ///
    /// The hours are taken off the local wall-clock reading, not off the
    /// instant, and the reading itself depends on the host's time zone. On a
    /// day when daylight saving time begins or ends, a reading within an hour
    /// of the day start may therefore fall on the other side of the boundary
    /// than the instant moved back by the same number of hours would.
    pub open spec fn spec_effective_weekday(&self, day_start_hour: int) -> Weekday {
        weekday_from_index(
            (weekday_of_date(self.year as int, self.month as int, self.day as int) + (
            self.hour as int - day_start_hour) / 24) % 7,
        )
    }

    /// Builds a reading, or `None` where the date does not exist or the hour
    /// is not one of `0..24`.
    pub fn new(year: i32, month: u32, day: u32, hour: u32) -> (r: Option<WallClock>)
        ensures
            r is Some <==> (is_valid_date(year as int, month as int, day as int) && hour < 24),
            r matches Some(c) ==> c == (WallClock { year, month, day, hour }),
    {
        if year < MIN_YEAR || year > MAX_YEAR || month < 1 || month > 12 || day < 1 || hour >= 24 {
            return None;
        }
        if day > month_length(year, month) {
            return None;
        }
        Some(WallClock { year, month, day, hour })
    }

    /// The weekday on which the user's day falls at this reading, for a day
    /// that begins `day_start_hour` hours after midnight. A negative offset
    /// moves the reading forward; offsets beyond a day move it across several
    /// dates.
    ///
    /// The offset is applied to the local wall-clock reading, so around a
    /// daylight saving change the result can differ by one day from the
    /// weekday of the instant moved back by the same hours (see
    /// `spec_effective_weekday`).
    pub fn effective_weekday(&self, day_start_hour: i32) -> (r: Weekday)
        requires
            self.wf(),
        ensures
            r == self.spec_effective_weekday(day_start_hour as int),
    {
        let w = date_weekday(self.year, self.month, self.day);
        let diff: i64 = self.hour as i64 - day_start_hour as i64;
        // A whole number of weeks, in hours, that makes the difference non-negative.
        let lift: i64 = 2818572288;
        let shifted: u64 = (diff + lift) as u64;
        let idx: u64 = (w as u64 + shifted / 24) % 7;
        proof {
            let d = diff as int;
            let k: int = 16777216;
            lemma_hoist_over_denominator(d, 7 * k, 24);
            assert(shifted as int == d + (7 * k) * 24);
            assert(shifted as int / 24 == d / 24 + 7 * k);
            assert(w as int + shifted as int / 24 == 7 * k + (w as int + d / 24));
            lemma_mod_multiples_vanish(k, w as int + d / 24, 7);
        }
        Weekday::from_days_from_sunday(idx as u32)
    }
}

/// Number of days in `month` (1 to 12) of `year`.
fn month_length(year: i32, month: u32) -> (r: u32)
    requires
        MIN_YEAR <= year <= MAX_YEAR,
        1 <= month <= 12,
    ensures
        r == days_in_month(year as int, month as int),
{
    if month == 2 {
        // Lifting by a multiple of 400 keeps every remainder that decides a leap year.
        let y: u32 = (year as i64 + 400000) as u32;
        proof {
            lemma_mod_multiples_vanish(1000, year as int, 4);
            lemma_mod_multiples_vanish(4000, year as int, 100);
            lemma_mod_multiples_vanish(1000, year as int, 400);
        }
        if y % 4 == 0 && (y % 100 != 0 || y % 400 == 0) {
            29
        } else {
            28
        }
    } else if month == 4 || month == 6 || month == 9 || month == 11 {
        30
    } else {
        31
    }
}

} // verus!
