//! Calendar dates, and the reading of a date from text.

use vstd::prelude::*;

verus! {

/// The pattern in which a submission writes its date: year, month and day,
/// joined by hyphens.
pub const DATE_FORMAT: &'static str = "%Y-%m-%d";

/// Whether `year` has a 29th of February in the proleptic Gregorian
/// calendar.
pub open spec fn is_leap_year(year: int) -> bool {
    year % 4 == 0 && (year % 100 != 0 || year % 400 == 0)
}

/// The number of days of a month; 0 for a month that does not exist.
pub open spec fn days_in_month(year: int, month: int) -> int {
    if month == 2 {
        if is_leap_year(year) {
            29
        } else {
            28
        }
    } else if month == 4 || month == 6 || month == 9 || month == 11 {
        30
    } else if 1 <= month <= 12 {
        31
    } else {
        0
    }
}

/// Whether the three numbers name a day that exists.
pub open spec fn is_calendar_date(year: int, month: int, day: int) -> bool {
    1 <= month <= 12 && 1 <= day <= days_in_month(year, month)
}

/// A day of the proleptic Gregorian calendar.
#[derive(Debug, Clone, Copy, PartialEq, Eq, Structural)]
pub struct CalendarDate {
    pub year: i32,
    pub month: u32,
    pub day: u32,
}

impl CalendarDate {
    /// The date names a day that exists.
    pub open spec fn wf(self) -> bool {
        is_calendar_date(self.year as int, self.month as int, self.day as int)
    }

    /// The date of the given year, month and day, if there is such a day.
    pub fn new(year: i32, month: u32, day: u32) -> (date: Option<CalendarDate>)
        ensures
            date == if is_calendar_date(year as int, month as int, day as int) {
                Some(CalendarDate { year, month, day })
            } else {
                None
            },
    {
        if 1 <= day && day <= month_length(year, month) {
            Some(CalendarDate { year, month, day })
        } else {
            None
        }
    }

    /// Whether the date names a day that exists.
    pub fn is_valid(&self) -> (valid: bool)
        ensures
            valid == self.wf(),
    {
        1 <= self.day && self.day <= month_length(self.year, self.month)
    }
}

/// Whether `year` has a 29th of February.
pub fn leap_year(year: i32) -> (leap: bool)
    ensures
        leap == is_leap_year(year as int),
{
    let r400: i32 = year % 400;
    let r100: i32 = year % 100;
    let r4: i32 = year % 4;
    assert(r4 == 0 <==> (year as int) % 4 == 0) by {
        if year < 0 {
            assert(((year as int) % 4 == 0) <==> ((-(year as int)) % 4 == 0));
        }
    }
    assert(r100 == 0 <==> (year as int) % 100 == 0) by {
        if year < 0 {
            assert(((year as int) % 100 == 0) <==> ((-(year as int)) % 100 == 0));
        }
    }
    assert(r400 == 0 <==> (year as int) % 400 == 0) by {
        if year < 0 {
            assert(((year as int) % 400 == 0) <==> ((-(year as int)) % 400 == 0));
        }
    }
    r4 == 0 && (r100 != 0 || r400 == 0)
}

/// The number of days of a month; 0 for a month that does not exist.
pub fn month_length(year: i32, month: u32) -> (days: u32)
    ensures
        days == days_in_month(year as int, month as int),
{
    if month == 2 {
        if leap_year(year) {
            29
        } else {
            28
        }
    } else if month == 4 || month == 6 || month == 9 || month == 11 {
        30
    } else if 1 <= month && month <= 12 {
        31
    } else {
        0
    }
}

/// What `chrono::NaiveDate::parse_from_str` reads from `text` under the
/// pattern `format`: the year, month and day of the date, or nothing where
/// the text does not fit the pattern or names no day.
pub uninterp spec fn chrono_parsed_date(text: Seq<char>, format: Seq<char>) -> Option<
    (i32, u32, u32),
>;

/// Calls `chrono::NaiveDate::parse_from_str` and takes the date apart with
/// `Datelike::year`, `month` and `day`. The parser's diagnostic is dropped.
/// Trusted: the outcome is a function of the two texts, and a date that
/// comes back names a day that exists.
#[verifier::external_body]
fn chrono_parse(text: &str, format: &str) -> (parsed: Option<(i32, u32, u32)>)
    ensures
        parsed == chrono_parsed_date(text@, format@),
        parsed matches Some(d) ==> is_calendar_date(d.0 as int, d.1 as int, d.2 as int),
{
    match chrono::NaiveDate::parse_from_str(text, format) {
        Ok(d) => Some(
            (chrono::Datelike::year(&d), chrono::Datelike::month(&d), chrono::Datelike::day(&d)),
        ),
        Err(_) => None,
    }
}

/// The date that a parser's outcome stands for.
pub open spec fn date_of(parsed: Option<(i32, u32, u32)>) -> Option<CalendarDate> {
    match parsed {
        Some(d) => Some(CalendarDate { year: d.0, month: d.1, day: d.2 }),
        None => None,
    }
}

/// The date written in `text`, read under [`DATE_FORMAT`].
pub open spec fn parsed_date(text: Seq<char>) -> Option<CalendarDate> {
    date_of(chrono_parsed_date(text, DATE_FORMAT@))
}

/// Reads a date written as year, month and day.
pub fn parse_date(text: &str) -> (date: Option<CalendarDate>)
    ensures
        date == parsed_date(text@),
        date matches Some(d) ==> d.wf(),
{
    match chrono_parse(text, DATE_FORMAT) {
        Some((year, month, day)) => Some(CalendarDate { year, month, day }),
        None => None,
    }
}

} // verus!
