//! Calendar days and instants in UTC, and the texts the tracker expects for
//! them.
//!
//! A `CalendarDate` is a day of the proleptic Gregorian calendar and a
//! `Timestamp` is a whole second of such a day. Both are always valid. What
//! they are is said by their views, `CivilDate` and `Instant`: plain numbers
//! on which the seconds since 1970 and both wire formats are defined.

use crate::text::{
    digit_char, lemma_four_digit_year, signed_decimal_text, two_digit_text, year_text,
};
use chrono::{Datelike, TimeZone};
use vstd::prelude::*;
use vstd::string::StringExecFns;

verus! {

/// The first year that a date can lie in.
pub const MIN_YEAR: i32 = -262143;

/// The last year that a date can lie in.
pub const MAX_YEAR: i32 = 262142;

/// Whether `year` has a 29th of February.
pub open spec fn is_leap_year(year: int) -> bool {
    year % 4 == 0 && (year % 100 != 0 || year % 400 == 0)
}

/// The number of days of a month.
pub open spec fn days_in_month(year: int, month: int) -> int {
    if month == 2 {
        if is_leap_year(year) {
            29
        } else {
            28
        }
    } else if month == 4 || month == 6 || month == 9 || month == 11 {
        30
    } else {
        31
    }
}

/// The number of days of `year` that lie before the first of `month`.
pub open spec fn days_before_month(year: int, month: int) -> int
    decreases month,
{
    if month <= 1 {
        0
    } else {
        days_before_month(year, month - 1) + days_in_month(year, month - 1)
    }
}

/// The number of leap years from year 1 up to the year before `year`.
pub open spec fn leap_years_before(year: int) -> int {
    (year - 1) / 4 - (year - 1) / 100 + (year - 1) / 400
}

/// A day of the calendar as three numbers.
pub struct CivilDate {
    pub year: int,
    pub month: int,
    pub day: int,
}

impl CivilDate {
    /// The day exists and its year is one that a date can lie in.
    pub open spec fn valid(self) -> bool {
        &&& MIN_YEAR <= self.year <= MAX_YEAR
        &&& 1 <= self.month <= 12
        &&& 1 <= self.day <= days_in_month(self.year, self.month)
    }

    /// The number of days from the first of January 1970 to this day.
    pub open spec fn days_from_epoch(self) -> int {
        365 * (self.year - 1970) + leap_years_before(self.year) - leap_years_before(1970)
            + days_before_month(self.year, self.month) + self.day - 1
    }

    /// The day after this one.
    pub open spec fn next(self) -> CivilDate {
        if self.day < days_in_month(self.year, self.month) {
            CivilDate { year: self.year, month: self.month, day: self.day + 1 }
        } else if self.month < 12 {
            CivilDate { year: self.year, month: self.month + 1, day: 1 }
        } else {
            CivilDate { year: self.year + 1, month: 1, day: 1 }
        }
    }

    /// The given time of this day.
    pub open spec fn at(self, hour: int, minute: int, second: int) -> Instant {
        Instant { date: self, hour, minute, second }
    }

    /// The first second of this day.
    pub open spec fn start_of_day(self) -> Instant {
        self.at(0, 0, 0)
    }

    /// The last second of this day.
    pub open spec fn end_of_day(self) -> Instant {
        self.at(23, 59, 59)
    }

    /// Noon of this day.
    pub open spec fn noon(self) -> Instant {
        self.at(12, 0, 0)
    }

    /// The day as `year-month-day`, with two digits for month and day.
    pub open spec fn text(self) -> Seq<char> {
        year_text(self.year) + seq!['-'] + two_digit_text(self.month) + seq!['-'] + two_digit_text(
            self.day,
        )
    }
}

/// A whole second of a day, in UTC.
pub struct Instant {
    pub date: CivilDate,
    pub hour: int,
    pub minute: int,
    pub second: int,
}

impl Instant {
    /// The day exists and the time is one of its 86400 seconds.
    pub open spec fn valid(self) -> bool {
        &&& self.date.valid()
        &&& 0 <= self.hour < 24
        &&& 0 <= self.minute < 60
        &&& 0 <= self.second < 60
    }

    /// The seconds from 1970-01-01 00:00:00 UTC to this instant, leap seconds
    /// not counted.
    pub open spec fn epoch_seconds(self) -> int {
        self.date.days_from_epoch() * 86400 + self.hour * 3600 + self.minute * 60 + self.second
    }

    /// The value of a query parameter that bounds a search: the seconds since
    /// 1970 in decimal, followed by three zeros in place of the milliseconds.
    pub open spec fn query_text(self) -> Seq<char> {
        signed_decimal_text(self.epoch_seconds()) + seq!['0', '0', '0']
    }

    /// The time as `hour:minute:second`, with two digits each.
    pub open spec fn time_text(self) -> Seq<char> {
        two_digit_text(self.hour) + seq![':'] + two_digit_text(self.minute) + seq![':']
            + two_digit_text(self.second)
    }

    /// The instant as the tracker reads the start of a worklog: day, `T`,
    /// time, zero milliseconds and the offset of UTC.
    pub open spec fn wire_text(self) -> Seq<char> {
        self.date.text() + seq!['T'] + self.time_text() + seq![
            '.',
            '0',
            '0',
            '0',
            '+',
            '0',
            '0',
            '0',
            '0',
        ]
    }
}

/// What chrono's parser of `DateTime<Utc>` reads from a text: the year, month
/// and day in UTC of the instant it denotes, or nothing where it rejects the
/// text.
pub uninterp spec fn utc_date_of_text(text: Seq<char>) -> Option<(int, int, int)>;

/// Runs `str::parse::<chrono::DateTime<chrono::Utc>>` on `text`. The contract
/// gives the outcome its name and claims nothing else of it.
#[verifier::external_body]
fn chrono_parse_utc_date(text: &str) -> (parsed: Option<(i32, u32, u32)>)
    ensures
        match parsed {
            Some((year, month, day)) => utc_date_of_text(text@) == Some(
                (year as int, month as int, day as int),
            ),
            None => utc_date_of_text(text@) is None,
        },
{
    match text.parse::<chrono::DateTime<chrono::Utc>>() {
        Ok(at) => Some((at.year(), at.month(), at.day())),
        Err(_) => None,
    }
}

/// Builds the instant with chrono's `TimeZone::with_ymd_and_hms` on `Utc` and
/// writes it with `DateTime::format`. The contract claims what chrono
/// documents of the two patterns in use: `%s` is the count of seconds since
/// 1970 in plain decimal, `%F` the day with a zero-padded year of four digits
/// (signed outside 0 to 9999), `%X` the time as `%H:%M:%S`, `%3f` three digits
/// of milliseconds and `%z` the offset, `+0000` in UTC.
#[verifier::external_body]
fn chrono_format_utc(
    year: i32,
    month: u32,
    day: u32,
    hour: u32,
    minute: u32,
    second: u32,
    pattern: &str,
) -> (text: String)
    requires
        (CivilDate { year: year as int, month: month as int, day: day as int }).valid(),
        hour < 24,
        minute < 60,
        second < 60,
        pattern@ == "%s000"@ || pattern@ == "%FT%X.%3f%z"@,
    ensures
        pattern@ == "%s000"@ ==> text@ == (CivilDate {
            year: year as int,
            month: month as int,
            day: day as int,
        }).at(hour as int, minute as int, second as int).query_text(),
        pattern@ == "%FT%X.%3f%z"@ ==> text@ == (CivilDate {
            year: year as int,
            month: month as int,
            day: day as int,
        }).at(hour as int, minute as int, second as int).wire_text(),
{
    let at = chrono::Utc.with_ymd_and_hms(year, month, day, hour, minute, second).unwrap();
    at.format(pattern).to_string()
}

/// Whether `year` has a 29th of February.
pub fn leap_year(year: i32) -> (leap: bool)
    ensures
        leap == is_leap_year(year as int),
{
    // 2147484000 is a multiple of 400 above every negative year, so the
    // shifted year is positive and has the same remainders.
    let shifted: u64 = (year as i64 + 2147484000) as u64;
    shifted % 4 == 0 && (shifted % 100 != 0 || shifted % 400 == 0)
}

/// The number of days of a month.
pub fn month_length(year: i32, month: u32) -> (days: u32)
    ensures
        days == days_in_month(year as int, month as int),
{
    if month == 2 {
        if leap_year(year) {
            29
        } else {
            28
        }
    } else if month == 4 || month == 6 || month == 9 || month == 11 {
        30
    } else {
        31
    }
}

/// A day of the proleptic Gregorian calendar. Every value is a day that
/// exists.
#[derive(Clone, Copy, Debug, PartialEq, Eq)]
pub struct CalendarDate {
    year: i32,
    month: u32,
    day: u32,
}

impl View for CalendarDate {
    type V = CivilDate;

    closed spec fn view(&self) -> CivilDate {
        CivilDate { year: self.year as int, month: self.month as int, day: self.day as int }
    }
}

impl CalendarDate {
    #[verifier::type_invariant]
    spec fn exists_in_calendar(self) -> bool {
        self@.valid()
    }

    /// The day with these numbers, if there is one.
    pub fn new(year: i32, month: u32, day: u32) -> (date: Option<CalendarDate>)
        ensures
            (CivilDate { year: year as int, month: month as int, day: day as int }).valid()
                <==> date is Some,
            date matches Some(d) ==> d@ == (CivilDate {
                year: year as int,
                month: month as int,
                day: day as int,
            }),
    {
        if year < MIN_YEAR || year > MAX_YEAR || month < 1 || month > 12 || day < 1 {
            return None;
        }
        if day > month_length(year, month) {
            return None;
        }
        Some(CalendarDate { year, month, day })
    }

    /// The year of the day.
    pub fn year(&self) -> (year: i32)
        ensures
            year == self@.year,
            self@.valid(),
    {
        proof {
            use_type_invariant(self);
        }
        self.year
    }

    /// The month of the day, from 1 to 12.
    pub fn month(&self) -> (month: u32)
        ensures
            month == self@.month,
            self@.valid(),
    {
        proof {
            use_type_invariant(self);
        }
        self.month
    }

    /// The day of the month, from 1.
    pub fn day(&self) -> (day: u32)
        ensures
            day == self@.day,
            self@.valid(),
    {
        proof {
            use_type_invariant(self);
        }
        self.day
    }

    /// The given time of this day, as a value.
    pub closed spec fn at(self, hour: u32, minute: u32, second: u32) -> Timestamp {
        Timestamp { date: self, hour, minute, second }
    }

    /// The view of a time of this day is that time of the day's view.
    pub proof fn lemma_at(self, hour: u32, minute: u32, second: u32)
        ensures
            self.at(hour, minute, second)@ == self@.at(hour as int, minute as int, second as int),
    {
    }

    /// The given time of this day.
    pub fn and_hms(&self, hour: u32, minute: u32, second: u32) -> (at: Timestamp)
        requires
            hour < 24,
            minute < 60,
            second < 60,
        ensures
            at == self.at(hour, minute, second),
            at@ == self@.at(hour as int, minute as int, second as int),
            at@.valid(),
    {
        proof {
            use_type_invariant(self);
        }
        Timestamp { date: *self, hour, minute, second }
    }
}

/// A whole second of a day, in UTC. Every value is a time that exists.
#[derive(Clone, Copy, Debug, PartialEq, Eq)]
pub struct Timestamp {
    date: CalendarDate,
    hour: u32,
    minute: u32,
    second: u32,
}

impl View for Timestamp {
    type V = Instant;

    closed spec fn view(&self) -> Instant {
        Instant {
            date: self.date@,
            hour: self.hour as int,
            minute: self.minute as int,
            second: self.second as int,
        }
    }
}

impl Timestamp {
    #[verifier::type_invariant]
    spec fn exists_in_calendar(self) -> bool {
        self@.valid()
    }

    /// The day of the instant.
    pub fn date(&self) -> (date: CalendarDate)
        ensures
            date@ == self@.date,
            self@.valid(),
    {
        proof {
            use_type_invariant(self);
        }
        self.date
    }

    /// The instant as the value of a query parameter: its seconds since 1970
    /// followed by `000`.
    pub fn query_value(&self) -> (text: String)
        ensures
            text@ == self@.query_text(),
    {
        proof {
            use_type_invariant(self);
            use_type_invariant(&self.date);
        }
        chrono_format_utc(
            self.date.year,
            self.date.month,
            self.date.day,
            self.hour,
            self.minute,
            self.second,
            "%s000",
        )
    }

    /// The instant as the start of a worklog in a request body.
    pub fn wire_value(&self) -> (text: String)
        ensures
            text@ == self@.wire_text(),
    {
        proof {
            use_type_invariant(self);
            use_type_invariant(&self.date);
        }
        chrono_format_utc(
            self.date.year,
            self.date.month,
            self.date.day,
            self.hour,
            self.minute,
            self.second,
            "%FT%X.%3f%z",
        )
    }
}

/// The message for a text that is no date.
pub open spec fn invalid_date_message() -> Seq<char> {
    "Could not parse to a valid date, dates should have format `yyyy-mm-dd`"@
}

/// What a parsed text stands for: the day with the numbers that were read, or
/// the message for the user where nothing was read or no such day exists.
pub open spec fn date_of_parsed(parsed: Option<(int, int, int)>) -> Result<CivilDate, Seq<char>> {
    match parsed {
        Some((year, month, day)) => if (CivilDate { year, month, day }).valid() {
            Ok(CivilDate { year, month, day })
        } else {
            Err(invalid_date_message())
        },
        None => Err(invalid_date_message()),
    }
}

/// Turns the numbers that a parser read into a date, or into the message for
/// the user.
pub fn date_from_parsed(parsed: Option<(i32, u32, u32)>) -> (date: Result<CalendarDate, String>)
    ensures
        match parsed {
            Some((year, month, day)) => match date_of_parsed(
                Some((year as int, month as int, day as int)),
            ) {
                Ok(civil) => date matches Ok(d) && d@ == civil,
                Err(message) => date matches Err(m) && m@ == message,
            },
            None => date matches Err(m) && m@ == invalid_date_message(),
        },
{
    let found = match parsed {
        Some((year, month, day)) => CalendarDate::new(year, month, day),
        None => None,
    };
    match found {
        Some(date) => Ok(date),
        None => Err(
            String::from_str(
                "Could not parse to a valid date, dates should have format `yyyy-mm-dd`",
            ),
        ),
    }
}

/// Reads a date written as `yyyy-mm-dd`: the text is completed to midnight
/// UTC of that day and read as an instant, whose day is the result.
pub fn string_to_date_mapper(input: &str) -> (date: Result<CalendarDate, String>)
    ensures
        match date_of_parsed(utc_date_of_text(input@ + "T00:00:00Z"@)) {
            Ok(civil) => date matches Ok(d) && d@ == civil,
            Err(message) => date matches Err(m) && m@ == message,
        },
{
    let mut text = String::from_str(input);
    text.append("T00:00:00Z");
    date_from_parsed(chrono_parse_utc_date(text.as_str()))
}

/// A year has 365 days before its December, and one more if it is a leap year.
proof fn lemma_days_before_december(year: int)
    ensures
        days_before_month(year, 12) == 334 + if is_leap_year(year) {
            1int
        } else {
            0int
        },
{
    reveal_with_fuel(days_before_month, 13);
}

/// The count of leap years grows by one over a leap year and by nothing over
/// any other.
proof fn lemma_leap_years_step(year: int)
    ensures
        leap_years_before(year + 1) == leap_years_before(year) + if is_leap_year(year) {
            1int
        } else {
            0int
        },
{
    let q4 = (year - 1) / 4;
    let q100 = (year - 1) / 100;
    let q400 = (year - 1) / 400;
    assert(year / 4 == if year % 4 == 0 {
        q4 + 1
    } else {
        q4
    });
    assert(year / 100 == if year % 100 == 0 {
        q100 + 1
    } else {
        q100
    });
    assert(year / 400 == if year % 400 == 0 {
        q400 + 1
    } else {
        q400
    });
    assert(year % 400 == 0 ==> year % 100 == 0);
    assert(year % 100 == 0 ==> year % 4 == 0);
}

/// The count of days starts with zero on the first of January 1970 and grows
/// by one from each day to the next, over the ends of months and years.
pub proof fn lemma_days_count_up(date: CivilDate)
    requires
        1 <= date.month <= 12,
        1 <= date.day <= days_in_month(date.year, date.month),
    ensures
        (CivilDate { year: 1970, month: 1, day: 1 }).days_from_epoch() == 0,
        date.next().days_from_epoch() == date.days_from_epoch() + 1,
        1 <= date.next().month <= 12,
        1 <= date.next().day <= days_in_month(date.next().year, date.next().month),
{
    assert(days_before_month(1970, 1) == 0);
    if date.day < days_in_month(date.year, date.month) {
    } else if date.month < 12 {
        assert(days_before_month(date.year, date.month + 1) == days_before_month(
            date.year,
            date.month,
        ) + days_in_month(date.year, date.month));
    } else {
        lemma_days_before_december(date.year);
        lemma_leap_years_step(date.year);
        assert(days_before_month(date.year + 1, 1) == 0);
    }
}

/// A day begins at midnight and ends 86399 seconds later, so the window of a
/// day is never empty and covers no second of another day.
pub proof fn lemma_day_window(date: CivilDate)
    requires
        date.valid(),
    ensures
        date.start_of_day().valid(),
        date.end_of_day().valid(),
        date.start_of_day().epoch_seconds() == 86400 * date.days_from_epoch(),
        date.end_of_day().epoch_seconds() == date.start_of_day().epoch_seconds() + 86399,
        date.start_of_day().epoch_seconds() <= date.end_of_day().epoch_seconds(),
        date.noon().epoch_seconds() == date.start_of_day().epoch_seconds() + 43200,
{
}

/// Noon of a day in the years 0 to 9999 is written in 28 characters: the year
/// in four digits, month and day in two digits each, hyphens between them, and
/// then always `T12:00:00.000+0000`.
pub proof fn lemma_noon_text(date: CivilDate)
    requires
        date.valid(),
        0 <= date.year <= 9999,
    ensures
        date.noon().wire_text().len() == 28,
        date.noon().wire_text() == seq![
            digit_char(date.year / 1000),
            digit_char((date.year / 100) % 10),
            digit_char((date.year / 10) % 10),
            digit_char(date.year % 10),
            '-',
            digit_char(date.month / 10),
            digit_char(date.month % 10),
            '-',
            digit_char(date.day / 10),
            digit_char(date.day % 10),
        ] + "T12:00:00.000+0000"@,
{
    lemma_four_digit_year(date.year);
    reveal_strlit("T12:00:00.000+0000");
    assert(date.noon().wire_text() =~= seq![
        digit_char(date.year / 1000),
        digit_char((date.year / 100) % 10),
        digit_char((date.year / 10) % 10),
        digit_char(date.year % 10),
        '-',
        digit_char(date.month / 10),
        digit_char(date.month % 10),
        '-',
        digit_char(date.day / 10),
        digit_char(date.day % 10),
    ] + "T12:00:00.000+0000"@);
}

} // verus!
