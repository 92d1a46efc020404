//! Calendar dates and capture instants, held as plain numbers.
//!
//! A date is a day number in the proleptic Gregorian calendar, with
//! January 1 of year 1 as day 1. Everything that needs the calendar itself
//! (reading and writing `YYYY-MM-DD`, year, month and day, the clock) is
//! asked of `chrono` through the trusted functions at the end of this file.

use vstd::prelude::*;

verus! {

/// Day number of the first date that `chrono` represents (January 1, 262144 BCE).
pub const DAY_MIN: i32 = -95_746_129;

/// Day number of the last date that `chrono` represents (December 31, 262142 CE).
pub const DAY_MAX: i32 = 95_745_399;

/// Whether `days` is the day number of a date that `chrono` represents.
pub open spec fn is_day_number(days: int) -> bool {
    DAY_MIN <= days <= DAY_MAX
}

/// The text that `chrono` writes for the date with day number `days` under
/// the format `%Y-%m-%d`.
pub uninterp spec fn iso_date_text(days: int) -> Seq<char>;

/// The day number of the date that `chrono` reads from `text` under the
/// format `%Y-%m-%d`, or `None` where it reads none.
pub uninterp spec fn parsed_iso_date(text: Seq<char>) -> Option<int>;

/// The day number of the calendar date `year`-`month`-`day`, or `None`
/// where the calendar has no such date or `chrono` does not represent it.
pub uninterp spec fn day_number_of(year: int, month: int, day: int) -> Option<int>;

/// A calendar date without a time of day.
#[derive(Clone, Copy, Debug)]
pub struct CalendarDate {
    days: i32,
}

impl View for CalendarDate {
    type V = int;

    closed spec fn view(&self) -> int {
        self.days as int
    }
}

impl CalendarDate {
    #[verifier::type_invariant]
    closed spec fn in_range(self) -> bool {
        is_day_number(self.days as int)
    }

    /// The date with day number `days`, where there is one.
    pub fn from_days(days: i32) -> (date: Option<CalendarDate>)
        ensures
            date is Some <==> is_day_number(days as int),
            date matches Some(d) ==> d@ == days,
    {
        if DAY_MIN <= days && days <= DAY_MAX {
            Some(CalendarDate { days })
        } else {
            None
        }
    }

    /// The date `year`-`month`-`day`, where the calendar has it.
    pub fn from_ymd(year: i32, month: u32, day: u32) -> (date: Option<CalendarDate>)
        ensures
            date is Some <==> day_number_of(year as int, month as int, day as int) is Some,
            date matches Some(d) ==> Some(d@) == day_number_of(year as int, month as int, day as int),
    {
        match chrono_day_number(year, month, day) {
            Some(days) => Some(CalendarDate { days }),
            None => None,
        }
    }

    /// Reads a date written as `YYYY-MM-DD`.
    pub fn parse(text: &str) -> (date: Option<CalendarDate>)
        ensures
            date is Some <==> parsed_iso_date(text@) is Some,
            date matches Some(d) ==> Some(d@) == parsed_iso_date(text@),
    {
        match chrono_parse_date(text) {
            Some(days) => Some(CalendarDate { days }),
            None => None,
        }
    }

    /// The day number of this date.
    pub fn days(&self) -> (days: i32)
        ensures
            days == self@,
            is_day_number(days as int),
    {
        proof {
            use_type_invariant(self);
        }
        self.days
    }

    /// The date written as `YYYY-MM-DD`.
    pub fn to_iso_text(&self) -> (text: String)
        ensures
            text@ == iso_date_text(self@),
    {
        proof {
            use_type_invariant(self);
        }
        chrono_format_date(self.days)
    }

    /// The date `count` days after this one, where `chrono` represents it.
    pub fn plus_days(&self, count: u32) -> (date: Option<CalendarDate>)
        ensures
            date is Some <==> is_day_number(self@ + count),
            date matches Some(d) ==> d@ == self@ + count,
    {
        proof {
            use_type_invariant(self);
        }
        let sum: i64 = self.days as i64 + count as i64;
        if sum <= DAY_MAX as i64 {
            Some(CalendarDate { days: sum as i32 })
        } else {
            None
        }
    }

    /// Whether this date is `other` or comes before it.
    pub fn is_on_or_before(&self, other: &CalendarDate) -> (b: bool)
        ensures
            b == (self@ <= other@),
    {
        self.days <= other.days
    }
}

/// The day number of a date is a 32-bit number.
pub proof fn lemma_day_number_is_small(date: CalendarDate)
    ensures
        i32::MIN <= date@ <= i32::MAX,
{
}

/// The number of nanoseconds in a second.
pub const NANOSECONDS_IN_A_SECOND: u32 = 1_000_000_000;

/// An instant at which a record was observed: whole seconds since the Unix
/// epoch and the nanoseconds into that second. Within a leap second the
/// nanoseconds go on counting beyond a second.
#[derive(Clone, Copy, Debug, PartialEq, Eq, Structural)]
pub struct CaptureTime {
    pub seconds: i64,
    pub nanoseconds: u32,
}

/// The date that the machine's clock shows in its local time zone.
pub fn today() -> (date: CalendarDate)
    ensures
        is_day_number(date@),
{
    CalendarDate { days: chrono_today() }
}

/// The instant that the machine's clock shows. The clock counts whole
/// seconds and the part of a second that has passed; it shows no leap second.
pub fn now() -> (instant: CaptureTime)
    ensures
        instant.nanoseconds < NANOSECONDS_IN_A_SECOND,
{
    let (seconds, nanoseconds) = chrono_now();
    CaptureTime { seconds, nanoseconds }
}

/// `chrono::NaiveDate::parse_from_str` with the format `%Y-%m-%d`, the date
/// handed back as its day number (`Datelike::num_days_from_ce`). The result
/// is a function of the text alone and is named `parsed_iso_date`; a date
/// that was read is one that `chrono` represents, so its day number lies
/// between those of `NaiveDate::MIN` and `NaiveDate::MAX`.
#[verifier::external_body]
fn chrono_parse_date(text: &str) -> (days: Option<i32>)
    ensures
        days is Some <==> parsed_iso_date(text@) is Some,
        days matches Some(d) ==> parsed_iso_date(text@) == Some(d as int) && is_day_number(d as int),
{
    match chrono::NaiveDate::parse_from_str(text, "%Y-%m-%d") {
        Ok(date) => Some(chrono::Datelike::num_days_from_ce(&date)),
        Err(_) => None,
    }
}

/// `chrono::NaiveDate::from_ymd_opt`, the date handed back as its day number
/// (`Datelike::num_days_from_ce`). The result is a function of the three
/// numbers alone and is named `day_number_of`; the day number of a date that
/// exists lies between those of `NaiveDate::MIN` and `NaiveDate::MAX`.
#[verifier::external_body]
fn chrono_day_number(year: i32, month: u32, day: u32) -> (days: Option<i32>)
    ensures
        days is Some <==> day_number_of(year as int, month as int, day as int) is Some,
        days matches Some(d) ==> day_number_of(year as int, month as int, day as int) == Some(
            d as int,
        ) && is_day_number(d as int),
{
    match chrono::NaiveDate::from_ymd_opt(year, month, day) {
        Some(date) => Some(chrono::Datelike::num_days_from_ce(&date)),
        None => None,
    }
}

/// `chrono::NaiveDate::format` with `%Y-%m-%d`, on the date that
/// `NaiveDate::from_num_days_from_ce_opt` makes of `days`. Every day number
/// between those of `NaiveDate::MIN` and `NaiveDate::MAX` is a date, which
/// the `requires` asks for; the text is a function of the day number alone
/// and is named `iso_date_text`.
#[verifier::external_body]
fn chrono_format_date(days: i32) -> (text: String)
    requires
        is_day_number(days as int),
    ensures
        text@ == iso_date_text(days as int),
{
    match chrono::NaiveDate::from_num_days_from_ce_opt(days) {
        Some(date) => date.format("%Y-%m-%d").to_string(),
        None => String::new(),
    }
}

/// `chrono::Local::now`, of which the calendar date is kept
/// (`DateTime::date_naive`) and handed back as its day number. The result
/// depends on the clock and the time zone; all that is claimed is that it is
/// the day number of a date that `chrono` represents. `chrono` panics where
/// the clock stands before the Unix epoch.
#[verifier::external_body]
fn chrono_today() -> (days: i32)
    ensures
        is_day_number(days as int),
{
    chrono::Datelike::num_days_from_ce(&chrono::Local::now().date_naive())
}

/// `chrono::Utc::now`, handed back as seconds since the Unix epoch
/// (`DateTime::timestamp`) and nanoseconds into the second
/// (`DateTime::timestamp_subsec_nanos`). The result depends on the clock; all
/// that is claimed is that the nanoseconds are less than a second, since
/// `chrono` makes the instant of the time that has passed since the epoch,
/// in whole seconds and the fraction of a second. `chrono` panics where the
/// clock stands before the Unix epoch.
#[verifier::external_body]
fn chrono_now() -> (instant: (i64, u32))
    ensures
        instant.1 < NANOSECONDS_IN_A_SECOND,
{
    let now = chrono::Utc::now();
    (now.timestamp(), now.timestamp_subsec_nanos())
}

} // verus!
