//! Calendar dates. A `Date` holds year, month and day as plain numbers; the
//! clock, the parser and the formatter are chrono's.

use vstd::prelude::*;
use chrono::Datelike;
use crate::error::TaskError;

verus! {

/// A day of the proleptic Gregorian calendar.
#[derive(Debug, Clone, Copy, PartialEq, Eq, Structural, Hash)]
pub struct Date {
    pub year: i32,
    pub month: u32,
    pub day: u32,
}

/// Whether `year` has a 29th of February.
pub open spec fn is_leap_year(year: int) -> bool {
    year % 4 == 0 && (year % 100 != 0 || year % 400 == 0)
}

/// The number of days of the given month; 0 where `month` is not one.
pub open spec fn days_in_month(year: int, month: int) -> int {
    if month == 2 {
        if is_leap_year(year) {
            29
        } else {
            28
        }
    } else if month == 4 || month == 6 || month == 9 || month == 11 {
        30
    } else if 1 <= month <= 12 {
        31
    } else {
        0
    }
}

impl Date {
    /// The first year that a date can lie in.
    pub const MIN_YEAR: i32 = -262143;

    /// The last year that a date can lie in.
    pub const MAX_YEAR: i32 = 262142;

    /// The date exists in the calendar and its year is in range.
    pub open spec fn is_valid(self) -> bool {
        &&& Date::MIN_YEAR <= self.year <= Date::MAX_YEAR
        &&& 1 <= self.month <= 12
        &&& 1 <= self.day <= days_in_month(self.year as int, self.month as int)
    }

    /// The date with the given fields, if there is such a day.
    pub fn new(year: i32, month: u32, day: u32) -> (r: Option<Date>)
        ensures
            r == (if (Date { year, month, day }).is_valid() {
                Some(Date { year, month, day })
            } else {
                None
            }),
    {
        if year < Date::MIN_YEAR || year > Date::MAX_YEAR || month < 1 || month > 12 || day < 1 {
            return None;
        }
        let shifted: u32 = (year + 262400) as u32;
        assert(shifted % 400 == year as int % 400 && shifted % 100 == year as int % 100
            && shifted % 4 == year as int % 4);
        let leap = shifted % 4 == 0 && (shifted % 100 != 0 || shifted % 400 == 0);
        let last: u32 = if month == 2 {
            if leap {
                29
            } else {
                28
            }
        } else if month == 4 || month == 6 || month == 9 || month == 11 {
            30
        } else {
            31
        };
        if day <= last {
            Some(Date { year, month, day })
        } else {
            None
        }
    }
}

/// chrono's error for text that is not a date.
#[verifier::external_type_specification]
#[verifier::external_body]
pub struct ExParseError(chrono::ParseError);

/// What chrono's parser makes of `text` under the pattern `%Y-%m-%d`:
/// the date it reads, or nothing where it reports an error.
pub uninterp spec fn parsed_ymd(text: Seq<char>) -> Option<Date>;

/// What `str::trim` leaves of `text`: the text without its leading and
/// trailing whitespace.
pub uninterp spec fn trimmed(text: Seq<char>) -> Seq<char>;

/// The character of a decimal digit.
pub open spec fn digit(n: int) -> char {
    if n == 0 {
        '0'
    } else if n == 1 {
        '1'
    } else if n == 2 {
        '2'
    } else if n == 3 {
        '3'
    } else if n == 4 {
        '4'
    } else if n == 5 {
        '5'
    } else if n == 6 {
        '6'
    } else if n == 7 {
        '7'
    } else if n == 8 {
        '8'
    } else {
        '9'
    }
}

/// A number below one hundred in two digits, with a leading zero if needed.
pub open spec fn two_digits(n: int) -> Seq<char> {
    seq![digit(n / 10), digit(n % 10)]
}

/// The short form of a date: day, month and the year within its century,
/// two digits each, with a slash between them.
pub open spec fn short_text(date: Date) -> Seq<char> {
    two_digits(date.day as int) + seq!['/'] + two_digits(date.month as int) + seq!['/']
        + two_digits(date.year as int % 100)
}

/// `chrono::Local::now().date_naive()`, read off as year, month and day.
/// The day depends on the clock and the time zone, so the contract says only
/// that it is a calendar day, which holds of every `NaiveDate`.
#[verifier::external_body]
pub(crate) fn today() -> (d: Date)
    ensures
        d.is_valid(),
{
    let now = chrono::Local::now().date_naive();
    Date { year: now.year(), month: now.month(), day: now.day() }
}

/// `chrono::NaiveDate::parse_from_str` with the pattern `%Y-%m-%d`. The
/// date it reads is named `parsed_ymd`; it is a calendar day because chrono
/// builds a `NaiveDate` before this function reads its fields.
#[verifier::external_body]
pub(crate) fn parse_ymd(text: &str) -> (r: Result<Date, chrono::ParseError>)
    ensures
        match r {
            Ok(d) => parsed_ymd(text@) == Some(d) && d.is_valid(),
            Err(_) => parsed_ymd(text@) is None,
        },
{
    match chrono::NaiveDate::parse_from_str(text, "%Y-%m-%d") {
        Ok(d) => Ok(Date { year: d.year(), month: d.month(), day: d.day() }),
        Err(e) => Err(e),
    }
}

/// `chrono::NaiveDate::format` with the pattern `%d/%m/%y`, on the date
/// that `from_ymd_opt` makes of the fields. chrono writes day and month in
/// two digits padded with zero, and the year's Euclidean remainder by 100
/// likewise.
#[verifier::external_body]
pub(crate) fn format_dmy(date: &Date) -> (s: String)
    requires
        date.is_valid(),
    ensures
        s@ == short_text(*date),
{
    let d = chrono::NaiveDate::from_ymd_opt(date.year, date.month, date.day).unwrap();
    d.format("%d/%m/%y").to_string()
}

/// `str::trim`: the slice without leading and trailing whitespace.
#[verifier::external_body]
pub(crate) fn trim(text: &str) -> (r: &str)
    ensures
        r@ == trimmed(text@),
{
    text.trim()
}

/// What an optional date field holds, given whether the field is blank and
/// what the parser made of it: a blank field is no date, a date is itself,
/// anything else is refused.
pub open spec fn optional_date(blank: bool, parsed: Option<Date>) -> Result<Option<Date>, TaskError> {
    if blank {
        Ok(None)
    } else {
        match parsed {
            Some(d) => Ok(Some(d)),
            None => Err(TaskError::ValidationError),
        }
    }
}

/// Decides an optional date field from whether it is blank and from what
/// the parser made of it.
pub fn date_or_absent(blank: bool, parsed: Option<Date>) -> (r: Result<Option<Date>, TaskError>)
    ensures
        r == optional_date(blank, parsed),
{
    if blank {
        Ok(None)
    } else {
        match parsed {
            Some(d) => Ok(Some(d)),
            None => Err(TaskError::ValidationError),
        }
    }
}

/// Reads an optional date field. Text that is blank after trimming is no
/// date; any other text must be a date written as year, month and day with
/// hyphens between them.
pub fn parse_optional_date(s: &str) -> (r: Result<Option<Date>, TaskError>)
    ensures
        r == optional_date(trimmed(s@).len() == 0, parsed_ymd(s@)),
        r matches Ok(Some(d)) ==> d.is_valid(),
{
    let blank = trim(s).is_empty();
    if blank {
        date_or_absent(true, None)
    } else {
        match parse_ymd(s) {
            Ok(d) => date_or_absent(false, Some(d)),
            Err(_) => date_or_absent(false, None),
        }
    }
}

/// The text shown for a parsed date field: the short form of the date, or
/// nothing where there is no date.
pub open spec fn shown_text(parsed: Option<Date>) -> Seq<char> {
    match parsed {
        Some(d) => short_text(d),
        None => Seq::empty(),
    }
}

/// Renders a parsed date for display.
pub fn display_date(parsed: Option<Date>) -> (s: String)
    requires
        parsed matches Some(d) ==> d.is_valid(),
    ensures
        s@ == shown_text(parsed),
{
    match parsed {
        Some(d) => format_dmy(&d),
        None => String::new(),
    }
}

/// Renders a stored date for display: a value that is text holding a date
/// is shown in the short form, anything else as the empty string.
pub fn format_date(value: Option<&str>) -> (s: String)
    ensures
        s@ == match value {
            Some(text) => shown_text(parsed_ymd(text@)),
            None => Seq::empty(),
        },
{
    match value {
        Some(text) => match parse_ymd(text) {
            Ok(d) => display_date(Some(d)),
            Err(_) => display_date(None),
        },
        None => String::new(),
    }
}

} // verus!
