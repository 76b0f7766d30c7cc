//! Calendar dates as plain numbers, and the reading of a date from text.

use chrono::format::ParseErrorKind;
use chrono::{Datelike, NaiveDate, Utc};
use vstd::prelude::*;
use vstd::string::StringExecFns;
use crate::text::{four_digits, push_four_digits, push_two_digits, two_digits};

verus! {

/// A day of the calendar: year, month and day of the month as numbers.
#[derive(Debug, Clone, Copy, PartialEq, Eq, Structural, Hash)]
pub struct Date {
    pub year: i32,
    pub month: u32,
    pub day: u32,
}

impl Date {
    /// The month is one of the twelve, and the day number is one that a
    /// month can have.
    pub open spec fn in_range(self) -> bool {
        1 <= self.month <= 12 && 1 <= self.day <= 31
    }

    /// The first day of 1970, which stands where no date was read.
    pub open spec fn epoch() -> Date {
        Date { year: 1970, month: 1, day: 1 }
    }

    /// The date with these numbers, if month and day are in range.
    pub fn new(year: i32, month: u32, day: u32) -> (date: Option<Date>)
        ensures
            date == if (Date { year, month, day }).in_range() {
                Some(Date { year, month, day })
            } else {
                None
            },
    {
        if 1 <= month && month <= 12 && 1 <= day && day <= 31 {
            Some(Date { year, month, day })
        } else {
            None
        }
    }

    /// Tells whether month and day are in range.
    pub fn is_in_range(&self) -> (yes: bool)
        ensures
            yes == self.in_range(),
    {
        1 <= self.month && self.month <= 12 && 1 <= self.day && self.day <= 31
    }
}

/// The year as it stands in a written date: four digits for the years 0 to
/// 9999, else a sign and at least four digits.
pub open spec fn year_text(year: int) -> Seq<char> {
    if 0 <= year <= 9999 {
        four_digits(year as nat)
    } else if year > 9999 {
        seq!['+'] + four_digits(year as nat)
    } else {
        seq!['-'] + four_digits((-year) as nat)
    }
}

/// A date written as day.month.year.
pub open spec fn dmy_text(date: Date) -> Seq<char> {
    two_digits(date.day as nat) + seq!['.'] + two_digits(date.month as nat) + seq!['.']
        + year_text(date.year as int)
}

impl Date {
    /// The date written as day.month.year, such as `01.03.2024`.
    pub fn to_dmy(&self) -> (text: String)
        ensures
            text@ == dmy_text(*self),
    {
        proof {
            reveal_strlit(".");
            reveal_strlit("+");
            reveal_strlit("-");
            assert("."@ =~= seq!['.']);
            assert("+"@ =~= seq!['+']);
            assert("-"@ =~= seq!['-']);
        }
        let mut text = String::new();
        push_two_digits(&mut text, self.day);
        text.append(".");
        push_two_digits(&mut text, self.month);
        text.append(".");
        let ghost front = text@;
        if 0 <= self.year && self.year <= 9999 {
            push_four_digits(&mut text, self.year as u32);
        } else if self.year > 9999 {
            text.append("+");
            push_four_digits(&mut text, self.year as u32);
        } else {
            text.append("-");
            let magnitude: i64 = -(self.year as i64);
            push_four_digits(&mut text, magnitude as u32);
        }
        assert(text@ =~= front + year_text(self.year as int));
        assert(front =~= two_digits(self.day as nat) + seq!['.'] + two_digits(self.month as nat)
            + seq!['.']);
        text
    }
}

impl Default for Date {
    fn default() -> (date: Date)
        ensures
            date == Date::epoch(),
    {
        Date { year: 1970, month: 1, day: 1 }
    }
}

/// Why a text could not be read as a date.
#[derive(Debug, Clone, Copy, PartialEq, Eq, Structural, Hash)]
pub enum DateErrorKind {
    /// A field is outside its permitted range.
    OutOfRange,
    /// No date has the given fields.
    Impossible,
    /// The fields do not determine a date.
    NotEnough,
    /// The text has characters that the format does not allow.
    Invalid,
    /// The text ended too early.
    TooShort,
    /// Text is left over behind the date.
    TooLong,
    /// The format itself is faulty.
    BadFormat,
}

/// What chrono makes of `text` when it reads it by the strftime-like
/// `format`: the date, or the kind of its parse error.
pub uninterp spec fn parsed_date(text: Seq<char>, format: Seq<char>) -> Result<Date, DateErrorKind>;

/// Reads a date with `chrono::NaiveDate::parse_from_str`.
///
/// Trusted: the result is chrono's answer for `text` and `format`, with the
/// date given by its year, month and day numbers and the error by its kind
/// (a kind that chrono does not document is passed on as `BadFormat`). Of a
/// date that chrono returns, the month lies in 1..=12 and the day in 1..=31,
/// as `chrono::Datelike` documents for `month` and `day`.
#[verifier::external_body]
pub(crate) fn parse_date_text(text: &str, format: &str) -> (out: Result<Date, DateErrorKind>)
    ensures
        out == parsed_date(text@, format@),
        out matches Ok(date) ==> date.in_range(),
{
    match NaiveDate::parse_from_str(text, format) {
        Ok(d) => Ok(Date { year: d.year(), month: d.month(), day: d.day() }),
        Err(e) => Err(match e.kind() {
            ParseErrorKind::OutOfRange => DateErrorKind::OutOfRange,
            ParseErrorKind::Impossible => DateErrorKind::Impossible,
            ParseErrorKind::NotEnough => DateErrorKind::NotEnough,
            ParseErrorKind::Invalid => DateErrorKind::Invalid,
            ParseErrorKind::TooShort => DateErrorKind::TooShort,
            ParseErrorKind::TooLong => DateErrorKind::TooLong,
            _ => DateErrorKind::BadFormat,
        }),
    }
}

/// Reads the clock with `chrono::Utc::now` and gives the day that it shows
/// in universal time.
///
/// Trusted: whatever the clock shows, the month lies in 1..=12 and the day
/// in 1..=31, as `chrono::Datelike` documents for `month` and `day`.
#[verifier::external_body]
pub(crate) fn current_date_utc() -> (today: Date)
    ensures
        today.in_range(),
{
    let now = Utc::now().date_naive();
    Date { year: now.year(), month: now.month(), day: now.day() }
}

} // verus!
