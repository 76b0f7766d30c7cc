//! How often a job runs, and the wording of the summary message. The
//! helpers around the sheet's title are at hand here too.

use vstd::prelude::*;
use vstd::string::StringExecFns;
pub use crate::api::helpers::{
    derive_title_name, derive_title_name_on, get_sheet_id_by_title, Month,
};
use crate::calendar::{dmy_text, Date};
use crate::text::{decimal, push_decimal, push_two_digits, replace_char, replaced, two_digits};

verus! {

/// What separates the lines of a summary.
pub const LINE_BREAK: &'static str = "\n";

/// What marks the start of the emphasised date in a message.
pub const EMPHASIS: &'static str = "*";

/// What follows the date where nobody has filled in the day.
pub const NOBODY_FILLED: &'static str =
    "* пока еще *ни один* из участников таблицу не заполнял 😩😭";

/// The character that the message markup reserves.
pub const DOT: char = '.';

/// How a reserved dot is written.
pub const ESCAPED_DOT: &'static str = "\\.";

/// The texts of `lines`, in order.
pub open spec fn texts(lines: Seq<String>) -> Seq<Seq<char>> {
    Seq::new(lines.len(), |i: int| lines[i]@)
}

/// `lines` in one text, with `separator` between each two neighbours.
pub open spec fn joined(lines: Seq<Seq<char>>, separator: Seq<char>) -> Seq<char>
    decreases lines.len(),
{
    if lines.len() == 0 {
        Seq::empty()
    } else if lines.len() == 1 {
        lines[0]
    } else {
        joined(lines.drop_last(), separator) + separator + lines.last()
    }
}

/// Joins lines with `itertools::join`.
///
/// Trusted: the result holds the lines in order, each written as it is,
/// with `separator` between each two neighbours and nothing before the
/// first or behind the last; an empty list gives the empty text.
#[verifier::external_body]
pub(crate) fn join_lines(lines: &Vec<String>, separator: &str) -> (out: String)
    ensures
        out@ == joined(texts(lines@), separator@),
{
    itertools::join(lines, separator)
}

/// The message for the day `by_date`: the lines of the summary, one below
/// the other; or, where there is none, the sentence that nobody has filled
/// in the day, with the date's dots escaped.
pub open spec fn summary_message(summary: Seq<Seq<char>>, by_date: Date) -> Seq<char> {
    if summary.len() > 0 {
        joined(summary, LINE_BREAK@)
    } else {
        replaced(EMPHASIS@ + dmy_text(by_date) + NOBODY_FILLED@, DOT, ESCAPED_DOT@)
    }
}

/// Words the summary of the day `by_date`.
pub fn format_summary_msg(summary: &Vec<String>, by_date: &Date) -> (message: String)
    ensures
        message@ == summary_message(texts(summary@), *by_date),
{
    if summary.len() > 0 {
        join_lines(summary, LINE_BREAK)
    } else {
        let mut message = String::from_str(EMPHASIS);
        message.append(by_date.to_dmy().as_str());
        message.append(NOBODY_FILLED);
        replace_char(message.as_str(), DOT, ESCAPED_DOT)
    }
}

/// When a periodic job runs, in universal time.
#[derive(Debug, Clone, Copy, PartialEq, Eq, Structural)]
pub enum PeriodicTimeUtc {
    /// Once a day, at this hour, minute and second.
    EveryDay(u32, u32, u32),
    /// Every so many minutes.
    EveryMin(u32),
}

/// How a time of running reads in a message.
pub open spec fn time_text(time: PeriodicTimeUtc) -> Seq<char> {
    match time {
        PeriodicTimeUtc::EveryDay(h, m, s) => "ежедневно в "@ + two_digits(h as nat) + ":"@
            + two_digits(m as nat) + ":"@ + two_digits(s as nat) + " UTC"@,
        PeriodicTimeUtc::EveryMin(period) => "каждые "@ + decimal(period as nat) + " минут(ы)"@,
    }
}

impl PeriodicTimeUtc {
    /// Once a day at `h`:`m`:`s`.
    pub fn every_day_time_utc(h: u32, m: u32, s: u32) -> (time: Self)
        ensures
            time == PeriodicTimeUtc::EveryDay(h, m, s),
    {
        PeriodicTimeUtc::EveryDay(h, m, s)
    }

    /// Every `period` minutes.
    pub fn every_min_time_utc(period: u32) -> (time: Self)
        ensures
            time == PeriodicTimeUtc::EveryMin(period),
    {
        PeriodicTimeUtc::EveryMin(period)
    }

    /// The time of running as it reads in a message.
    pub fn describe(&self) -> (text: String)
        ensures
            text@ == time_text(*self),
    {
        match self {
            PeriodicTimeUtc::EveryDay(h, m, s) => {
                let mut text = String::from_str("ежедневно в ");
                push_two_digits(&mut text, *h);
                text.append(":");
                push_two_digits(&mut text, *m);
                text.append(":");
                push_two_digits(&mut text, *s);
                text.append(" UTC");
                text
            },
            PeriodicTimeUtc::EveryMin(period) => {
                let mut text = String::from_str("каждые ");
                push_decimal(&mut text, *period);
                text.append(" минут(ы)");
                text
            },
        }
    }
}

} // verus!
