//! What can be wrong with a row of scores.

use vstd::prelude::*;
use crate::calendar::DateErrorKind;
use crate::text::IntErrorKind;

verus! {

/// A cell's text could not be read.
#[derive(Debug, Clone, Copy, PartialEq, Eq)]
pub enum ParseError {
    /// The date is not written as day.month.year.
    DateParseError(DateErrorKind),
    /// The cell at this index holds no number.
    ScoreParseError(usize),
    /// The percentage is no whole number.
    PercentParseError(IntErrorKind),
}

/// A cell is not of the kind that its column asks for.
#[derive(Debug, Clone, Copy, PartialEq, Eq)]
pub enum InvalidCell {
    InvalidDateCell(&'static str),
    InvalidPercentCell(&'static str),
}

/// A part of a cell is missing.
#[derive(Debug, Clone, Copy, PartialEq, Eq)]
pub enum Empty {
    /// The cell at this index has no format.
    EmptyEffectiveFormat(usize),
    /// The cell at this index has no text.
    EmptyFormattedValue(usize),
}

/// Why a row gave no record.
#[derive(Debug, Clone, Copy, PartialEq, Eq)]
pub enum ScoreTableRecordError {
    /// The row has a cell at an index that no column has.
    UnexpectedFieldIndex(usize),
    ParseError(ParseError),
    InvalidCell(InvalidCell),
    Empty(Empty),
    Unknown(&'static str),
}

} // verus!
