//! One person's table of daily records, and the reading of a record from a
//! row of cells.
//!
//! A row has a fixed layout: the date in column 0, the six category scores
//! in columns 1 to 6, the day's total in column 7 and its percentage in
//! column 8. A shorter row leaves the missing fields as they are before
//! anything is entered; a longer row is faulty.

pub mod entities;
pub mod error;

use vstd::prelude::*;
use crate::calendar::{parse_date_text, parsed_date, Date, DateErrorKind};
use crate::number::Number;
use crate::sheets::CellData;
use crate::text::{chars_of, lemma_parse_int_in_range, parse_i32, parse_int, same_text};
use self::entities::{Percentage, Person, Scores};
use self::error::{Empty, InvalidCell, ParseError, ScoreTableRecordError};

verus! {

/// How a date cell writes its date: day, month and year with dots between.
pub const DATE_FORMAT: &'static str = "%d.%m.%Y";

/// The declared kind of a cell that holds a date.
pub const DATE_TYPE: &'static str = "DATE";

/// The character that ends a percentage.
pub const PERCENT_SIGN: char = '%';

/// Said of a date cell whose format has no number format.
pub const DATE_WITHOUT_NUMBER_FORMAT: &'static str = "date cell should have NumberFormat";

/// Said of a date cell that is not declared as a date.
pub const DATE_OF_OTHER_TYPE: &'static str = "google API cell type is other than DATE";

/// Said of a date cell without text.
pub const DATE_WITHOUT_TEXT: &'static str = "can't be empty formatted value for date";

/// Said of a percentage that lacks its sign.
pub const PERCENT_WITHOUT_SIGN: &'static str = "percent cell should end up with %";

/// Column of the date.
pub const DATE_COLUMN: usize = 0;

/// Column of the day's total.
pub const TOTAL_COLUMN: usize = 7;

/// Column of the day's percentage.
pub const PERCENT_COLUMN: usize = 8;

/// What a date cell gives once its text has been read as `outcome`.
pub open spec fn date_of_outcome(outcome: Result<Date, DateErrorKind>) -> Result<
    Date,
    ScoreTableRecordError,
> {
    match outcome {
        Ok(date) => Ok(date),
        Err(kind) => Err(ScoreTableRecordError::ParseError(ParseError::DateParseError(kind))),
    }
}

/// The date that a cell of the date column holds. The cell must have a
/// format with a number format of the kind `DATE`, and a text that reads as
/// day.month.year.
pub open spec fn date_of_cell(cell: CellData) -> Result<Date, ScoreTableRecordError> {
    match cell.effective_format {
        None => Err(ScoreTableRecordError::Empty(Empty::EmptyEffectiveFormat(DATE_COLUMN))),
        Some(format) => match format.number_format {
            None => Err(
                ScoreTableRecordError::InvalidCell(
                    InvalidCell::InvalidDateCell(DATE_WITHOUT_NUMBER_FORMAT),
                ),
            ),
            Some(number_format) => if number_format.type_ matches Some(kind) && kind@
                == DATE_TYPE@ {
                match cell.formatted_value {
                    None => Err(
                        ScoreTableRecordError::InvalidCell(
                            InvalidCell::InvalidDateCell(DATE_WITHOUT_TEXT),
                        ),
                    ),
                    Some(text) => date_of_outcome(parsed_date(text@, DATE_FORMAT@)),
                }
            } else {
                Err(
                    ScoreTableRecordError::InvalidCell(
                        InvalidCell::InvalidDateCell(DATE_OF_OTHER_TYPE),
                    ),
                )
            },
        },
    }
}

/// The number that a cell with text stands for: the one that the text
/// writes, or else the one under the text.
pub open spec fn number_of_cell(cell: CellData) -> Option<Number> {
    match cell.formatted_number {
        Some(number) => Some(number),
        None => match cell.effective_value {
            Some(value) => value.number_value,
            None => None,
        },
    }
}

/// The score that the cell in column `index` holds: nothing entered where
/// the cell has no text; else the number that the text writes; else the
/// number under the text; else the cell is faulty.
pub open spec fn score_of_cell(cell: CellData, index: usize) -> Result<
    Number,
    ScoreTableRecordError,
> {
    if cell.formatted_value is None {
        Ok(Number::zero())
    } else {
        match number_of_cell(cell) {
            Some(number) => Ok(number),
            None => Err(ScoreTableRecordError::ParseError(ParseError::ScoreParseError(index))),
        }
    }
}

/// The percentage that a text writes: a whole number followed by the
/// percent sign.
pub open spec fn percent_of_text(text: Seq<char>) -> Result<Percentage, ScoreTableRecordError> {
    if text.len() == 0 || text.last() != PERCENT_SIGN {
        Err(
            ScoreTableRecordError::InvalidCell(
                InvalidCell::InvalidPercentCell(PERCENT_WITHOUT_SIGN),
            ),
        )
    } else {
        match parse_int(text.drop_last()) {
            Ok(value) => Ok(Percentage { value: value as i32 }),
            Err(kind) => Err(
                ScoreTableRecordError::ParseError(ParseError::PercentParseError(kind)),
            ),
        }
    }
}

/// The percentage that a cell holds: zero where the cell has no text.
pub open spec fn percent_of_cell(cell: CellData) -> Result<Percentage, ScoreTableRecordError> {
    match cell.formatted_value {
        None => Ok(Percentage { value: 0 }),
        Some(text) => percent_of_text(text@),
    }
}

/// What is wrong with `cell` as the cell of column `index`, if anything.
pub open spec fn cell_error(index: int, cell: CellData) -> Option<ScoreTableRecordError> {
    if index == DATE_COLUMN {
        match date_of_cell(cell) {
            Ok(_) => None,
            Err(error) => Some(error),
        }
    } else if index <= TOTAL_COLUMN {
        match score_of_cell(cell, index as usize) {
            Ok(_) => None,
            Err(error) => Some(error),
        }
    } else if index == PERCENT_COLUMN {
        match percent_of_cell(cell) {
            Ok(_) => None,
            Err(error) => Some(error),
        }
    } else {
        Some(ScoreTableRecordError::UnexpectedFieldIndex(index as usize))
    }
}

/// The fault of the first faulty cell of `row` at or behind column `from`.
pub open spec fn first_error(row: Seq<CellData>, from: int) -> Option<ScoreTableRecordError>
    decreases row.len() - from,
{
    if from < 0 || from >= row.len() {
        None
    } else {
        match cell_error(from, row[from]) {
            Some(error) => Some(error),
            None => first_error(row, from + 1),
        }
    }
}

/// The score in column `column` of `row`; nothing entered where the row is
/// too short.
pub open spec fn score_at(row: Seq<CellData>, column: int) -> Number {
    if 0 <= column < row.len() {
        match score_of_cell(row[column], column as usize) {
            Ok(number) => number,
            Err(_) => Number::zero(),
        }
    } else {
        Number::zero()
    }
}

/// The date in the date column of `row`; the epoch where the row is empty.
pub open spec fn date_at(row: Seq<CellData>) -> Date {
    if row.len() > DATE_COLUMN {
        match date_of_cell(row[DATE_COLUMN as int]) {
            Ok(date) => date,
            Err(_) => Date::epoch(),
        }
    } else {
        Date::epoch()
    }
}

/// The percentage in the percentage column of `row`; zero where the row is
/// too short.
pub open spec fn percent_at(row: Seq<CellData>) -> Percentage {
    if row.len() > PERCENT_COLUMN {
        match percent_of_cell(row[PERCENT_COLUMN as int]) {
            Ok(percent) => percent,
            Err(_) => Percentage { value: 0 },
        }
    } else {
        Percentage { value: 0 }
    }
}

/// The record that the cells of a faultless `row` hold.
pub open spec fn record_of_cells(row: Seq<CellData>) -> ScoreTableRecord {
    ScoreTableRecord {
        date: date_at(row),
        scores: Scores {
            sport: score_at(row, 1),
            professional_growth: score_at(row, 2),
            health: score_at(row, 3),
            spiritual_growth: score_at(row, 4),
            foreign_language: score_at(row, 5),
            personal_dev: score_at(row, 6),
        },
        total_score: score_at(row, TOTAL_COLUMN as int),
        percent: percent_at(row),
    }
}

/// What a row gives: the fault of its first faulty cell, or else its record.
pub open spec fn record_of_row(row: Seq<CellData>) -> Result<
    ScoreTableRecord,
    ScoreTableRecordError,
> {
    match first_error(row, 0) {
        Some(error) => Err(error),
        None => Ok(record_of_cells(row)),
    }
}

/// Whether `cell` is as column `index` wants it: a date cell of the kind
/// `DATE` whose text reads as a date; a score cell without text, with a
/// text that writes a number, or with a number under its text; a percentage
/// cell without text or with a whole number and a percent sign.
pub open spec fn cell_fits_column(index: int, cell: CellData) -> bool {
    if index == DATE_COLUMN {
        &&& cell.effective_format matches Some(format)
        &&& format.number_format matches Some(number_format)
        &&& number_format.type_ matches Some(kind)
        &&& kind@ == DATE_TYPE@
        &&& cell.formatted_value matches Some(text)
        &&& parsed_date(text@, DATE_FORMAT@) is Ok
    } else if index <= TOTAL_COLUMN {
        ||| cell.formatted_value is None
        ||| cell.formatted_number is Some
        ||| (cell.effective_value matches Some(value) && value.number_value is Some)
    } else if index == PERCENT_COLUMN {
        cell.formatted_value matches Some(text) ==> {
            &&& text@.len() > 0
            &&& text@.last() == PERCENT_SIGN
            &&& parse_int(text@.drop_last()) is Ok
        }
    } else {
        false
    }
}

/// A row is well formed when it has no cell beyond the last column and
/// every cell is as its column wants it.
pub open spec fn well_formed_row(row: Seq<CellData>) -> bool {
    forall|index: int| 0 <= index < row.len() ==> cell_fits_column(index, #[trigger] row[index])
}

proof fn lemma_no_error_from(row: Seq<CellData>, from: int)
    requires
        well_formed_row(row),
        0 <= from,
    ensures
        first_error(row, from) is None,
    decreases row.len() - from,
{
    if from < row.len() {
        assert(cell_fits_column(from, row[from]));
        lemma_no_error_from(row, from + 1);
    }
}

/// Reading is total on well-formed rows: every such row gives a record, and
/// the record is the one that its cells hold.
pub proof fn lemma_well_formed_row_gives_record(row: Seq<CellData>)
    requires
        well_formed_row(row),
    ensures
        record_of_row(row) == Ok::<ScoreTableRecord, ScoreTableRecordError>(record_of_cells(row)),
{
    lemma_no_error_from(row, 0);
}

/// Reading is deterministic: whatever two readings of one row return, they
/// return the same.
pub proof fn lemma_reading_is_deterministic(
    row: Seq<CellData>,
    first: Result<ScoreTableRecord, ScoreTableRecordError>,
    second: Result<ScoreTableRecord, ScoreTableRecordError>,
)
    requires
        first == record_of_row(row),
        second == record_of_row(row),
    ensures
        first == second,
{
}

/// One day of one person: the date, the scores by category, the day's
/// total and its percentage.
#[derive(Debug, Clone, Copy, PartialEq, Eq, Structural)]
pub struct ScoreTableRecord {
    pub date: Date,
    pub scores: Scores,
    pub total_score: Number,
    pub percent: Percentage,
}

impl ScoreTableRecord {
    /// The record of a day on which nothing was entered and no date read.
    pub open spec fn empty() -> ScoreTableRecord {
        ScoreTableRecord {
            date: Date::epoch(),
            scores: Scores::empty(),
            total_score: Number::zero(),
            percent: Percentage { value: 0 },
        }
    }

    /// The day was filled in: its total is not zero.
    pub open spec fn filled(self) -> bool {
        !self.total_score.is_zero()
    }

    /// The record with these values.
    pub fn new(date: Date, scores: Scores, total_score: Number, percent: Percentage) -> (record:
        ScoreTableRecord)
        ensures
            record == (ScoreTableRecord { date, scores, total_score, percent }),
    {
        ScoreTableRecord { date, scores, total_score, percent }
    }

    /// Tells whether the day was filled in.
    pub fn has_total(&self) -> (yes: bool)
        ensures
            yes == self.filled(),
    {
        !self.total_score.equals_zero()
    }

    /// The day's percentage.
    pub fn percent(&self) -> (percent: &Percentage)
        ensures
            *percent == self.percent,
    {
        &self.percent
    }

    /// Reads a record from a row of cells.
    pub fn from_vec(row: &[CellData]) -> (out: Result<ScoreTableRecord, ScoreTableRecordError>)
        ensures
            out == record_of_row(row@),
    {
        let mut date = Date::default();
        let mut scores = Scores::default();
        let mut total_score = Scores::uninitialized_score();
        let mut percent = Percentage::from(0);
        let mut i: usize = 0;
        while i < row.len()
            invariant
                i <= row.len(),
                i <= PERCENT_COLUMN + 1,
                first_error(row@, 0) == first_error(row@, i as int),
                date == record_of_cells(row@.take(i as int)).date,
                scores == record_of_cells(row@.take(i as int)).scores,
                total_score == record_of_cells(row@.take(i as int)).total_score,
                percent == record_of_cells(row@.take(i as int)).percent,
            decreases row.len() - i,
        {
            let cell = &row[i];
            let ghost before = row@.take(i as int);
            let ghost after = row@.take(i + 1);
            proof {
                assert(after[i as int] == row@[i as int]);
                assert forall|column: int| 0 <= column < i implies after[column] == before[column]
                    && score_at(after, column) == score_at(before, column) by {}
                assert forall|column: int| column > i implies score_at(after, column)
                    == Number::zero() && score_at(before, column) == Number::zero() by {}
                assert(score_at(before, i as int) == Number::zero());
            }
            if i == DATE_COLUMN {
                match Self::parse_date(cell) {
                    Ok(value) => {
                        date = value;
                    },
                    Err(error) => {
                        return Err(error);
                    },
                }
            } else if i <= TOTAL_COLUMN {
                match Self::parse_score(cell, i) {
                    Ok(score) => {
                        if i == 1 {
                            scores.set_sport(score);
                        } else if i == 2 {
                            scores.set_professional_growth(score);
                        } else if i == 3 {
                            scores.set_health(score);
                        } else if i == 4 {
                            scores.set_spiritual_growth(score);
                        } else if i == 5 {
                            scores.set_foreign_language(score);
                        } else if i == 6 {
                            scores.set_personal_dev(score);
                        } else {
                            total_score = score;
                        }
                    },
                    Err(error) => {
                        return Err(error);
                    },
                }
            } else if i == PERCENT_COLUMN {
                match Self::parse_percentage(cell) {
                    Ok(value) => {
                        percent = value;
                    },
                    Err(error) => {
                        return Err(error);
                    },
                }
            } else {
                return Err(ScoreTableRecordError::UnexpectedFieldIndex(i));
            }
            i += 1;
        }
        assert(row@.take(i as int) =~= row@);
        Ok(ScoreTableRecord::new(date, scores, total_score, percent))
    }

    /// What a date cell gives once chrono has read its text.
    pub fn date_from_outcome(outcome: Result<Date, DateErrorKind>) -> (out: Result<
        Date,
        ScoreTableRecordError,
    >)
        ensures
            out == date_of_outcome(outcome),
    {
        match outcome {
            Ok(date) => Ok(date),
            Err(kind) => Err(ScoreTableRecordError::ParseError(ParseError::DateParseError(kind))),
        }
    }

    /// Reads the cell of the date column.
    pub fn parse_date(cell: &CellData) -> (out: Result<Date, ScoreTableRecordError>)
        ensures
            out == date_of_cell(*cell),
    {
        let format = match &cell.effective_format {
            Some(format) => format,
            None => {
                return Err(ScoreTableRecordError::Empty(Empty::EmptyEffectiveFormat(DATE_COLUMN)));
            },
        };
        let number_format = match &format.number_format {
            Some(number_format) => number_format,
            None => {
                return Err(
                    ScoreTableRecordError::InvalidCell(
                        InvalidCell::InvalidDateCell(DATE_WITHOUT_NUMBER_FORMAT),
                    ),
                );
            },
        };
        let is_date = match &number_format.type_ {
            Some(kind) => same_text(kind.as_str(), DATE_TYPE),
            None => false,
        };
        if !is_date {
            return Err(
                ScoreTableRecordError::InvalidCell(
                    InvalidCell::InvalidDateCell(DATE_OF_OTHER_TYPE),
                ),
            );
        }
        match &cell.formatted_value {
            Some(text) => Self::date_from_outcome(parse_date_text(text.as_str(), DATE_FORMAT)),
            None => Err(
                ScoreTableRecordError::InvalidCell(
                    InvalidCell::InvalidDateCell(DATE_WITHOUT_TEXT),
                ),
            ),
        }
    }

    /// Reads the percentage that `text` writes.
    pub fn percentage_from_text(text: &str) -> (out: Result<Percentage, ScoreTableRecordError>)
        ensures
            out == percent_of_text(text@),
    {
        let chars = chars_of(text);
        let n = chars.len();
        if n == 0 || chars[n - 1] != PERCENT_SIGN {
            return Err(
                ScoreTableRecordError::InvalidCell(
                    InvalidCell::InvalidPercentCell(PERCENT_WITHOUT_SIGN),
                ),
            );
        }
        proof {
            assert(text@.subrange(0, n - 1) =~= text@.drop_last());
            lemma_parse_int_in_range(text@.drop_last());
        }
        match parse_i32(text.substring_char(0, n - 1)) {
            Ok(value) => Ok(Percentage::from(value)),
            Err(kind) => Err(
                ScoreTableRecordError::ParseError(ParseError::PercentParseError(kind)),
            ),
        }
    }

    /// Reads the cell of the percentage column.
    pub fn parse_percentage(cell: &CellData) -> (out: Result<Percentage, ScoreTableRecordError>)
        ensures
            out == percent_of_cell(*cell),
    {
        match &cell.formatted_value {
            Some(text) => Self::percentage_from_text(text.as_str()),
            None => Ok(Percentage::from(0)),
        }
    }

    /// Reads a score cell, the one in column `index`.
    pub fn parse_score(cell: &CellData, index: usize) -> (out: Result<
        Number,
        ScoreTableRecordError,
    >)
        ensures
            out == score_of_cell(*cell, index),
    {
        if cell.formatted_value.is_none() {
            return Ok(Scores::uninitialized_score());
        }
        if let Some(number) = cell.formatted_number {
            return Ok(number);
        }
        if let Some(value) = cell.effective_value {
            if let Some(number) = value.number_value {
                return Ok(number);
            }
        }
        Err(ScoreTableRecordError::ParseError(ParseError::ScoreParseError(index)))
    }
}

impl Default for ScoreTableRecord {
    fn default() -> (record: ScoreTableRecord)
        ensures
            record == ScoreTableRecord::empty(),
    {
        ScoreTableRecord {
            date: Date::default(),
            scores: Scores::default(),
            total_score: Scores::uninitialized_score(),
            percent: Percentage::from(0),
        }
    }
}

/// The last record of `records` that was filled in.
pub open spec fn last_filled(records: Seq<ScoreTableRecord>) -> Option<ScoreTableRecord>
    decreases records.len(),
{
    if records.len() == 0 {
        None
    } else if records.last().filled() {
        Some(records.last())
    } else {
        last_filled(records.drop_last())
    }
}

/// The last record of `records` that is dated `date`.
pub open spec fn last_dated(records: Seq<ScoreTableRecord>, date: Date) -> Option<
    ScoreTableRecord,
>
    decreases records.len(),
{
    if records.len() == 0 {
        None
    } else if records.last().date == date {
        Some(records.last())
    } else {
        last_dated(records.drop_last(), date)
    }
}

/// The last filled record is filled, and no record behind it is; none is
/// found only where no record is filled.
pub proof fn lemma_last_filled_is_last(records: Seq<ScoreTableRecord>)
    ensures
        match last_filled(records) {
            Some(record) => exists|i: int|
                {
                    &&& 0 <= i < records.len()
                    &&& #[trigger] records[i] == record
                    &&& record.filled()
                    &&& forall|j: int| i < j < records.len() ==> !(#[trigger] records[j]).filled()
                },
            None => forall|i: int| 0 <= i < records.len() ==> !(#[trigger] records[i]).filled(),
        },
    decreases records.len(),
{
    if records.len() > 0 {
        if records.last().filled() {
            assert(records[records.len() - 1] == records.last());
        } else {
            let front = records.drop_last();
            lemma_last_filled_is_last(front);
            match last_filled(front) {
                Some(record) => {
                    let i = choose|i: int|
                        {
                            &&& 0 <= i < front.len()
                            &&& #[trigger] front[i] == record
                            &&& record.filled()
                            &&& forall|j: int|
                                i < j < front.len() ==> !(#[trigger] front[j]).filled()
                        };
                    assert(records[i] == record);
                    assert forall|j: int| i < j < records.len() implies !(
                    #[trigger] records[j]).filled() by {
                        if j < front.len() {
                            assert(front[j] == records[j]);
                        }
                    }
                },
                None => {
                    assert forall|i: int| 0 <= i < records.len() implies !(
                    #[trigger] records[i]).filled() by {
                        if i < front.len() {
                            assert(front[i] == records[i]);
                        }
                    }
                },
            }
        }
    }
}

/// The last record of a date has that date, and no record behind it has;
/// none is found only where no record has the date.
pub proof fn lemma_last_dated_is_last(records: Seq<ScoreTableRecord>, date: Date)
    ensures
        match last_dated(records, date) {
            Some(record) => exists|i: int|
                {
                    &&& 0 <= i < records.len()
                    &&& #[trigger] records[i] == record
                    &&& record.date == date
                    &&& forall|j: int| i < j < records.len() ==> (#[trigger] records[j]).date != date
                },
            None => forall|i: int| 0 <= i < records.len() ==> (#[trigger] records[i]).date != date,
        },
    decreases records.len(),
{
    if records.len() > 0 {
        if records.last().date == date {
            assert(records[records.len() - 1] == records.last());
        } else {
            let front = records.drop_last();
            lemma_last_dated_is_last(front, date);
            match last_dated(front, date) {
                Some(record) => {
                    let i = choose|i: int|
                        {
                            &&& 0 <= i < front.len()
                            &&& #[trigger] front[i] == record
                            &&& record.date == date
                            &&& forall|j: int|
                                i < j < front.len() ==> (#[trigger] front[j]).date != date
                        };
                    assert(records[i] == record);
                    assert forall|j: int| i < j < records.len() implies (
                    #[trigger] records[j]).date != date by {
                        if j < front.len() {
                            assert(front[j] == records[j]);
                        }
                    }
                },
                None => {
                    assert forall|i: int| 0 <= i < records.len() implies (
                    #[trigger] records[i]).date != date by {
                        if i < front.len() {
                            assert(front[i] == records[i]);
                        }
                    }
                },
            }
        }
    }
}

/// The record of the day `date` in `records`, if the day was filled in: the
/// last record with this date, provided that it has a total.
pub open spec fn filled_on(records: Seq<ScoreTableRecord>, date: Date) -> Option<
    ScoreTableRecord,
> {
    match last_dated(records, date) {
        Some(record) => if record.filled() {
            Some(record)
        } else {
            None
        },
        None => None,
    }
}

/// A score table as a value: whose it is, and its records in the order in
/// which they were read.
pub struct ScoreTableView {
    pub person: Seq<char>,
    pub table: Seq<ScoreTableRecord>,
}

/// The values of `tables`, in order.
pub open spec fn table_views(tables: Seq<ScoreTable>) -> Seq<ScoreTableView> {
    Seq::new(tables.len(), |i: int| tables[i]@)
}

/// One person's records, in the order in which they were read.
#[derive(Debug)]
pub struct ScoreTable {
    person: Person,
    table: Vec<ScoreTableRecord>,
}

impl View for ScoreTable {
    type V = ScoreTableView;

    closed spec fn view(&self) -> ScoreTableView {
        ScoreTableView { person: self.person@, table: self.table@ }
    }
}

impl ScoreTable {
    /// The table of `person` with these records.
    pub fn new(person: Person, table: Vec<ScoreTableRecord>) -> (score_table: ScoreTable)
        ensures
            score_table@ == (ScoreTableView { person: person@, table: table@ }),
    {
        ScoreTable { person, table }
    }

    /// Whose table it is.
    pub fn person(&self) -> (person: &Person)
        ensures
            person@ == self@.person,
    {
        &self.person
    }

    /// The records, in the order in which they were read.
    pub fn records(&self) -> (records: &Vec<ScoreTableRecord>)
        ensures
            records@ == self@.table,
    {
        &self.table
    }

    /// The record that was read last.
    pub fn last_record(&self) -> (out: Option<&ScoreTableRecord>)
        ensures
            match out {
                Some(record) => self@.table.len() > 0 && *record == self@.table.last(),
                None => self@.table.len() == 0,
            },
    {
        let n = self.table.len();
        if n == 0 {
            None
        } else {
            Some(&self.table[n - 1])
        }
    }

    /// The last record that was filled in.
    pub fn last_filled_record(&self) -> (out: Option<&ScoreTableRecord>)
        ensures
            match out {
                Some(record) => last_filled(self@.table) == Some(*record),
                None => last_filled(self@.table) is None,
            },
    {
        let mut i: usize = self.table.len();
        assert(self.table@.take(i as int) =~= self.table@);
        while i > 0
            invariant
                i <= self.table.len(),
                last_filled(self.table@) == last_filled(self.table@.take(i as int)),
            decreases i,
        {
            let ghost front = self.table@.take(i as int);
            assert(front.last() == self.table@[i - 1]);
            assert(front.drop_last() =~= self.table@.take(i - 1));
            if self.table[i - 1].has_total() {
                return Some(&self.table[i - 1]);
            }
            i -= 1;
        }
        assert(self.table@.take(0).len() == 0);
        None
    }

    /// The last record that is dated `date`.
    pub fn by_date(&self, date: &Date) -> (out: Option<&ScoreTableRecord>)
        ensures
            match out {
                Some(record) => last_dated(self@.table, *date) == Some(*record),
                None => last_dated(self@.table, *date) is None,
            },
    {
        let mut i: usize = self.table.len();
        assert(self.table@.take(i as int) =~= self.table@);
        while i > 0
            invariant
                i <= self.table.len(),
                last_dated(self.table@, *date) == last_dated(self.table@.take(i as int), *date),
            decreases i,
        {
            let ghost front = self.table@.take(i as int);
            assert(front.last() == self.table@[i - 1]);
            assert(front.drop_last() =~= self.table@.take(i - 1));
            if self.table[i - 1].date == *date {
                return Some(&self.table[i - 1]);
            }
            i -= 1;
        }
        assert(self.table@.take(0).len() == 0);
        None
    }
}

} // verus!
