//! What can be wrong with a fetched spreadsheet.

use vstd::prelude::*;
use crate::dashboard::score_table::error::ScoreTableRecordError;

verus! {

/// A part of the answer is missing, or is not of the expected shape.
#[derive(Debug)]
pub enum InvalidFetchedData {
    /// The answer lists no sheets.
    EmptySheets,
    /// The sheet has no grid.
    EmptyGridData,
    /// The grid has no rows.
    EmptyRowData,
    /// A row has no cells.
    EmptyCellData,
    /// A cell has no text.
    EmptyFormattedValue,
    /// The cell that names a person is empty: no table starts here.
    EmptyPersonNameCell,
    /// The answer holds another number of sheets than the one asked for.
    InvalidVectorSize,
    /// No sheet has the title of the current period.
    NotFoundSheetId(String),
}

/// `InvalidFetchedData` as a value.
pub enum InvalidFetchedDataView {
    EmptySheets,
    EmptyGridData,
    EmptyRowData,
    EmptyCellData,
    EmptyFormattedValue,
    EmptyPersonNameCell,
    InvalidVectorSize,
    NotFoundSheetId(Seq<char>),
}

impl View for InvalidFetchedData {
    type V = InvalidFetchedDataView;

    open spec fn view(&self) -> InvalidFetchedDataView {
        match self {
            InvalidFetchedData::EmptySheets => InvalidFetchedDataView::EmptySheets,
            InvalidFetchedData::EmptyGridData => InvalidFetchedDataView::EmptyGridData,
            InvalidFetchedData::EmptyRowData => InvalidFetchedDataView::EmptyRowData,
            InvalidFetchedData::EmptyCellData => InvalidFetchedDataView::EmptyCellData,
            InvalidFetchedData::EmptyFormattedValue => InvalidFetchedDataView::EmptyFormattedValue,
            InvalidFetchedData::EmptyPersonNameCell => InvalidFetchedDataView::EmptyPersonNameCell,
            InvalidFetchedData::InvalidVectorSize => InvalidFetchedDataView::InvalidVectorSize,
            InvalidFetchedData::NotFoundSheetId(title) => InvalidFetchedDataView::NotFoundSheetId(
                title@,
            ),
        }
    }
}

/// Why reading the spreadsheet gave no dashboard.
#[derive(Debug)]
pub enum AsyncSheetsHubError {
    /// A row of scores is faulty.
    ScoreTableRecordError(ScoreTableRecordError),
    /// The answer is not of the expected shape.
    InvalidFetchedData(InvalidFetchedData),
    Unknown(&'static str),
}

/// `AsyncSheetsHubError` as a value.
pub enum AsyncSheetsHubErrorView {
    ScoreTableRecordError(ScoreTableRecordError),
    InvalidFetchedData(InvalidFetchedDataView),
    Unknown(&'static str),
}

impl View for AsyncSheetsHubError {
    type V = AsyncSheetsHubErrorView;

    open spec fn view(&self) -> AsyncSheetsHubErrorView {
        match self {
            AsyncSheetsHubError::ScoreTableRecordError(error) => {
                AsyncSheetsHubErrorView::ScoreTableRecordError(*error)
            },
            AsyncSheetsHubError::InvalidFetchedData(data) => {
                AsyncSheetsHubErrorView::InvalidFetchedData(data@)
            },
            AsyncSheetsHubError::Unknown(message) => AsyncSheetsHubErrorView::Unknown(*message),
        }
    }
}

} // verus!
