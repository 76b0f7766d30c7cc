//! A spreadsheet as the remote service answers with it: every level of the
//! answer may be absent, and the reading code has to say what it does then.

use vstd::prelude::*;
use crate::number::Number;

verus! {

/// How a cell shows a number.
#[derive(Debug, Clone, Default)]
pub struct NumberFormat {
    /// The declared kind of the cell's content, such as `DATE`.
    pub type_: Option<String>,
}

/// The format in effect for a cell.
#[derive(Debug, Clone, Default)]
pub struct CellFormat {
    pub number_format: Option<NumberFormat>,
}

/// The value that lies under a cell's text.
#[derive(Debug, Clone, Copy, Default)]
pub struct ExtendedValue {
    pub number_value: Option<Number>,
}

/// One cell.
#[derive(Debug, Clone, Default)]
pub struct CellData {
    /// The text that the cell shows.
    pub formatted_value: Option<String>,
    /// The number that `formatted_value` writes; absent where the text is
    /// absent or writes no number.
    pub formatted_number: Option<Number>,
    /// The value under the text.
    pub effective_value: Option<ExtendedValue>,
    /// The format in effect.
    pub effective_format: Option<CellFormat>,
}

/// One row of cells.
#[derive(Debug, Clone, Default)]
pub struct RowData {
    pub values: Option<Vec<CellData>>,
}

/// The rows of one queried rectangle.
#[derive(Debug, Clone, Default)]
pub struct GridData {
    pub row_data: Option<Vec<RowData>>,
}

/// What a sheet is called and numbered.
#[derive(Debug, Clone, Default)]
pub struct SheetProperties {
    pub sheet_id: Option<i32>,
    pub title: Option<String>,
}

/// One sheet of the spreadsheet.
#[derive(Debug, Clone, Default)]
pub struct Sheet {
    pub properties: Option<SheetProperties>,
    pub data: Option<Vec<GridData>>,
}

/// A whole answer of the remote service.
#[derive(Debug, Clone, Default)]
pub struct Spreadsheet {
    pub sheets: Option<Vec<Sheet>>,
}

} // verus!
