//! Reading the spreadsheet: where to look next, and what the answer means.
//!
//! The persons' tables lie side by side on one sheet, each in a block of
//! the same size. A reading asks for one block after the other, from the
//! left, until it meets a block whose name cell is empty. Whoever talks to
//! the remote service asks the questions; what the answers mean is decided
//! here.

pub mod error;
pub mod helpers;
pub mod requests;

use vstd::prelude::*;
use vstd::string::StringExecFns;
use crate::dashboard::score_table::entities::Person;
use crate::dashboard::score_table::{
    record_of_row, table_views, ScoreTable, ScoreTableRecord, ScoreTableView,
};
use crate::dashboard::Dashboard;
use crate::sheets::{RowData, Spreadsheet};
use crate::text::{trim, trimmed};
use self::error::{
    AsyncSheetsHubError, AsyncSheetsHubErrorView, InvalidFetchedData, InvalidFetchedDataView,
};
use self::helpers::{get_sheet_id_by_title, sheet_id_by_title};
use self::requests::{DataFilterRequest, RequestFactory, ScoreTableRequest, Window};

verus! {

/// Said when the sheet has no column left for another block.
pub const NO_COLUMN_LEFT: &'static str = "no column is left for another table";

/// The fault of an answer that lacks `part`.
pub open spec fn missing(part: InvalidFetchedDataView) -> AsyncSheetsHubErrorView {
    AsyncSheetsHubErrorView::InvalidFetchedData(part)
}

/// The rows of a block: those of the first grid of the answer's only sheet.
pub open spec fn rows_of_block(block: Spreadsheet) -> Result<Seq<RowData>, AsyncSheetsHubErrorView> {
    match block.sheets {
        None => Err(missing(InvalidFetchedDataView::EmptySheets)),
        Some(sheets) => if sheets@.len() != 1 {
            Err(missing(InvalidFetchedDataView::InvalidVectorSize))
        } else {
            match sheets@[0].data {
                None => Err(missing(InvalidFetchedDataView::EmptyGridData)),
                Some(grids) => if grids@.len() == 0 {
                    Err(missing(InvalidFetchedDataView::EmptyGridData))
                } else {
                    match grids@[0].row_data {
                        None => Err(missing(InvalidFetchedDataView::EmptyRowData)),
                        Some(rows) => Ok(rows@),
                    }
                },
            }
        },
    }
}

/// The name that the first row of a block gives: the text of its first
/// cell without the white space around it. A first cell without text, or
/// with nothing but white space, names nobody.
pub open spec fn name_of_rows(rows: Seq<RowData>) -> Result<Seq<char>, AsyncSheetsHubErrorView> {
    if rows.len() == 0 {
        Err(missing(InvalidFetchedDataView::EmptyCellData))
    } else {
        match rows[0].values {
            None => Err(missing(InvalidFetchedDataView::EmptyCellData)),
            Some(cells) => if cells@.len() == 0 {
                Err(missing(InvalidFetchedDataView::EmptyCellData))
            } else {
                match cells@[0].formatted_value {
                    None => Err(missing(InvalidFetchedDataView::EmptyPersonNameCell)),
                    Some(text) => if trimmed(text@).len() == 0 {
                        Err(missing(InvalidFetchedDataView::EmptyPersonNameCell))
                    } else {
                        Ok(trimmed(text@))
                    },
                }
            },
        }
    }
}

/// The record of one row below the name. With `skip_parse_errors`, a
/// faulty row of cells gives the record of an empty day.
pub open spec fn record_of_values(row: RowData, skip_parse_errors: bool) -> Result<
    ScoreTableRecord,
    AsyncSheetsHubErrorView,
> {
    match row.values {
        None => Err(missing(InvalidFetchedDataView::EmptyCellData)),
        Some(cells) => match record_of_row(cells@) {
            Ok(record) => Ok(record),
            Err(error) => if skip_parse_errors {
                Ok(ScoreTableRecord::empty())
            } else {
                Err(AsyncSheetsHubErrorView::ScoreTableRecordError(error))
            },
        },
    }
}

/// The records of the rows 1 to `upto - 1`, in order, or the fault of the
/// first of these rows that has one.
pub open spec fn records_of_rows(rows: Seq<RowData>, upto: int, skip_parse_errors: bool) -> Result<
    Seq<ScoreTableRecord>,
    AsyncSheetsHubErrorView,
>
    decreases upto,
{
    if upto <= 1 || upto > rows.len() {
        Ok(Seq::empty())
    } else {
        match records_of_rows(rows, upto - 1, skip_parse_errors) {
            Err(error) => Err(error),
            Ok(front) => match record_of_values(rows[upto - 1], skip_parse_errors) {
                Err(error) => Err(error),
                Ok(record) => Ok(front.push(record)),
            },
        }
    }
}

/// The table that a block holds: the person named in its first row, with
/// the records of the rows below.
pub open spec fn table_of_block(block: Spreadsheet, skip_parse_errors: bool) -> Result<
    ScoreTableView,
    AsyncSheetsHubErrorView,
> {
    match rows_of_block(block) {
        Err(error) => Err(error),
        Ok(rows) => match name_of_rows(rows) {
            Err(error) => Err(error),
            Ok(name) => match records_of_rows(rows, rows.len() as int, skip_parse_errors) {
                Err(error) => Err(error),
                Ok(records) => Ok(ScoreTableView { person: name, table: records }),
            },
        },
    }
}

/// Whether a block marks the end of the tables: its shape is as expected,
/// and the cell that would name a person has no text, or only white space.
pub open spec fn names_nobody(block: Spreadsheet) -> bool {
    &&& rows_of_block(block) matches Ok(rows)
    &&& rows.len() > 0
    &&& rows[0].values matches Some(cells)
    &&& cells@.len() > 0
    &&& (cells@[0].formatted_value matches Some(text) ==> trimmed(text@).len() == 0)
}

proof fn lemma_fault_stays(rows: Seq<RowData>, at: int, upto: int, skip_parse_errors: bool)
    requires
        1 <= at <= upto <= rows.len(),
        records_of_rows(rows, at, skip_parse_errors) is Err,
    ensures
        records_of_rows(rows, upto, skip_parse_errors) == records_of_rows(
            rows,
            at,
            skip_parse_errors,
        ),
    decreases upto - at,
{
    if at < upto {
        lemma_fault_stays(rows, at, upto - 1, skip_parse_errors);
    }
}

/// Reads the rows of a block out of an answer.
fn block_rows(block: &Spreadsheet) -> (out: Result<&Vec<RowData>, AsyncSheetsHubError>)
    ensures
        match out {
            Ok(rows) => rows_of_block(*block) == Ok::<Seq<RowData>, AsyncSheetsHubErrorView>(rows@),
            Err(error) => rows_of_block(*block) == Err::<Seq<RowData>, AsyncSheetsHubErrorView>(
                error@,
            ),
        },
{
    let sheets = match &block.sheets {
        Some(sheets) => sheets,
        None => {
            return Err(AsyncSheetsHubError::InvalidFetchedData(InvalidFetchedData::EmptySheets));
        },
    };
    if sheets.len() != 1 {
        return Err(AsyncSheetsHubError::InvalidFetchedData(InvalidFetchedData::InvalidVectorSize));
    }
    let grids = match &sheets[0].data {
        Some(grids) => grids,
        None => {
            return Err(AsyncSheetsHubError::InvalidFetchedData(InvalidFetchedData::EmptyGridData));
        },
    };
    if grids.len() == 0 {
        return Err(AsyncSheetsHubError::InvalidFetchedData(InvalidFetchedData::EmptyGridData));
    }
    match &grids[0].row_data {
        Some(rows) => Ok(rows),
        None => Err(AsyncSheetsHubError::InvalidFetchedData(InvalidFetchedData::EmptyRowData)),
    }
}

/// Reads the person's name out of the first row of a block.
fn block_name(rows: &Vec<RowData>) -> (out: Result<String, AsyncSheetsHubError>)
    ensures
        match out {
            Ok(name) => name_of_rows(rows@) == Ok::<Seq<char>, AsyncSheetsHubErrorView>(name@),
            Err(error) => name_of_rows(rows@) == Err::<Seq<char>, AsyncSheetsHubErrorView>(error@),
        },
{
    if rows.len() == 0 {
        return Err(AsyncSheetsHubError::InvalidFetchedData(InvalidFetchedData::EmptyCellData));
    }
    let cells = match &rows[0].values {
        Some(cells) => cells,
        None => {
            return Err(AsyncSheetsHubError::InvalidFetchedData(InvalidFetchedData::EmptyCellData));
        },
    };
    if cells.len() == 0 {
        return Err(AsyncSheetsHubError::InvalidFetchedData(InvalidFetchedData::EmptyCellData));
    }
    match &cells[0].formatted_value {
        Some(text) => {
            let name = trim(text.as_str());
            if name.as_str().is_empty() {
                Err(
                    AsyncSheetsHubError::InvalidFetchedData(
                        InvalidFetchedData::EmptyPersonNameCell,
                    ),
                )
            } else {
                Ok(name)
            }
        },
        None => Err(
            AsyncSheetsHubError::InvalidFetchedData(InvalidFetchedData::EmptyPersonNameCell),
        ),
    }
}

/// Reads one person's table out of the answer to a block's query. The
/// first row names the person; every row below is one day's record. With
/// `skip_parse_errors`, a faulty row counts as an empty day instead of
/// failing the table.
pub fn read_score_table(block: &Spreadsheet, skip_parse_errors: bool) -> (out: Result<
    ScoreTable,
    AsyncSheetsHubError,
>)
    ensures
        match out {
            Ok(table) => table_of_block(*block, skip_parse_errors) == Ok::<
                ScoreTableView,
                AsyncSheetsHubErrorView,
            >(table@),
            Err(error) => table_of_block(*block, skip_parse_errors) == Err::<
                ScoreTableView,
                AsyncSheetsHubErrorView,
            >(error@),
        },
{
    let rows = match block_rows(block) {
        Ok(rows) => rows,
        Err(error) => {
            return Err(error);
        },
    };
    let name = match block_name(rows) {
        Ok(name) => name,
        Err(error) => {
            return Err(error);
        },
    };
    let person = Person::new(name);
    let mut records: Vec<ScoreTableRecord> = Vec::new();
    let mut i: usize = 1;
    while i < rows.len()
        invariant
            1 <= i <= rows.len(),
            rows_of_block(*block) == Ok::<Seq<RowData>, AsyncSheetsHubErrorView>(rows@),
            name_of_rows(rows@) == Ok::<Seq<char>, AsyncSheetsHubErrorView>(person@),
            records_of_rows(rows@, i as int, skip_parse_errors) == Ok::<
                Seq<ScoreTableRecord>,
                AsyncSheetsHubErrorView,
            >(records@),
        decreases rows.len() - i,
    {
        let cells = match &rows[i].values {
            Some(cells) => cells,
            None => {
                proof {
                    assert(records_of_rows(rows@, i + 1, skip_parse_errors) is Err);
                    lemma_fault_stays(rows@, i + 1, rows@.len() as int, skip_parse_errors);
                }
                return Err(
                    AsyncSheetsHubError::InvalidFetchedData(InvalidFetchedData::EmptyCellData),
                );
            },
        };
        let record = match ScoreTableRecord::from_vec(cells.as_slice()) {
            Ok(record) => record,
            Err(error) => {
                if skip_parse_errors {
                    ScoreTableRecord::default()
                } else {
                    proof {
                        assert(records_of_rows(rows@, i + 1, skip_parse_errors) is Err);
                        lemma_fault_stays(rows@, i + 1, rows@.len() as int, skip_parse_errors);
                    }
                    return Err(AsyncSheetsHubError::ScoreTableRecordError(error));
                }
            },
        };
        records.push(record);
        i += 1;
    }
    Ok(ScoreTable::new(person, records))
}

/// A reading in progress, as a value: the window of the block to ask for
/// next, the tables read so far, and how faulty rows are treated.
pub struct FetchView {
    pub window: Window,
    pub tables: Seq<ScoreTableView>,
    pub skip_parse_errors: bool,
}

/// How a reading goes on after an answer, as a value.
pub enum FetchProgressView {
    More(FetchView),
    Done(Option<Seq<ScoreTableView>>),
    Failed(AsyncSheetsHubErrorView),
}

/// How a reading begins: on the sheet titled `title`, at the first block,
/// with no table read.
pub open spec fn first_step(titles: Spreadsheet, title: Seq<char>, skip_parse_errors: bool) -> Result<
    FetchView,
    AsyncSheetsHubErrorView,
> {
    match titles.sheets {
        None => Err(missing(InvalidFetchedDataView::EmptySheets)),
        Some(sheets) => match sheet_id_by_title(sheets@, title) {
            None => Err(missing(InvalidFetchedDataView::NotFoundSheetId(title))),
            Some(sheet_id) => Ok(
                FetchView {
                    window: Window::initial(sheet_id as int, true),
                    tables: Seq::empty(),
                    skip_parse_errors,
                },
            ),
        },
    }
}

/// How a reading goes on after the answer `block` to the query for its
/// window: a table is kept and the window moves to the next block; a block
/// that names nobody ends the reading with the tables read so far; any
/// other fault fails the reading, and its tables are dropped.
pub open spec fn next_step(state: FetchView, block: Spreadsheet) -> FetchProgressView {
    match table_of_block(block, state.skip_parse_errors) {
        Ok(table) => if state.window.can_advance() {
            FetchProgressView::More(
                FetchView {
                    window: state.window.next(),
                    tables: state.tables.push(table),
                    skip_parse_errors: state.skip_parse_errors,
                },
            )
        } else {
            FetchProgressView::Failed(AsyncSheetsHubErrorView::Unknown(NO_COLUMN_LEFT))
        },
        Err(error) => if error == missing(InvalidFetchedDataView::EmptyPersonNameCell) {
            FetchProgressView::Done(Some(state.tables))
        } else {
            FetchProgressView::Failed(error)
        },
    }
}

/// Where a reading stands after the answers `blocks`, taken in order. Once
/// the reading is done or has failed, further answers change nothing.
pub open spec fn reading(state: FetchView, blocks: Seq<Spreadsheet>) -> FetchProgressView
    decreases blocks.len(),
{
    if blocks.len() == 0 {
        FetchProgressView::More(state)
    } else {
        match next_step(state, blocks[0]) {
            FetchProgressView::More(next) => reading(next, blocks.drop_first()),
            ended => ended,
        }
    }
}

/// A block that names nobody ends the reading with success: the dashboard
/// holds the tables read so far, all of them and no other.
pub proof fn lemma_nobody_ends_reading(state: FetchView, block: Spreadsheet)
    requires
        names_nobody(block),
    ensures
        next_step(state, block) == FetchProgressView::Done(Some(state.tables)),
{
}

/// What lies behind the block that ended a reading is never looked at: the
/// outcome is the same whatever answers follow.
pub proof fn lemma_reading_ignores_the_rest(
    state: FetchView,
    blocks: Seq<Spreadsheet>,
    rest: Seq<Spreadsheet>,
)
    requires
        !(reading(state, blocks) is More),
    ensures
        reading(state, blocks + rest) == reading(state, blocks),
    decreases blocks.len(),
{
    if blocks.len() > 0 {
        let all = blocks + rest;
        assert(all[0] == blocks[0]);
        assert(all.drop_first() =~= blocks.drop_first() + rest);
        if let FetchProgressView::More(next) = next_step(state, blocks[0]) {
            lemma_reading_ignores_the_rest(next, blocks.drop_first(), rest);
        }
    }
}

/// A reading of the dashboard in progress.
pub struct DashboardFetch {
    request: ScoreTableRequest,
    tables: Vec<ScoreTable>,
    skip_parse_errors: bool,
}

impl View for DashboardFetch {
    type V = FetchView;

    closed spec fn view(&self) -> FetchView {
        FetchView {
            window: self.request@,
            tables: table_views(self.tables@),
            skip_parse_errors: self.skip_parse_errors,
        }
    }
}

/// How a reading goes on after an answer.
pub enum FetchProgress {
    /// Another block is to be asked for.
    More(DashboardFetch),
    /// The reading is complete.
    Done(Dashboard),
    /// The reading failed; nothing of it is kept.
    Failed(AsyncSheetsHubError),
}

impl View for FetchProgress {
    type V = FetchProgressView;

    open spec fn view(&self) -> FetchProgressView {
        match self {
            FetchProgress::More(fetch) => FetchProgressView::More(fetch@),
            FetchProgress::Done(dashboard) => FetchProgressView::Done(dashboard@),
            FetchProgress::Failed(error) => FetchProgressView::Failed(error@),
        }
    }
}

impl DashboardFetch {
    /// Begins a reading. `titles` is the answer that lists the sheets of
    /// the spreadsheet, `title` the title of the sheet to read.
    pub fn start(titles: &Spreadsheet, title: &str, skip_parse_errors: bool) -> (out: Result<
        DashboardFetch,
        AsyncSheetsHubError,
    >)
        ensures
            match out {
                Ok(fetch) => first_step(*titles, title@, skip_parse_errors) == Ok::<
                    FetchView,
                    AsyncSheetsHubErrorView,
                >(fetch@),
                Err(error) => first_step(*titles, title@, skip_parse_errors) == Err::<
                    FetchView,
                    AsyncSheetsHubErrorView,
                >(error@),
            },
    {
        let sheets = match &titles.sheets {
            Some(sheets) => sheets,
            None => {
                return Err(
                    AsyncSheetsHubError::InvalidFetchedData(InvalidFetchedData::EmptySheets),
                );
            },
        };
        let sheet_id = match get_sheet_id_by_title(sheets.as_slice(), title) {
            Some(sheet_id) => sheet_id,
            None => {
                return Err(
                    AsyncSheetsHubError::InvalidFetchedData(
                        InvalidFetchedData::NotFoundSheetId(String::from_str(title)),
                    ),
                );
            },
        };
        let request = RequestFactory::new(sheet_id).construct_score_table_request(true);
        let tables: Vec<ScoreTable> = Vec::new();
        assert(table_views(tables@) =~= Seq::empty());
        Ok(DashboardFetch { request, tables, skip_parse_errors })
    }

    /// The query for the block to read next.
    pub fn query(&self) -> (query: DataFilterRequest)
        ensures
            query.window() == self@.window,
    {
        self.request.build()
    }

    /// Takes the answer to `query()` and says how the reading goes on.
    pub fn accept(self, block: &Spreadsheet) -> (out: FetchProgress)
        ensures
            out@ == next_step(self@, *block),
    {
        let mut fetch = self;
        match read_score_table(block, fetch.skip_parse_errors) {
            Ok(table) => {
                if !fetch.request.has_next() {
                    return FetchProgress::Failed(AsyncSheetsHubError::Unknown(NO_COLUMN_LEFT));
                }
                let ghost before = table_views(fetch.tables@);
                fetch.tables.push(table);
                assert(table_views(fetch.tables@) =~= before.push(table@));
                fetch.request.next_table_request();
                FetchProgress::More(fetch)
            },
            Err(AsyncSheetsHubError::InvalidFetchedData(InvalidFetchedData::EmptyPersonNameCell)) => {
                FetchProgress::Done(Dashboard::from(fetch.tables))
            },
            Err(error) => FetchProgress::Failed(error),
        }
    }
}

} // verus!
