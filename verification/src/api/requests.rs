//! The window of cells that the next query asks for.

use vstd::prelude::*;

verus! {

/// Number of columns between the blocks of two neighbouring persons.
pub const COLUMN_OFFSET: i32 = 10;

/// Column at which the first person's block starts.
pub const INITIAL_START_COLUMN_INDEX: i32 = 1;

/// Column at which the first person's block ends.
pub const INITIAL_END_COLUMN_INDEX: i32 = 10;

/// First row of every block.
pub const INITIAL_START_ROW_INDEX: i32 = 3;

/// Row at which every block ends.
pub const INITIAL_END_ROW_INDEX: i32 = 35;

/// A rectangle of cells on one sheet, as mathematical integers.
pub struct Window {
    pub start_column_index: int,
    pub end_column_index: int,
    pub start_row_index: int,
    pub end_row_index: int,
    pub sheet_id: int,
    pub include_grid_data: bool,
}

impl Window {
    /// The window of the first block on sheet `sheet_id`.
    pub open spec fn initial(sheet_id: int, include_grid_data: bool) -> Window {
        Window {
            start_column_index: INITIAL_START_COLUMN_INDEX as int,
            end_column_index: INITIAL_END_COLUMN_INDEX as int,
            start_row_index: INITIAL_START_ROW_INDEX as int,
            end_row_index: INITIAL_END_ROW_INDEX as int,
            sheet_id,
            include_grid_data,
        }
    }

    /// The window moved right by `columns` columns; rows stay.
    pub open spec fn shifted(self, columns: int) -> Window {
        Window {
            start_column_index: self.start_column_index + columns,
            end_column_index: self.end_column_index + columns,
            ..self
        }
    }

    /// Whether the columns of the next block can still be numbered in 32
    /// bits.
    pub open spec fn can_advance(self) -> bool {
        &&& self.start_column_index + COLUMN_OFFSET <= i32::MAX
        &&& self.end_column_index + COLUMN_OFFSET <= i32::MAX
    }

    /// The window of the next block.
    pub open spec fn next(self) -> Window {
        self.shifted(COLUMN_OFFSET as int)
    }

    /// The window after `steps` moves to the next block.
    pub open spec fn advanced(self, steps: nat) -> Window
        decreases steps,
    {
        if steps == 0 {
            self
        } else {
            self.advanced((steps - 1) as nat).next()
        }
    }
}

/// Moving to the next block `steps` times shifts both column bounds by
/// `steps * COLUMN_OFFSET` and changes nothing else: the row bounds, the
/// sheet and the grid-data flag stay as they were.
pub proof fn lemma_advanced_shifts_columns(window: Window, steps: nat)
    ensures
        window.advanced(steps) == window.shifted(steps * COLUMN_OFFSET),
        window.advanced(steps).start_row_index == window.start_row_index,
        window.advanced(steps).end_row_index == window.end_row_index,
    decreases steps,
{
    if steps > 0 {
        lemma_advanced_shifts_columns(window, (steps - 1) as nat);
        assert((steps - 1) * COLUMN_OFFSET + COLUMN_OFFSET == steps * COLUMN_OFFSET) by (nonlinear_arith);
    }
}

/// Each move to the next block strictly increases both column bounds.
pub proof fn lemma_advanced_strictly_monotonic(window: Window, fewer: nat, more: nat)
    requires
        fewer < more,
    ensures
        window.advanced(fewer).start_column_index < window.advanced(more).start_column_index,
        window.advanced(fewer).end_column_index < window.advanced(more).end_column_index,
{
    lemma_advanced_shifts_columns(window, fewer);
    lemma_advanced_shifts_columns(window, more);
    assert(fewer * COLUMN_OFFSET < more * COLUMN_OFFSET) by (nonlinear_arith)
        requires
            fewer < more,
    ;
}

/// The rectangle of a query, as the remote service takes it.
#[derive(Debug, Clone, Copy, PartialEq, Eq, Structural)]
pub struct GridRange {
    pub end_column_index: i32,
    pub end_row_index: i32,
    pub sheet_id: i32,
    pub start_column_index: i32,
    pub start_row_index: i32,
}

/// A finished query: one rectangle, and whether the cells' underlying values
/// are wanted besides their text.
#[derive(Debug, Clone, Copy, PartialEq, Eq, Structural)]
pub struct DataFilterRequest {
    pub grid_range: GridRange,
    pub include_grid_data: bool,
}

impl DataFilterRequest {
    /// The window that the query asks for.
    pub open spec fn window(self) -> Window {
        Window {
            start_column_index: self.grid_range.start_column_index as int,
            end_column_index: self.grid_range.end_column_index as int,
            start_row_index: self.grid_range.start_row_index as int,
            end_row_index: self.grid_range.end_row_index as int,
            sheet_id: self.grid_range.sheet_id as int,
            include_grid_data: self.include_grid_data,
        }
    }
}

/// Builds queries for one sheet of the spreadsheet.
pub struct RequestFactory {
    sheet_id: i32,
}

impl RequestFactory {
    /// The sheet that the factory's queries go to.
    pub closed spec fn sheet(&self) -> i32 {
        self.sheet_id
    }

    /// A factory for the sheet with this number.
    pub fn new(sheet_id: i32) -> (factory: Self)
        ensures
            factory.sheet() == sheet_id,
    {
        RequestFactory { sheet_id }
    }

    /// The query for the first person's block.
    pub fn construct_score_table_request(&self, include_grid_data: bool) -> (request:
        ScoreTableRequest)
        ensures
            request@ == Window::initial(self.sheet() as int, include_grid_data),
    {
        ScoreTableRequest::new(self.sheet_id, include_grid_data)
    }
}

/// The cursor of the reading loop: the window of the block to read next.
#[derive(Debug)]
pub struct ScoreTableRequest {
    start_column_index: i32,
    end_column_index: i32,
    start_row_index: i32,
    end_row_index: i32,
    sheet_id: i32,
    include_grid_data: bool,
}

impl View for ScoreTableRequest {
    type V = Window;

    closed spec fn view(&self) -> Window {
        Window {
            start_column_index: self.start_column_index as int,
            end_column_index: self.end_column_index as int,
            start_row_index: self.start_row_index as int,
            end_row_index: self.end_row_index as int,
            sheet_id: self.sheet_id as int,
            include_grid_data: self.include_grid_data,
        }
    }
}

impl ScoreTableRequest {
    fn new(sheet_id: i32, include_grid_data: bool) -> (request: Self)
        ensures
            request@ == Window::initial(sheet_id as int, include_grid_data),
    {
        Self {
            start_column_index: INITIAL_START_COLUMN_INDEX,
            end_column_index: INITIAL_END_COLUMN_INDEX,
            start_row_index: INITIAL_START_ROW_INDEX,
            end_row_index: INITIAL_END_ROW_INDEX,
            sheet_id,
            include_grid_data,
        }
    }

    /// Tells whether `next_table_request` may be called.
    pub fn has_next(&self) -> (yes: bool)
        ensures
            yes == self@.can_advance(),
    {
        self.start_column_index <= i32::MAX - COLUMN_OFFSET && self.end_column_index <= i32::MAX
            - COLUMN_OFFSET
    }

    /// Moves the window to the next person's block: both column bounds grow
    /// by `COLUMN_OFFSET`, everything else stays.
    pub fn next_table_request(&mut self)
        requires
            old(self)@.can_advance(),
        ensures
            final(self)@ == old(self)@.next(),
    {
        self.start_column_index += COLUMN_OFFSET;
        self.end_column_index += COLUMN_OFFSET;
    }

    /// The query for the current window.
    pub fn build(&self) -> (query: DataFilterRequest)
        ensures
            query.window() == self@,
    {
        let grid_range = GridRange {
            end_column_index: self.end_column_index,
            end_row_index: self.end_row_index,
            sheet_id: self.sheet_id,
            start_column_index: self.start_column_index,
            start_row_index: self.start_row_index,
        };
        DataFilterRequest { grid_range, include_grid_data: self.include_grid_data }
    }
}

} // verus!
