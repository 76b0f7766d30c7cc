use congratulator::api::requests::{
    DataFilterRequest, GridRange, RequestFactory, COLUMN_OFFSET, INITIAL_END_COLUMN_INDEX,
    INITIAL_END_ROW_INDEX, INITIAL_START_COLUMN_INDEX, INITIAL_START_ROW_INDEX,
};

#[test]
fn first_request_asks_for_the_first_block() {
    let request = RequestFactory::new(77).construct_score_table_request(true);
    assert_eq!(
        request.build(),
        DataFilterRequest {
            grid_range: GridRange {
                end_column_index: 10,
                end_row_index: 35,
                sheet_id: 77,
                start_column_index: 1,
                start_row_index: 3,
            },
            include_grid_data: true,
        }
    );
    assert!(!RequestFactory::new(0).construct_score_table_request(false).build().include_grid_data);
}

#[test]
fn layout_constants_are_the_known_ones() {
    assert_eq!(COLUMN_OFFSET, 10);
    assert_eq!(INITIAL_START_COLUMN_INDEX, 1);
    assert_eq!(INITIAL_END_COLUMN_INDEX, 10);
    assert_eq!(INITIAL_START_ROW_INDEX, 3);
    assert_eq!(INITIAL_END_ROW_INDEX, 35);
}

#[test]
fn next_request_moves_the_columns_only() {
    let mut request = RequestFactory::new(5).construct_score_table_request(true);
    request.next_table_request();
    let query = request.build();
    assert_eq!(query.grid_range.start_column_index, 11);
    assert_eq!(query.grid_range.end_column_index, 20);
    assert_eq!(query.grid_range.start_row_index, 3);
    assert_eq!(query.grid_range.end_row_index, 35);
    assert_eq!(query.grid_range.sheet_id, 5);
    assert!(query.include_grid_data);
}

#[test]
fn n_steps_shift_the_columns_by_n_offsets() {
    let mut request = RequestFactory::new(1).construct_score_table_request(true);
    let first = request.build();
    let mut previous = first;
    for n in 1..=1000 {
        assert!(request.has_next());
        request.next_table_request();
        let query = request.build();
        assert_eq!(query.grid_range.start_column_index, 1 + n * COLUMN_OFFSET);
        assert_eq!(query.grid_range.end_column_index, 10 + n * COLUMN_OFFSET);
        assert!(query.grid_range.start_column_index > previous.grid_range.start_column_index);
        assert!(query.grid_range.end_column_index > previous.grid_range.end_column_index);
        assert_eq!(query.grid_range.start_row_index, first.grid_range.start_row_index);
        assert_eq!(query.grid_range.end_row_index, first.grid_range.end_row_index);
        assert_eq!(query.grid_range.sheet_id, first.grid_range.sheet_id);
        previous = query;
    }
}
