use egui_table_engine::{available_width, fixed_columns_width, handle_x, row_striped, sizing_width, sync_offset, Column};

#[test]
fn pinned_columns_width_sums_fixed_only() {
    let cols = vec![Column::initial(10).column_fixed(true), Column::remainder(), Column::initial(5).column_fixed(true)];
    assert_eq!(fixed_columns_width(&cols, &vec![40, 300, 25]), 65);
    assert_eq!(fixed_columns_width(&vec![], &vec![]), 0);
}

#[test]
fn pinned_handle_cancels_scroll() {
    assert_eq!(handle_x(120, true, 30), 150);
    assert_eq!(handle_x(120, false, 30), 120);
}

#[test]
fn offset_follows_whichever_region_moved() {
    assert_eq!(sync_offset(10, 25, 10), 25);
    assert_eq!(sync_offset(10, 10, 40), 40);
    assert_eq!(sync_offset(10, 10, 10), 10);
}

#[test]
fn available_and_sizing_width() {
    assert_eq!(available_width(500, true, 12), 488);
    assert_eq!(available_width(500, false, 12), 500);
    assert_eq!(available_width(8, true, 12), 0);
    assert_eq!(sizing_width(true, 488), 1000000);
    assert_eq!(sizing_width(false, 488), 488);
}

#[test]
fn stripes_alternate() {
    assert!(row_striped(true, 0, 0));
    assert!(!row_striped(true, 1, 0));
    assert!(row_striped(true, 1, 1));
    assert!(!row_striped(false, 0, 0));
}
