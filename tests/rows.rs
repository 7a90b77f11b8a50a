use egui_table_engine::{
    handle_row_resize, Point, PointerState, RowResizeConfig, RowResizeState, SizeRange, UNBOUNDED,
};

#[test]
fn row_height_round_trip() {
    let mut s = RowResizeState::new();
    s.set_row_height(7, 42);
    assert_eq!(s.get_row_height(7, 20), 42);
    assert_eq!(s.get_row_height(8, 20), 20);
    s.reset_row_height(7);
    assert_eq!(s.get_row_height(7, 20), 20);
}

#[test]
fn untouched_rows_read_default() {
    let s = RowResizeState::default();
    for row in [0usize, 1, 999, usize::MAX] {
        assert_eq!(s.get_row_height(row, 20), 20);
    }
    assert!(!s.is_dragging());
    assert_eq!(s.dragging_row(), None);
}

#[test]
fn reset_all_clears_every_override() {
    let mut s = RowResizeState::new();
    s.set_row_height(1, 30);
    s.set_row_height(2, 40);
    s.reset_all();
    assert_eq!(s.get_row_height(1, 18), 18);
    assert_eq!(s.get_row_height(2, 18), 18);
}

#[test]
fn config_defaults_and_builders() {
    let d = RowResizeConfig::default();
    assert!(!d.enabled);
    assert_eq!(d.default_height, 20);
    assert_eq!(d.height_range, SizeRange::new(10, UNBOUNDED));
    assert_eq!(d.grab_radius, 5);
    assert!(!d.resize_in_body);
    let e = RowResizeConfig::enabled().default_height(25).height_range(SizeRange::new(15, 60)).resize_in_body(true);
    assert!(e.enabled);
    assert_eq!(e.default_height, 25);
    assert_eq!(e.height_range, SizeRange::new(15, 60));
    assert!(e.resize_in_body);
}

fn pointer(x: i32, y: i32, down: bool, pressed: bool, dy: i32) -> PointerState {
    PointerState {
        pos: Some(Point { x, y }),
        primary_down: down,
        primary_pressed: pressed,
        any_down: down,
        delta_x: 0,
        delta_y: dy,
    }
}

#[test]
fn row_border_drag_sets_clamped_height() {
    let config = RowResizeConfig::enabled().height_range(SizeRange::new(10, 50));
    let mut s = RowResizeState::new();
    // Press on the border of row 3 (bottom at y = 100).
    let o = handle_row_resize(&mut s, &config, 3, 100, 0, 200, true, &pointer(50, 102, true, true, 0), false);
    assert!(o.dragging);
    assert_eq!(o.new_height, None);
    assert_eq!(s.dragging_row(), Some(3));
    let o = handle_row_resize(&mut s, &config, 3, 100, 0, 200, true, &pointer(50, 110, true, false, 8), true);
    assert_eq!(o.new_height, Some(28));
    assert_eq!(s.get_row_height(3, 20), 28);
    let o = handle_row_resize(&mut s, &config, 3, 108, 0, 200, true, &pointer(50, 200, true, false, 90), true);
    assert_eq!(o.new_height, Some(50));
    let o = handle_row_resize(&mut s, &config, 3, 150, 0, 200, true, &pointer(50, 200, false, false, 0), true);
    assert!(!o.dragging);
    assert_eq!(s.dragging_row(), None);
    assert_eq!(s.get_row_height(3, 20), 50);
}

#[test]
fn row_border_drag_without_change_writes_nothing() {
    let config = RowResizeConfig::enabled();
    let mut s = RowResizeState::new();
    let o = handle_row_resize(&mut s, &config, 0, 20, 0, 100, true, &pointer(10, 20, true, true, 0), false);
    assert!(o.dragging);
    assert_eq!(o.new_height, None);
    assert_eq!(s.get_row_height(0, 99), 99);
}

#[test]
fn row_resize_respects_enable_and_body_flags() {
    let mut s = RowResizeState::new();
    let off = RowResizeConfig::default();
    let o = handle_row_resize(&mut s, &off, 0, 20, 0, 100, true, &pointer(10, 20, true, true, 5), false);
    assert!(!o.dragging && o.new_height.is_none());
    let header_only = RowResizeConfig::enabled();
    let o = handle_row_resize(&mut s, &header_only, 0, 20, 0, 100, false, &pointer(10, 20, true, true, 5), false);
    assert!(!o.dragging && o.new_height.is_none());
    assert!(!s.is_dragging());
}

#[test]
fn overrides_round_trip_through_listing() {
    let mut s = RowResizeState::new();
    s.set_row_height(3, 30);
    s.set_row_height(9, 45);
    s.set_row_height(3, 33);
    let mut listed = s.overrides();
    listed.sort();
    assert_eq!(listed, vec![(3, 33), (9, 45)]);
    let rebuilt = RowResizeState::from_overrides(&listed);
    assert_eq!(rebuilt.get_row_height(3, 20), 33);
    assert_eq!(rebuilt.get_row_height(9, 20), 45);
    assert_eq!(rebuilt.get_row_height(4, 20), 20);
    assert!(!rebuilt.is_dragging());
    let later_wins = RowResizeState::from_overrides(&vec![(1, 10), (1, 12)]);
    assert_eq!(later_wins.get_row_height(1, 20), 12);
}

#[test]
fn dragging_row_can_be_restored() {
    let mut s = RowResizeState::new();
    s.set_dragging_row(Some(5));
    assert_eq!(s.dragging_row(), Some(5));
    assert!(s.is_dragging());
}
