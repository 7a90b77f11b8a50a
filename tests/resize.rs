use egui_table_engine::{
    column_handle_step, header_gesture, resize_width, Column, ColumnResizeMode, HandleGesture,
    HandleOutcome, Point, PointerState, Rect, ResizePreviewState, SizeRange, TableResizeInfo,
};

fn gesture(started: bool, dragging: bool, stopped: bool, delta_x: i32, x: i32) -> HandleGesture {
    HandleGesture {
        started,
        dragging,
        stopped,
        hovered: true,
        pointer_busy: dragging,
        delta_x,
        pointer_x: Some(x),
    }
}

fn column() -> Column {
    Column::initial(100).range(SizeRange::new(20, 300)).resizable(true)
}

#[test]
fn default_mode_is_live() {
    assert_eq!(ColumnResizeMode::default(), ColumnResizeMode::Live);
    assert_eq!(ResizePreviewState::default(), ResizePreviewState::idle());
    assert!(!ResizePreviewState::idle().active);
}

#[test]
fn live_drag_commits_at_once() {
    let c = column();
    let mut preview = ResizePreviewState::idle();
    let press = column_handle_step(ColumnResizeMode::Live, 0, &c, 100, 10, 200, &gesture(true, true, false, 0, 200), &mut preview);
    assert_eq!(press.width, 100);
    let moved = column_handle_step(ColumnResizeMode::Live, 0, &c, press.width, 10, 200, &gesture(false, true, false, 15, 215), &mut preview);
    assert_eq!(moved.width, 115);
    assert!(moved.drag_active);
    assert_eq!(moved.line_x, 215);
    let released = column_handle_step(ColumnResizeMode::Live, 0, &c, moved.width, 10, 215, &gesture(false, false, true, 0, 215), &mut preview);
    assert_eq!(released.width, 115);
    assert!(!released.drag_active);
    assert_eq!(preview, ResizePreviewState::idle());
}

#[test]
fn deferred_drag_commits_on_release() {
    let c = column();
    let mut preview = ResizePreviewState::idle();
    let press = column_handle_step(ColumnResizeMode::Deferred, 2, &c, 100, 10, 200, &gesture(true, true, false, 0, 200), &mut preview);
    assert_eq!(press.width, 100);
    assert!(preview.active);
    assert_eq!(preview.column, Some(2));
    let moved = column_handle_step(ColumnResizeMode::Deferred, 2, &c, press.width, 10, 200, &gesture(false, true, false, 15, 215), &mut preview);
    assert_eq!(moved.width, 100);
    assert!(moved.drag_active);
    assert_eq!(preview.pending_width, 115);
    assert_eq!(moved.line_x, 215);
    let released = column_handle_step(ColumnResizeMode::Deferred, 2, &c, moved.width, 10, 200, &gesture(false, false, true, 0, 215), &mut preview);
    assert_eq!(released.width, 115);
    assert!(!released.drag_active);
    assert_eq!(preview, ResizePreviewState::idle());
}

#[test]
fn drags_are_clamped_to_range_and_content() {
    let c = column();
    let mut preview = ResizePreviewState::idle();
    let big = column_handle_step(ColumnResizeMode::Live, 0, &c, 100, 10, 0, &gesture(false, true, false, 500, 500), &mut preview);
    assert_eq!(big.width, 300);
    let small = column_handle_step(ColumnResizeMode::Live, 0, &c, 100, 60, 0, &gesture(false, true, false, -90, 0), &mut preview);
    assert_eq!(small.width, 60);
    let clipped = c.clip(true);
    let small_clip = column_handle_step(ColumnResizeMode::Live, 0, &clipped, 100, 60, 0, &gesture(false, true, false, -90, 0), &mut preview);
    assert_eq!(small_clip.width, 20);
    assert_eq!(resize_width(&c, -5, 0), 20);
}

#[test]
fn deferred_drag_of_one_column_blocks_another() {
    let c = column();
    let mut preview = ResizePreviewState::idle();
    column_handle_step(ColumnResizeMode::Deferred, 0, &c, 100, 0, 100, &gesture(true, true, false, 0, 100), &mut preview);
    let other = column_handle_step(ColumnResizeMode::Deferred, 1, &c, 80, 0, 180, &gesture(true, true, false, 0, 180), &mut preview);
    assert!(!other.drag_active);
    assert_eq!(other.width, 80);
    assert_eq!(preview.column, Some(0));
}

#[test]
fn resize_info_publishes_active_drag() {
    let mut info = TableResizeInfo::inactive(ColumnResizeMode::Deferred);
    let idle = HandleOutcome { width: 50, drag_active: false, line_x: 3, show_resize_cursor: false };
    info.record(1, ColumnResizeMode::Deferred, &idle, &ResizePreviewState::idle());
    assert!(!info.active);
    let mut preview = ResizePreviewState::idle();
    preview.active = true;
    preview.column = Some(1);
    preview.pending_width = 77;
    let busy = HandleOutcome { width: 50, drag_active: true, line_x: 140, show_resize_cursor: true };
    info.record(1, ColumnResizeMode::Deferred, &busy, &preview);
    assert!(info.active);
    assert_eq!(info.column, Some(1));
    assert_eq!(info.preview_x, Some(140));
    assert_eq!(info.pending_width, Some(77));
}

#[test]
fn header_gesture_tracks_press_hold_release() {
    let rect = Rect::around(100, 0, 100, 20, 4, 4);
    let inside = PointerState {
        pos: Some(Point { x: 102, y: 10 }),
        primary_down: true,
        primary_pressed: true,
        any_down: true,
        delta_x: 0,
        delta_y: 0,
    };
    let g = header_gesture(false, &inside, &rect);
    assert!(g.started && g.dragging && !g.stopped);
    let held = PointerState { pos: Some(Point { x: 150, y: 60 }), primary_pressed: false, delta_x: 48, ..inside };
    let g2 = header_gesture(true, &held, &rect);
    assert!(!g2.started && g2.dragging);
    assert_eq!(g2.delta_x, 48);
    let up = PointerState { primary_down: false, any_down: false, ..held };
    let g3 = header_gesture(true, &up, &rect);
    assert!(!g3.dragging && g3.stopped);
    let outside = PointerState { pos: Some(Point { x: 110, y: 10 }), ..inside };
    assert!(!header_gesture(false, &outside, &rect).dragging);
}

#[test]
fn deferred_release_without_pointer_commits_clamped_width() {
    let c = column();
    let mut preview = ResizePreviewState::idle();
    preview.active = true;
    preview.column = Some(0);
    preview.start_width = 100;
    preview.pending_width = 1000;
    let release = HandleGesture {
        started: false,
        dragging: false,
        stopped: true,
        hovered: false,
        pointer_busy: false,
        delta_x: 0,
        pointer_x: None,
    };
    let out = column_handle_step(ColumnResizeMode::Deferred, 0, &c, 100, 40, 0, &release, &mut preview);
    assert_eq!(out.width, 300);
    assert_eq!(preview, ResizePreviewState::idle());
}
