use egui_table_engine::virtualize::row_scroll_span;
use egui_table_engine::{heterogeneous_rows_layout, resolve_scroll_target, uniform_rows, RowPlacement, RowWalker, Span};

#[test]
fn uniform_window_for_scrolled_viewport() {
    let w = uniform_rows(20, 10000, 205, 400, None);
    assert_eq!(w.min_row, 10);
    assert_eq!(w.leading, 200);
    // ceil((205 + 400) / 20) + 1 = 31 + 1.
    assert_eq!(w.max_row, 32);
    assert_eq!(w.leading + (w.max_row - w.min_row) as u64 * 20 + w.trailing, 200000);
}

#[test]
fn uniform_window_at_top_and_past_end() {
    let top = uniform_rows(20, 100, 0, 100, None);
    assert_eq!((top.min_row, top.max_row, top.leading), (0, 6, 0));
    assert_eq!(top.trailing, 94 * 20);
    let end = uniform_rows(20, 100, 5000, 100, None);
    assert_eq!((end.min_row, end.max_row), (100, 100));
    assert_eq!(end.leading, 2000);
    assert_eq!(end.trailing, 0);
    let empty = uniform_rows(20, 0, 0, 100, Some(3));
    assert_eq!((empty.min_row, empty.max_row, empty.leading, empty.trailing), (0, 0, 0, 0));
}

#[test]
fn uniform_scroll_target_beyond_end_is_end_point() {
    let w = uniform_rows(10, 50, 0, 100, Some(7));
    assert_eq!(w.scroll_target, Some(Span { top: 70, bottom: 80 }));
    let beyond = uniform_rows(10, 50, 0, 100, Some(500));
    assert_eq!(beyond.scroll_target, Some(Span { top: 500, bottom: 500 }));
    let just_past = uniform_rows(20, 10, 0, 100, Some(10));
    assert_eq!(just_past.scroll_target, Some(Span { top: 200, bottom: 200 }));
    let empty = uniform_rows(20, 0, 0, 100, Some(0));
    assert_eq!(empty.scroll_target, Some(Span { top: 0, bottom: 0 }));
}

#[test]
fn single_row_scroll_span_only_for_requested_row() {
    assert_eq!(row_scroll_span(4, Some(4), 80, 100), Some(Span { top: 80, bottom: 100 }));
    assert_eq!(row_scroll_span(3, Some(4), 60, 80), None);
    assert_eq!(row_scroll_span(3, None, 60, 80), None);
    assert_eq!(resolve_scroll_target(Some(9), None, 120), Some(Span { top: 120, bottom: 120 }));
    assert_eq!(resolve_scroll_target(None, None, 120), None);
}

fn heights() -> Vec<u32> {
    vec![60, 18, 31, 240, 12, 50, 7, 90]
}

#[test]
fn spacers_and_drawn_rows_cover_content() {
    let hs = heights();
    let total: u64 = hs.iter().map(|&h| h as u64).sum();
    for scroll in [0u64, 1, 60, 100, 300, 507, 508, 10000] {
        let l = heterogeneous_rows_layout(&hs, scroll, 100, None);
        assert_eq!(l.leading + l.rendered_height + l.trailing, total);
    }
}

#[test]
fn drawn_rows_are_those_reaching_into_viewport() {
    // Rows: [0,60) [60,78) [78,109) [109,349) [349,361) ...
    let l = heterogeneous_rows_layout(&heights(), 70, 30, None);
    assert_eq!((l.first_row, l.end_row), (1, 3));
    assert_eq!(l.leading, 60);
    assert_eq!(l.rendered_height, 18 + 31);
    assert_eq!(l.trailing, 508 - 109);
    let at_top = heterogeneous_rows_layout(&heights(), 0, 50, None);
    assert_eq!((at_top.first_row, at_top.end_row), (0, 1));
    assert_eq!(at_top.leading, 0);
}

#[test]
fn scrolled_past_content_puts_all_rows_in_leading_spacer() {
    let l = heterogeneous_rows_layout(&heights(), 10000, 100, None);
    assert_eq!((l.first_row, l.end_row), (8, 8));
    assert_eq!(l.leading, 508);
    assert_eq!(l.trailing, 0);
}

#[test]
fn scroll_to_row_beyond_end_resolves_to_end_point() {
    let l = heterogeneous_rows_layout(&heights(), 0, 100, Some(20));
    assert_eq!(l.scroll_target, Some(Span { top: 508, bottom: 508 }));
    let found = heterogeneous_rows_layout(&heights(), 0, 100, Some(3));
    assert_eq!(found.scroll_target, Some(Span { top: 109, bottom: 349 }));
    let none = heterogeneous_rows_layout(&heights(), 0, 100, None);
    assert_eq!(none.scroll_target, None);
}

#[test]
fn walker_places_rows_one_at_a_time() {
    let mut w = RowWalker::new(70, 30, None);
    assert_eq!(w.step(60), RowPlacement::Skipped);
    assert_eq!(w.step(18), RowPlacement::Rendered { top: 60 });
    assert_eq!(w.step(31), RowPlacement::Rendered { top: 78 });
    assert_eq!(w.step(240), RowPlacement::Below);
    assert_eq!(w.offset(), 349);
    let l = w.finish();
    assert_eq!((l.first_row, l.end_row, l.leading, l.trailing), (1, 3, 60, 240));
}

#[test]
fn zero_height_spacers_add_nothing() {
    let l = heterogeneous_rows_layout(&vec![10, 10], 0, 100, None);
    assert_eq!((l.leading, l.trailing), (0, 0));
    let e = heterogeneous_rows_layout(&vec![], 0, 100, None);
    assert_eq!((e.first_row, e.end_row, e.leading, e.rendered_height, e.trailing), (0, 0, 0, 0, 0));
}
