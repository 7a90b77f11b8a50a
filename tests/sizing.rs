use egui_table_engine::sizing::{Size, Sizing};
use egui_table_engine::state::TableState;
use egui_table_engine::{Column, InitialColumnSize, SizeRange, UNBOUNDED};

fn widths_sum(w: &[u32]) -> u64 {
    w.iter().map(|&x| x as u64).sum()
}

#[test]
fn column_builders_set_fields() {
    let c = Column::exact(40);
    assert_eq!(c.initial_width, InitialColumnSize::Absolute(40));
    assert_eq!(c.width_range, SizeRange::new(40, 40));
    assert!(c.clip);
    let a = Column::auto();
    assert_eq!(a.initial_width, InitialColumnSize::Automatic(100));
    assert_eq!(a.width_range, SizeRange::new(0, UNBOUNDED));
    let r = Column::remainder().at_least(30).at_most(90).resizable(true).column_fixed(true);
    assert_eq!(r.width_range, SizeRange::new(30, 90));
    assert_eq!(r.resizable, Some(true));
    assert!(r.fixed);
    assert!(!r.is_auto());
    assert!(a.is_auto());
    assert!(r.is_resizable(false));
    assert!(!a.is_resizable(false));
    assert!(a.is_resizable(true));
}

#[test]
fn clamp_into_range() {
    let r = SizeRange::new(10, 50);
    assert_eq!(r.clamp(5), 10);
    assert_eq!(r.clamp(70), 50);
    assert_eq!(r.clamp(33), 33);
    assert!(r.contains(10));
    assert!(!r.contains(51));
}

#[test]
fn distribution_shares_leftover_equally() {
    let mut s = Sizing::new();
    s.add(Size::Fixed { width: 100, range: SizeRange::everything() });
    s.add(Size::Flexible { range: SizeRange::everything() });
    s.add(Size::Flexible { range: SizeRange::everything() });
    // 500 - 100 - 2 * 10 spacing = 380, shared by two.
    assert_eq!(s.to_lengths(500, 10), vec![100, 190, 190]);
}

#[test]
fn distribution_rounds_share_down() {
    let mut s = Sizing::new();
    for _ in 0..3 {
        s.add(Size::Flexible { range: SizeRange::everything() });
    }
    let w = s.to_lengths(100, 0);
    assert_eq!(w, vec![33, 33, 33]);
    // Less than one unit per flexible slot is lost.
    assert!(100 - widths_sum(&w) < 3);
}

#[test]
fn distribution_clamps_every_slot() {
    let mut s = Sizing::new();
    s.add(Size::Fixed { width: 500, range: SizeRange::new(0, 200) });
    s.add(Size::Flexible { range: SizeRange::new(0, 50) });
    s.add(Size::Flexible { range: SizeRange::new(300, UNBOUNDED) });
    // Fixed part is the clamped 200; leftover 600 - 200 = 400, share 200.
    assert_eq!(s.to_lengths(600, 0), vec![200, 50, 300]);
}

#[test]
fn distribution_with_no_room_gives_flexible_zero_share() {
    let mut s = Sizing::new();
    s.add(Size::Fixed { width: 300, range: SizeRange::everything() });
    s.add(Size::Flexible { range: SizeRange::new(20, UNBOUNDED) });
    assert_eq!(s.to_lengths(100, 0), vec![300, 20]);
    assert_eq!(Sizing::new().to_lengths(100, 5), Vec::<u32>::new());
}

#[test]
fn distribution_fills_available_width() {
    // Some flexible slot, nothing clamped: lengths plus spacing fill the width.
    for available in [100u32, 257, 1000, 4099] {
        let mut s = Sizing::new();
        s.add(Size::Fixed { width: 40, range: SizeRange::everything() });
        s.add(Size::Flexible { range: SizeRange::everything() });
        s.add(Size::Flexible { range: SizeRange::everything() });
        s.add(Size::Flexible { range: SizeRange::everything() });
        let w = s.to_lengths(available, 4);
        let total = widths_sum(&w) + 4 * 3;
        assert!(total <= available as u64);
        assert!(total + 3 > available as u64);
    }
}

fn three_columns() -> Vec<Column> {
    vec![Column::initial(100), Column::auto().at_least(20), Column::remainder()]
}

#[test]
fn first_frame_is_sizing_pass_with_auto_column() {
    let cols = three_columns();
    let (sizing_pass, state) = TableState::load(None, &cols, false, 400, 0, false);
    assert!(sizing_pass);
    // 400 - 100 = 300 shared by the auto and the remainder column.
    assert_eq!(state.column_widths, vec![100, 150, 150]);
    assert_eq!(state.scroll_offset_x, 0);
    assert!(state.max_used_widths.is_empty());
}

#[test]
fn first_frame_without_auto_column_is_not_sizing_pass() {
    let cols = vec![Column::initial(100), Column::remainder()];
    let (sizing_pass, state) = TableState::load(None, &cols, false, 300, 0, false);
    assert!(!sizing_pass);
    assert_eq!(state.column_widths, vec![100, 200]);
    let (forced, _) = TableState::load(None, &cols, false, 300, 0, true);
    assert!(forced);
}

#[test]
fn stale_state_is_discarded() {
    let cols = vec![Column::initial(100), Column::remainder()];
    let stale = TableState {
        column_widths: vec![1, 2, 3],
        scroll_offset_x: 9,
        scroll_offset_y: 9,
        max_used_widths: vec![1, 2, 3],
    };
    let (_, state) = TableState::load(Some(stale), &cols, false, 300, 0, false);
    assert_eq!(state.column_widths, vec![100, 200]);
    assert_eq!(state.scroll_offset_x, 0);
}

#[test]
fn later_frame_adopts_measured_widths() {
    let cols = three_columns();
    let stored = TableState {
        column_widths: vec![100, 150, 150],
        scroll_offset_x: 7,
        scroll_offset_y: 3,
        max_used_widths: vec![80, 60, 10],
    };
    let (sizing_pass, state) = TableState::load(Some(stored), &cols, false, 400, 0, false);
    assert!(!sizing_pass);
    // Auto column keeps its previous width (150, above its content of 60);
    // the remainder takes 400 - 100 - 150.
    assert_eq!(state.column_widths, vec![100, 150, 150]);
    assert_eq!(state.scroll_offset_x, 7);
    assert_eq!(state.scroll_offset_y, 3);

    // Window grows: only the remainder column absorbs it.
    let again = TableState { max_used_widths: vec![80, 60, 10], ..state.clone() };
    let (_, grown) = TableState::load(Some(again), &cols, false, 500, 0, false);
    assert_eq!(grown.column_widths, vec![100, 150, 250]);
}

#[test]
fn resizable_columns_keep_their_width() {
    let cols = vec![Column::initial(100).resizable(true), Column::remainder()];
    let stored = TableState {
        column_widths: vec![137, 163],
        scroll_offset_x: 0,
        scroll_offset_y: 0,
        max_used_widths: vec![10, 10],
    };
    let (_, state) = TableState::load(Some(stored), &cols, false, 300, 0, false);
    assert_eq!(state.column_widths, vec![137, 163]);
}

#[test]
fn non_resizable_column_is_raised_to_content_unless_clipped() {
    let cols = vec![Column::initial(50), Column::initial(50).clip(true), Column::remainder()];
    let stored = TableState {
        column_widths: vec![50, 50, 200],
        scroll_offset_x: 0,
        scroll_offset_y: 0,
        max_used_widths: vec![70, 70, 0],
    };
    let (_, state) = TableState::load(Some(stored), &cols, false, 300, 0, false);
    assert_eq!(state.column_widths, vec![70, 50, 180]);
}

#[test]
fn relayout_twice_changes_nothing() {
    let cols = vec![
        Column::initial(120),
        Column::auto().at_most(90),
        Column::remainder().at_least(10),
        Column::remainder(),
        Column::initial(60).resizable(true),
    ];
    let used = vec![130, 40, 5, 0, 10];
    let stored = TableState {
        column_widths: vec![120, 200, 100, 100, 75],
        scroll_offset_x: 0,
        scroll_offset_y: 0,
        max_used_widths: used.clone(),
    };
    let (_, once) = TableState::load(Some(stored), &cols, false, 800, 2, false);
    let again = TableState { max_used_widths: used.clone(), ..once.clone() };
    let (_, twice) = TableState::load(Some(again), &cols, false, 800, 2, false);
    assert_eq!(once.column_widths, twice.column_widths);
    assert_eq!(once.column_widths, vec![130, 90, 248, 248, 75]);
}

#[test]
fn settle_keeps_widths_in_range_and_above_content() {
    let mut cols = vec![
        Column::initial(100).at_least(30).at_most(120),
        Column::initial(100).clip(true).range(SizeRange::new(10, 200)),
        Column::auto().resizable(true),
        Column::remainder().at_most(40),
    ];
    let mut state = TableState {
        column_widths: vec![100, 5, 50, 300],
        scroll_offset_x: 0,
        scroll_offset_y: 0,
        max_used_widths: vec![],
    };
    let measured = vec![110, 150, 70, 20];
    state.settle(&mut cols, &measured, false, false, false);
    assert_eq!(state.column_widths, vec![110, 10, 70, 40]);
    for (i, c) in cols.iter().enumerate() {
        let w = state.column_widths[i];
        assert!(c.width_range.min <= w && w <= c.width_range.max);
        if !c.clip && measured[i] <= c.width_range.max {
            assert!(w >= measured[i]);
        }
    }
}

#[test]
fn settle_fits_requested_column_and_clears_request() {
    let mut cols = vec![Column::initial(100).resizable(true).auto_size_this_frame(true)];
    let mut state = TableState {
        column_widths: vec![300],
        scroll_offset_x: 0,
        scroll_offset_y: 0,
        max_used_widths: vec![],
    };
    state.settle(&mut cols, &vec![64], false, false, false);
    assert_eq!(state.column_widths, vec![64]);
    assert!(!cols[0].auto_size_this_frame);
}

#[test]
fn settle_in_sizing_pass_takes_measured_content() {
    let mut cols = vec![Column::auto(), Column::initial(90).clip(true)];
    let mut state = TableState {
        column_widths: vec![150, 90],
        scroll_offset_x: 0,
        scroll_offset_y: 0,
        max_used_widths: vec![],
    };
    state.settle(&mut cols, &vec![42, 60], false, true, true);
    assert_eq!(state.column_widths, vec![42, 60]);
}

#[test]
fn record_frame_keeps_measurements_for_next_load() {
    let cols = vec![Column::auto(), Column::remainder()];
    let (_, mut state) = TableState::load(None, &cols, false, 200, 0, false);
    state.record_frame(vec![30, 0], 5, 6);
    assert_eq!(state.max_used_widths, vec![30, 0]);
    assert_eq!(state.scroll_offset_x, 5);
    let (sizing_pass, next) = TableState::load(Some(state), &cols, false, 200, 0, false);
    assert!(!sizing_pass);
    assert_eq!(next.column_widths, vec![100, 100]);
}

#[test]
fn whole_frames_settle_to_a_fixed_point() {
    let mut cols = vec![Column::initial(50).resizable(true), Column::auto(), Column::remainder()];
    let used = vec![70, 40, 10];
    let mut widths = vec![50, 100, 100];
    let mut history = Vec::new();
    for _ in 0..3 {
        let stored = TableState {
            column_widths: widths.clone(),
            scroll_offset_x: 0,
            scroll_offset_y: 0,
            max_used_widths: used.clone(),
        };
        let (_, mut state) = TableState::load(Some(stored), &cols, false, 300, 0, false);
        state.settle(&mut cols, &used, false, false, false);
        widths = state.column_widths.clone();
        history.push(widths.clone());
    }
    assert_eq!(history[0], vec![70, 40, 150]);
    assert_eq!(history[1], vec![70, 40, 190]);
    assert_eq!(history[2], history[1]);
}
