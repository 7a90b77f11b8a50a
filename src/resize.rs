//! The column-border drag state machine, in its two modes: `Live` changes the
//! width as the pointer moves; `Deferred` moves a preview line and commits the
//! width once, on release.

use vstd::prelude::*;
use crate::column::Column;
use crate::geometry::{PointerState, Rect};

verus! {

/// How dragging a column border changes the column.
#[derive(Clone, Copy, Debug, PartialEq, Eq, Structural)]
pub enum ColumnResizeMode {
    /// The width follows the pointer.
    Live,
    /// A preview line follows the pointer; the width changes on release.
    Deferred,
}

impl Default for ColumnResizeMode {
    fn default() -> (r: ColumnResizeMode)
        ensures
            r == ColumnResizeMode::Live,
    {
        ColumnResizeMode::Live
    }
}

/// The in-progress `Deferred` drag of a grid; at most one column at a time.
#[derive(Clone, Copy, Debug, PartialEq, Eq, Structural)]
pub struct ResizePreviewState {
    pub active: bool,
    pub column: Option<usize>,
    pub start_width: u32,
    pub start_pointer_x: i32,
    /// Where the border was when the drag began.
    pub start_handle_x: i32,
    pub pending_width: u32,
    /// Where the preview line is drawn.
    pub preview_x: i64,
}

impl ResizePreviewState {
    pub open spec fn idle_spec() -> ResizePreviewState {
        ResizePreviewState {
            active: false,
            column: None,
            start_width: 0,
            start_pointer_x: 0,
            start_handle_x: 0,
            pending_width: 0,
            preview_x: 0,
        }
    }

    /// An active preview names its column; an inactive one is reset.
    pub open spec fn wf(self) -> bool {
        if self.active {
            self.column is Some
        } else {
            self == ResizePreviewState::idle_spec()
        }
    }

    /// Whether this preview belongs to column `i`.
    pub open spec fn owned_by(self, i: usize) -> bool {
        self.active && self.column == Some(i)
    }

    /// No drag in progress.
    pub fn idle() -> (r: ResizePreviewState)
        ensures
            r == ResizePreviewState::idle_spec(),
    {
        ResizePreviewState {
            active: false,
            column: None,
            start_width: 0,
            start_pointer_x: 0,
            start_handle_x: 0,
            pending_width: 0,
            preview_x: 0,
        }
    }
}

impl Default for ResizePreviewState {
    fn default() -> (r: ResizePreviewState)
        ensures
            r == ResizePreviewState::idle_spec(),
    {
        ResizePreviewState::idle()
    }
}

/// A read-only snapshot of the grid's resize, published once per frame.
#[derive(Clone, Copy, Debug, PartialEq, Eq, Structural)]
pub struct TableResizeInfo {
    pub active: bool,
    pub column: Option<usize>,
    pub preview_x: Option<i64>,
    pub pending_width: Option<u32>,
    pub mode: ColumnResizeMode,
}

/// What the pointer does to one column's border handle this frame.
#[derive(Clone, Copy, Debug, PartialEq, Eq, Structural)]
pub struct HandleGesture {
    /// A drag began on the handle this frame.
    pub started: bool,
    /// A drag on the handle is in progress.
    pub dragging: bool,
    /// A drag on the handle ended this frame.
    pub stopped: bool,
    /// The pointer hovers over the handle.
    pub hovered: bool,
    /// Some button is busy elsewhere.
    pub pointer_busy: bool,
    /// Horizontal pointer movement this frame.
    pub delta_x: i32,
    /// Horizontal pointer position, when known.
    pub pointer_x: Option<i32>,
}

/// What one column's border handle did this frame.
#[derive(Clone, Copy, Debug, PartialEq, Eq, Structural)]
pub struct HandleOutcome {
    /// The column's width after the step.
    pub width: u32,
    /// A drag of this column is in progress.
    pub drag_active: bool,
    /// Where the border line is drawn.
    pub line_x: i64,
    /// The resize cursor should show.
    pub show_resize_cursor: bool,
}

/// The width a drag asks for: `w`, raised to the content width unless the
/// column clips, then held to the column's range.
pub open spec fn resize_target(c: Column, w: int, used: u32) -> int {
    let w1 = if !c.clip && w < used {
        used as int
    } else {
        w
    };
    c.width_range.clamp_of(w1)
}

/// Whether `w` is a width column `c` may have: inside its range and, unless
/// it clips, not below its content width `used` (when the range allows it).
pub open spec fn width_fits(c: Column, w: int, used: u32) -> bool {
    &&& c.width_range.min <= w <= c.width_range.max
    &&& (!c.clip && used <= c.width_range.max) ==> used <= w
}

/// Asking again for a width a drag already asked for gives it back.
pub proof fn lemma_resize_target_idempotent(c: Column, w: int, used: u32)
    requires
        c.width_range.wf(),
    ensures
        width_fits(c, resize_target(c, w, used), used),
        resize_target(c, resize_target(c, w, used), used) == resize_target(c, w, used),
{
}

/// One frame of the handle of column `i`, whose border is at `resize_x`.
/// A release commits the pending width, held again to the column's rules.
pub open spec fn handle_step(
    mode: ColumnResizeMode,
    i: usize,
    c: Column,
    width: u32,
    used: u32,
    resize_x: i32,
    g: HandleGesture,
    p: ResizePreviewState,
) -> (HandleOutcome, ResizePreviewState) {
    match mode {
        ColumnResizeMode::Live => {
            let w = if g.dragging {
                resize_target(c, width + g.delta_x, used) as u32
            } else {
                width
            };
            let line = if g.dragging && g.pointer_x is Some {
                g.pointer_x->0 as i64
            } else {
                resize_x as i64
            };
            (
                HandleOutcome {
                    width: w,
                    drag_active: g.dragging,
                    line_x: line,
                    show_resize_cursor: (g.hovered && !g.pointer_busy) || g.dragging,
                },
                p,
            )
        },
        ColumnResizeMode::Deferred => {
            let p1 = if g.started && g.pointer_x is Some && (!p.active || p.column == Some(i)) {
                ResizePreviewState {
                    active: true,
                    column: Some(i),
                    start_width: width,
                    start_pointer_x: g.pointer_x->0,
                    start_handle_x: resize_x,
                    pending_width: width,
                    preview_x: resize_x as i64,
                }
            } else {
                p
            };
            let p2 = if p1.owned_by(i) && g.pointer_x is Some {
                let delta = g.pointer_x->0 - p1.start_pointer_x;
                ResizePreviewState {
                    pending_width: resize_target(c, p1.start_width + delta, used) as u32,
                    preview_x: (p1.start_handle_x + delta) as i64,
                    ..p1
                }
            } else {
                p1
            };
            let commit = p2.owned_by(i) && g.stopped;
            let w = if commit {
                resize_target(c, p2.pending_width as int, used) as u32
            } else {
                width
            };
            let p3 = if commit {
                ResizePreviewState::idle_spec()
            } else {
                p2
            };
            let active = p3.owned_by(i);
            (
                HandleOutcome {
                    width: w,
                    drag_active: active,
                    line_x: if active {
                        p3.preview_x
                    } else {
                        resize_x as i64
                    },
                    show_resize_cursor: (g.hovered && !g.pointer_busy) || active,
                },
                p3,
            )
        },
    }
}

/// A press on the handle at `x`.
pub open spec fn press_at(x: i32) -> HandleGesture {
    HandleGesture {
        started: true,
        dragging: true,
        stopped: false,
        hovered: true,
        pointer_busy: true,
        delta_x: 0,
        pointer_x: Some(x),
    }
}

/// A drag that moved the pointer by `delta` to `x`.
pub open spec fn move_to(x: i32, delta: i32) -> HandleGesture {
    HandleGesture {
        started: false,
        dragging: true,
        stopped: false,
        hovered: true,
        pointer_busy: true,
        delta_x: delta,
        pointer_x: Some(x),
    }
}

/// The release of a drag with the pointer at `x`.
pub open spec fn release_at(x: i32) -> HandleGesture {
    HandleGesture {
        started: false,
        dragging: false,
        stopped: true,
        hovered: true,
        pointer_busy: false,
        delta_x: 0,
        pointer_x: Some(x),
    }
}

/// Press at `x`, drag by `delta`, release: in `Live` mode the width becomes
/// `width + delta` held to the column's rules as soon as the pointer moves,
/// and the release keeps it; in `Deferred` mode the width does not change
/// until the release, which commits that same value in one step and ends the
/// preview.
pub proof fn lemma_drag_commit(
    i: usize,
    c: Column,
    width: u32,
    used: u32,
    resize_x: i32,
    x: i32,
    delta: i32,
)
    requires
        i32::MIN <= x + delta <= i32::MAX,
        c.width_range.wf(),
        resize_target(c, width as int, used) == width,
    ensures
        ({
            let target = resize_target(c, width + delta, used) as u32;
            let x1 = (x + delta) as i32;
            let idle = ResizePreviewState::idle_spec();
            let (l1, q1) = handle_step(ColumnResizeMode::Live, i, c, width, used, resize_x, press_at(x), idle);
            let (l2, q2) = handle_step(ColumnResizeMode::Live, i, c, l1.width, used, resize_x, move_to(x1, delta), q1);
            let (l3, q3) = handle_step(ColumnResizeMode::Live, i, c, l2.width, used, resize_x, release_at(x1), q2);
            let (d1, p1) = handle_step(ColumnResizeMode::Deferred, i, c, width, used, resize_x, press_at(x), idle);
            let (d2, p2) = handle_step(ColumnResizeMode::Deferred, i, c, d1.width, used, resize_x, move_to(x1, delta), p1);
            let (d3, p3) = handle_step(ColumnResizeMode::Deferred, i, c, d2.width, used, resize_x, release_at(x1), p2);
            &&& l1.width == width
            &&& l2.width == target
            &&& l3.width == target
            &&& d1.width == width && d1.drag_active
            &&& d2.width == width && d2.drag_active && p2.pending_width == target
            &&& d3.width == target && !d3.drag_active
            &&& p3 == idle
        }),
{
    lemma_resize_target_idempotent(c, width + delta, used);
}

/// A step keeps the preview well formed.
pub proof fn lemma_handle_step_keeps_preview_wf(
    mode: ColumnResizeMode,
    i: usize,
    c: Column,
    width: u32,
    used: u32,
    resize_x: i32,
    g: HandleGesture,
    p: ResizePreviewState,
)
    requires
        p.wf(),
    ensures
        handle_step(mode, i, c, width, used, resize_x, g, p).1.wf(),
{
}

/// While column `owner` has a `Deferred` drag in progress, a step of any other
/// column's handle neither starts a drag nor touches the preview, and leaves
/// that column's width as it was.
pub proof fn lemma_one_deferred_drag_at_a_time(
    owner: usize,
    i: usize,
    c: Column,
    width: u32,
    used: u32,
    resize_x: i32,
    g: HandleGesture,
    p: ResizePreviewState,
)
    requires
        p.owned_by(owner),
        i != owner,
    ensures
        ({
            let (out, q) = handle_step(ColumnResizeMode::Deferred, i, c, width, used, resize_x, g, p);
            &&& q == p
            &&& out.width == width
            &&& !out.drag_active
        }),
{
}

/// The width a drag asks for (see `resize_target`).
pub fn resize_width(c: &Column, w: i64, used: u32) -> (r: u32)
    ensures
        r == resize_target(*c, w as int, used),
        c.width_range.wf() ==> c.width_range.min <= r <= c.width_range.max,
        c.width_range.wf() && !c.clip && used <= c.width_range.max ==> used <= r,
{
    let w1: i64 = if !c.clip && w < used as i64 {
        used as i64
    } else {
        w
    };
    if w1 > c.width_range.max as i64 {
        c.width_range.max
    } else if w1 < c.width_range.min as i64 {
        c.width_range.min
    } else {
        w1 as u32
    }
}

/// Runs one frame of the handle of column `i`, whose border is at `resize_x`,
/// updating the grid's preview state.
pub fn column_handle_step(
    mode: ColumnResizeMode,
    i: usize,
    c: &Column,
    width: u32,
    used: u32,
    resize_x: i32,
    g: &HandleGesture,
    preview: &mut ResizePreviewState,
) -> (r: HandleOutcome)
    ensures
        (r, *final(preview)) == handle_step(mode, i, *c, width, used, resize_x, *g, *old(preview)),
        c.width_range.wf() && width_fits(*c, width as int, used) ==> width_fits(
            *c,
            r.width as int,
            used,
        ),
{
    match mode {
        ColumnResizeMode::Live => {
            let w = if g.dragging {
                resize_width(c, width as i64 + g.delta_x as i64, used)
            } else {
                width
            };
            let line: i64 = match g.pointer_x {
                Some(x) if g.dragging => x as i64,
                _ => resize_x as i64,
            };
            HandleOutcome {
                width: w,
                drag_active: g.dragging,
                line_x: line,
                show_resize_cursor: (g.hovered && !g.pointer_busy) || g.dragging,
            }
        },
        ColumnResizeMode::Deferred => {
            if g.started && (!preview.active || preview.column == Some(i)) {
                if let Some(x) = g.pointer_x {
                    *preview =
                        ResizePreviewState {
                            active: true,
                            column: Some(i),
                            start_width: width,
                            start_pointer_x: x,
                            start_handle_x: resize_x,
                            pending_width: width,
                            preview_x: resize_x as i64,
                        };
                }
            }
            let owned = preview.active && preview.column == Some(i);
            if owned {
                if let Some(x) = g.pointer_x {
                    let delta: i64 = x as i64 - preview.start_pointer_x as i64;
                    let pending = resize_width(c, preview.start_width as i64 + delta, used);
                    preview.pending_width = pending;
                    preview.preview_x = preview.start_handle_x as i64 + delta;
                }
            }
            let mut w = width;
            if owned && g.stopped {
                w = resize_width(c, preview.pending_width as i64, used);
                *preview = ResizePreviewState::idle();
            }
            let active = preview.active && preview.column == Some(i);
            HandleOutcome {
                width: w,
                drag_active: active,
                line_x: if active {
                    preview.preview_x
                } else {
                    resize_x as i64
                },
                show_resize_cursor: (g.hovered && !g.pointer_busy) || active,
            }
        },
    }
}

/// The gesture on a header handle tracked from raw pointer input, with
/// whether a drag was in progress on the previous frame. A drag starts with a
/// press inside `rect` and lasts while the primary button is held.
pub open spec fn header_gesture_spec(
    was_dragging: bool,
    pointer: PointerState,
    rect: Rect,
) -> HandleGesture {
    let inside = pointer.in_rect(rect);
    let started = pointer.primary_pressed && inside;
    HandleGesture {
        started,
        dragging: started || (was_dragging && pointer.primary_down),
        stopped: was_dragging && !pointer.primary_down,
        hovered: inside,
        pointer_busy: pointer.any_down,
        delta_x: pointer.delta_x,
        pointer_x: match pointer.pos {
            Some(p) => Some(p.x),
            None => None,
        },
    }
}

/// Tracks a header handle's gesture from raw pointer input (see
/// `header_gesture_spec`); `r.dragging` is what to remember for the next frame.
pub fn header_gesture(was_dragging: bool, pointer: &PointerState, rect: &Rect) -> (r:
    HandleGesture)
    ensures
        r == header_gesture_spec(was_dragging, *pointer, *rect),
{
    let inside = pointer.is_in(rect);
    let started = pointer.primary_pressed && inside;
    HandleGesture {
        started,
        dragging: started || (was_dragging && pointer.primary_down),
        stopped: was_dragging && !pointer.primary_down,
        hovered: inside,
        pointer_busy: pointer.any_down,
        delta_x: pointer.delta_x,
        pointer_x: match pointer.pos {
            Some(p) => Some(p.x),
            None => None,
        },
    }
}

impl TableResizeInfo {
    /// No resize in progress, in the given mode.
    pub fn inactive(mode: ColumnResizeMode) -> (r: TableResizeInfo)
        ensures
            r == (TableResizeInfo {
                active: false,
                column: None,
                preview_x: None,
                pending_width: None,
                mode,
            }),
    {
        TableResizeInfo { active: false, column: None, preview_x: None, pending_width: None, mode }
    }

    /// Publishes column `i`'s step when a drag of it is in progress; in
    /// `Deferred` mode the pending width is the preview's.
    pub fn record(
        &mut self,
        i: usize,
        mode: ColumnResizeMode,
        outcome: &HandleOutcome,
        preview: &ResizePreviewState,
    )
        ensures
            *final(self) == if outcome.drag_active {
                TableResizeInfo {
                    active: true,
                    column: Some(i),
                    preview_x: Some(outcome.line_x),
                    pending_width: Some(
                        if mode == ColumnResizeMode::Deferred {
                            preview.pending_width
                        } else {
                            outcome.width
                        },
                    ),
                    mode,
                }
            } else {
                *old(self)
            },
    {
        if outcome.drag_active {
            let pending = match mode {
                ColumnResizeMode::Deferred => preview.pending_width,
                ColumnResizeMode::Live => outcome.width,
            };
            *self =
                TableResizeInfo {
                    active: true,
                    column: Some(i),
                    preview_x: Some(outcome.line_x),
                    pending_width: Some(pending),
                    mode,
                };
        }
    }
}

} // verus!
