//! Horizontal scroll coordination between header and body, and the geometry
//! of pinned columns.

use vstd::prelude::*;
use crate::column::Column;

verus! {

/// Width the grid sizes its columns against when it scrolls horizontally.
pub const SCROLLING_SIZING_WIDTH: u32 = 1000000;

/// Total width of the pinned columns among the first `k`.
pub open spec fn pinned_width(cols: Seq<Column>, widths: Seq<u32>, k: int) -> int
    decreases k,
{
    if k <= 0 {
        0
    } else {
        pinned_width(cols, widths, k - 1) + if cols[k - 1].fixed {
            widths[k - 1] as int
        } else {
            0int
        }
    }
}

/// Total width of the pinned columns; the scrollable region starts after it.
pub fn fixed_columns_width(columns: &Vec<Column>, widths: &Vec<u32>) -> (r: u64)
    requires
        widths@.len() == columns@.len(),
        columns@.len() <= u32::MAX,
    ensures
        r == pinned_width(columns@, widths@, columns@.len() as int),
{
    let mut total: u64 = 0;
    let mut i: usize = 0;
    while i < columns.len()
        invariant
            widths@.len() == columns@.len(),
            columns@.len() <= u32::MAX,
            0 <= i <= columns@.len(),
            total == pinned_width(columns@, widths@, i as int),
            total <= i * 4294967295,
        decreases columns@.len() - i,
    {
        if columns[i].fixed {
            total = total + widths[i] as u64;
        }
        i = i + 1;
    }
    total
}

/// Where a column's border handle is, given where the border is laid out:
/// a pinned column does not move with the scroll, so the offset is added back.
pub fn handle_x(border_x: i32, fixed: bool, scroll_offset_x: u32) -> (r: i64)
    ensures
        r == if fixed {
            border_x + scroll_offset_x
        } else {
            border_x as int
        },
{
    if fixed {
        border_x as i64 + scroll_offset_x as i64
    } else {
        border_x as i64
    }
}

/// The authoritative horizontal offset after a frame: the header's when the
/// header moved away from the offset it was given, else the body's.
pub fn sync_offset(given: u32, header_now: u32, body_now: u32) -> (r: u32)
    ensures
        r == if header_now != given {
            header_now
        } else {
            body_now
        },
{
    if header_now != given {
        header_now
    } else {
        body_now
    }
}

/// The width left for the columns: the region's width less a vertical
/// scroll bar when there is one, never below zero.
pub fn available_width(region_width: u32, vscroll: bool, scroll_bar_width: u32) -> (r: u32)
    ensures
        r == if !vscroll {
            region_width as int
        } else if region_width >= scroll_bar_width {
            region_width - scroll_bar_width
        } else {
            0
        },
{
    if !vscroll {
        region_width
    } else if region_width >= scroll_bar_width {
        region_width - scroll_bar_width
    } else {
        0
    }
}

/// The width columns are sized against: the available width, or a wide
/// constant when the grid scrolls horizontally.
pub fn sizing_width(hscroll: bool, available: u32) -> (r: u32)
    ensures
        r == if hscroll {
            SCROLLING_SIZING_WIDTH
        } else {
            available
        },
{
    if hscroll {
        SCROLLING_SIZING_WIDTH
    } else {
        available
    }
}

/// Whether row `row_index` gets the striped background, counting from `first_index`.
pub fn row_striped(striped: bool, row_index: usize, first_index: usize) -> (r: bool)
    ensures
        r == (striped && (row_index + first_index) % 2 == 0),
{
    striped && ((row_index % 2 + first_index % 2) % 2 == 0)
}

} // verus!
