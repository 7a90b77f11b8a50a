//! Frame-by-frame layout engine of a virtualized data grid: column sizing,
//! drag-to-resize state machines for columns and rows, and row virtualization.
//!
//! All lengths are whole numbers of layout units; positions on screen are
//! signed. The host toolkit converts its own coordinates to and from these,
//! reads pointer input, draws, and keeps the state between frames.

pub mod column;
pub mod geometry;
pub mod range;
pub mod resize;
pub mod row_resize;
pub mod scroll;
pub mod sizing;
pub mod state;
pub mod virtualize;

pub use column::{Column, InitialColumnSize};
pub use geometry::{Point, PointerState, Rect};
pub use range::{SizeRange, UNBOUNDED};
pub use resize::{
    column_handle_step, header_gesture, resize_width, ColumnResizeMode, HandleGesture,
    HandleOutcome, ResizePreviewState, TableResizeInfo,
};
pub use row_resize::{handle_row_resize, RowResizeConfig, RowResizeOutcome, RowResizeState};
pub use scroll::{available_width, fixed_columns_width, handle_x, row_striped, sizing_width, sync_offset};
pub use sizing::{Size, Sizing};
pub use state::{cell_width, note_used_width, relayout_sizing, to_sizing, TableState};
pub use virtualize::{
    heterogeneous_rows_layout, resolve_scroll_target, row_scroll_span, uniform_rows, RowPlacement, RowWalker, RowWindow, Span,
    VariableRowsLayout,
};
