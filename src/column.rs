//! Column specifications: initial size policy, allowed width range and flags.

use vstd::prelude::*;
use crate::range::SizeRange;

verus! {

/// How a column's width is chosen when the grid is first drawn.
#[derive(Clone, Copy, Debug, PartialEq, Eq, Structural)]
pub enum InitialColumnSize {
    /// This literal width.
    Absolute(u32),
    /// Sized by its content; the value is a loose suggestion that content
    /// with a wrapping layout may use before the first measurement.
    Automatic(u32),
    /// Takes a share of whatever width the other columns leave.
    Remainder,
}

/// The declared properties of one column of the grid.
#[derive(Clone, Copy, Debug, PartialEq, Eq, Structural)]
pub struct Column {
    pub initial_width: InitialColumnSize,
    pub width_range: SizeRange,
    /// May the column shrink below its measured content (clipping it)?
    pub clip: bool,
    /// `None` defers to the grid's default.
    pub resizable: Option<bool>,
    /// One-shot request to fit the column to its content this frame.
    pub auto_size_this_frame: bool,
    /// Pinned columns do not scroll horizontally.
    pub fixed: bool,
}

impl Column {
    /// Whether the column can be resized, given the grid's default.
    pub open spec fn resizable_with(self, default: bool) -> bool {
        match self.resizable {
            Some(b) => b,
            None => default,
        }
    }

    /// Whether the column is sized by its content.
    pub open spec fn is_auto_spec(self) -> bool {
        self.initial_width is Automatic
    }

    /// The column with the given initial size and every other property at its default.
    pub open spec fn with_initial(initial_width: InitialColumnSize) -> Column {
        Column {
            initial_width,
            width_range: SizeRange { min: 0, max: crate::range::UNBOUNDED },
            clip: false,
            resizable: None,
            auto_size_this_frame: false,
            fixed: false,
        }
    }

    fn new(initial_width: InitialColumnSize) -> (r: Column)
        ensures
            r == Column::with_initial(initial_width),
    {
        Column {
            initial_width,
            width_range: SizeRange::everything(),
            clip: false,
            resizable: None,
            auto_size_this_frame: false,
            fixed: false,
        }
    }

    /// Sized by its content, with a default suggestion of 100.
    pub fn auto() -> (r: Column)
        ensures
            r == Column::with_initial(InitialColumnSize::Automatic(100)),
    {
        Column::auto_with_initial_suggestion(100)
    }

    /// Sized by its content, with the given suggestion.
    pub fn auto_with_initial_suggestion(suggested_width: u32) -> (r: Column)
        ensures
            r == Column::with_initial(InitialColumnSize::Automatic(suggested_width)),
    {
        Column::new(InitialColumnSize::Automatic(suggested_width))
    }

    /// Starts at this width.
    pub fn initial(width: u32) -> (r: Column)
        ensures
            r == Column::with_initial(InitialColumnSize::Absolute(width)),
    {
        Column::new(InitialColumnSize::Absolute(width))
    }

    /// Always exactly this width: its range is the single point and it clips.
    pub fn exact(width: u32) -> (r: Column)
        ensures
            r == (Column {
                width_range: SizeRange { min: width, max: width },
                clip: true,
                ..Column::with_initial(InitialColumnSize::Absolute(width))
            }),
    {
        Column::new(InitialColumnSize::Absolute(width)).range(SizeRange::point(width)).clip(true)
    }

    /// Shares the width left by the other columns.
    pub fn remainder() -> (r: Column)
        ensures
            r == Column::with_initial(InitialColumnSize::Remainder),
    {
        Column::new(InitialColumnSize::Remainder)
    }

    /// Sets whether the column can be resized by dragging its border.
    pub fn resizable(self, resizable: bool) -> (r: Column)
        ensures
            r == (Column { resizable: Some(resizable), ..self }),
    {
        Column { resizable: Some(resizable), ..self }
    }

    /// Sets whether the column may shrink below its content.
    pub fn clip(self, clip: bool) -> (r: Column)
        ensures
            r == (Column { clip, ..self }),
    {
        Column { clip, ..self }
    }

    /// Sets whether the column is pinned against horizontal scrolling.
    pub fn column_fixed(self, fixed: bool) -> (r: Column)
        ensures
            r == (Column { fixed, ..self }),
    {
        Column { fixed, ..self }
    }

    /// Sets the smallest allowed width.
    pub fn at_least(self, minimum: u32) -> (r: Column)
        ensures
            r == (Column { width_range: SizeRange { min: minimum, max: self.width_range.max }, ..self }),
    {
        Column { width_range: SizeRange { min: minimum, max: self.width_range.max }, ..self }
    }

    /// Sets the largest allowed width.
    pub fn at_most(self, maximum: u32) -> (r: Column)
        ensures
            r == (Column { width_range: SizeRange { min: self.width_range.min, max: maximum }, ..self }),
    {
        Column { width_range: SizeRange { min: self.width_range.min, max: maximum }, ..self }
    }

    /// Sets the allowed width range.
    pub fn range(self, range: SizeRange) -> (r: Column)
        ensures
            r == (Column { width_range: range, ..self }),
    {
        Column { width_range: range, ..self }
    }

    /// Asks for the column to be fitted to its content this frame.
    pub fn auto_size_this_frame(self, auto_size_this_frame: bool) -> (r: Column)
        ensures
            r == (Column { auto_size_this_frame, ..self }),
    {
        Column { auto_size_this_frame, ..self }
    }

    /// Whether the column is sized by its content.
    pub fn is_auto(&self) -> (r: bool)
        ensures
            r == self.is_auto_spec(),
    {
        match self.initial_width {
            InitialColumnSize::Automatic(_) => true,
            InitialColumnSize::Absolute(_) | InitialColumnSize::Remainder => false,
        }
    }

    /// Whether the column can be resized, given the grid's default.
    pub fn is_resizable(&self, default: bool) -> (r: bool)
        ensures
            r == self.resizable_with(default),
    {
        match self.resizable {
            Some(b) => b,
            None => default,
        }
    }
}

} // verus!
