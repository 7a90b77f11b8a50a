//! Cross-frame sizing state of one grid: the first-frame distribution, the
//! re-sizing of every later frame against measured content, and the final
//! per-frame clamp.

use vstd::prelude::*;
use crate::column::{Column, InitialColumnSize};
use crate::range::SizeRange;
use crate::sizing::{distribute, fixed_total, flexible_count, Size, Sizing};

verus! {

/// The slot a column takes on the first frame: a literal width is fixed,
/// content-sized and remainder columns share the leftover.
pub open spec fn initial_size(c: Column) -> Size {
    match c.initial_width {
        InitialColumnSize::Absolute(w) => Size::Fixed { width: w, range: c.width_range },
        _ => Size::Flexible { range: c.width_range },
    }
}

pub open spec fn initial_sizes(cols: Seq<Column>) -> Seq<Size> {
    Seq::new(cols.len(), |i: int| initial_size(cols[i]))
}

/// The range a non-resizable column is held to on later frames: its declared
/// range, with the floor raised to the measured content unless it clips; the
/// declared maximum still wins.
pub open spec fn floor_range(c: Column, used: u32) -> SizeRange {
    if c.clip {
        c.width_range
    } else {
        SizeRange {
            min: if used <= c.width_range.min {
                c.width_range.min
            } else if used <= c.width_range.max {
                used
            } else {
                c.width_range.max
            },
            max: c.width_range.max,
        }
    }
}

/// The slot a column takes on a later frame, from its previous width and its
/// measured content width.
pub open spec fn relayout_size(c: Column, prev: u32, used: u32, default_resizable: bool) -> Size {
    if c.resizable_with(default_resizable) {
        Size::Fixed { width: prev, range: SizeRange { min: prev, max: prev } }
    } else {
        match c.initial_width {
            InitialColumnSize::Absolute(w) => Size::Fixed { width: w, range: floor_range(c, used) },
            InitialColumnSize::Automatic(_) => Size::Fixed {
                width: prev,
                range: floor_range(c, used),
            },
            InitialColumnSize::Remainder => Size::Flexible { range: floor_range(c, used) },
        }
    }
}

pub open spec fn relayout_sizes(
    cols: Seq<Column>,
    prev: Seq<u32>,
    used: Seq<u32>,
    default_resizable: bool,
) -> Seq<Size> {
    Seq::new(cols.len(), |i: int| relayout_size(cols[i], prev[i], used[i], default_resizable))
}

/// The widths of a later frame.
pub open spec fn relayout_widths(
    cols: Seq<Column>,
    prev: Seq<u32>,
    used: Seq<u32>,
    default_resizable: bool,
    available: int,
    spacing: int,
) -> Seq<u32> {
    distribute(relayout_sizes(cols, prev, used, default_resizable), available, spacing)
}

pub open spec fn min_u32(a: u32, b: u32) -> u32 {
    if a <= b {
        a
    } else {
        b
    }
}

pub open spec fn max_u32(a: u32, b: u32) -> u32 {
    if a >= b {
        a
    } else {
        b
    }
}

/// The final width of a column for this frame, from the width sizing gave it
/// and the width its content used.
pub open spec fn settle_width(
    c: Column,
    w: u32,
    used: u32,
    default_resizable: bool,
    sizing_pass: bool,
    ui_sizing_pass: bool,
) -> u32 {
    let w1 = if ui_sizing_pass {
        if c.clip {
            min_u32(w, used)
        } else {
            used
        }
    } else if !c.clip {
        max_u32(w, used)
    } else {
        w
    };
    if c.auto_size_this_frame || (c.is_auto_spec() && (sizing_pass
        || !c.resizable_with(default_resizable))) {
        c.width_range.clamp_of(used as int) as u32
    } else {
        c.width_range.clamp_of(w1 as int) as u32
    }
}

/// Whether any column is sized by its content.
pub open spec fn any_auto(cols: Seq<Column>) -> bool {
    exists|i: int| 0 <= i < cols.len() && (#[trigger] cols[i]).is_auto_spec()
}

/// The sizing state a grid keeps from one frame to the next.
#[derive(Clone, Debug)]
pub struct TableState {
    /// One width per column.
    pub column_widths: Vec<u32>,
    /// Horizontal scroll offset shared by header and body.
    pub scroll_offset_x: u32,
    /// Vertical scroll offset of the body.
    pub scroll_offset_y: u32,
    /// Content widths measured on the previous frame; empty until measured.
    pub max_used_widths: Vec<u32>,
}

/// The first-frame slots of the columns.
pub fn to_sizing(columns: &Vec<Column>) -> (r: Sizing)
    ensures
        r.sizes@ == initial_sizes(columns@),
{
    let mut sizing = Sizing::new();
    let mut i: usize = 0;
    while i < columns.len()
        invariant
            0 <= i <= columns@.len(),
            sizing.sizes@ == initial_sizes(columns@).subrange(0, i as int),
        decreases columns@.len() - i,
    {
        let c = columns[i];
        let size = match c.initial_width {
            InitialColumnSize::Absolute(w) => Size::Fixed { width: w, range: c.width_range },
            _ => Size::Flexible { range: c.width_range },
        };
        sizing.add(size);
        i = i + 1;
        assert(sizing.sizes@ =~= initial_sizes(columns@).subrange(0, i as int));
    }
    assert(initial_sizes(columns@).subrange(0, columns@.len() as int) =~= initial_sizes(columns@));
    sizing
}

/// The later-frame slots of the columns.
pub fn relayout_sizing(
    columns: &Vec<Column>,
    prev: &Vec<u32>,
    used: &Vec<u32>,
    default_resizable: bool,
) -> (r: Sizing)
    requires
        prev@.len() == columns@.len(),
        used@.len() == columns@.len(),
    ensures
        r.sizes@ == relayout_sizes(columns@, prev@, used@, default_resizable),
{
    let mut sizing = Sizing::new();
    let mut i: usize = 0;
    let ghost target = relayout_sizes(columns@, prev@, used@, default_resizable);
    while i < columns.len()
        invariant
            0 <= i <= columns@.len(),
            prev@.len() == columns@.len(),
            used@.len() == columns@.len(),
            target == relayout_sizes(columns@, prev@, used@, default_resizable),
            sizing.sizes@ == target.subrange(0, i as int),
        decreases columns@.len() - i,
    {
        let c = columns[i];
        let p = prev[i];
        let u = used[i];
        let floor = if c.clip {
            c.width_range
        } else {
            let lo = if u <= c.width_range.min {
                c.width_range.min
            } else if u <= c.width_range.max {
                u
            } else {
                c.width_range.max
            };
            SizeRange { min: lo, max: c.width_range.max }
        };
        let size = if c.is_resizable(default_resizable) {
            Size::Fixed { width: p, range: SizeRange::point(p) }
        } else {
            match c.initial_width {
                InitialColumnSize::Absolute(w) => Size::Fixed { width: w, range: floor },
                InitialColumnSize::Automatic(_) => Size::Fixed { width: p, range: floor },
                InitialColumnSize::Remainder => Size::Flexible { range: floor },
            }
        };
        sizing.add(size);
        i = i + 1;
        assert(sizing.sizes@ =~= target.subrange(0, i as int));
    }
    assert(target.subrange(0, columns@.len() as int) =~= target);
    sizing
}

/// The width of cell `col` of a row, or `None` when the row has more cells
/// than the grid has columns (the caller then lays out an empty cell).
pub fn cell_width(widths: &Vec<u32>, col: usize) -> (r: Option<u32>)
    ensures
        r == if col < widths@.len() {
            Some(widths@[col as int])
        } else {
            None
        },
{
    if col < widths.len() {
        Some(widths[col])
    } else {
        None
    }
}

/// Raises column `col`'s measured content width to `used` when `used` is
/// wider. Returns whether the column exists; nothing changes when it does not.
pub fn note_used_width(max_used: &mut Vec<u32>, col: usize, used: u32) -> (r: bool)
    ensures
        r == (col < old(max_used)@.len()),
        final(max_used)@ == if r {
            old(max_used)@.update(col as int, max_u32(old(max_used)@[col as int], used))
        } else {
            old(max_used)@
        },
{
    if col < max_used.len() {
        if used > max_used[col] {
            max_used.set(col, used);
        }
        proof {
            assert(max_used@ =~= old(max_used)@.update(col as int, max_u32(old(max_used)@[col as int], used)));
        }
        true
    } else {
        false
    }
}

impl TableState {
    /// The state to use this frame, from what was stored after the previous
    /// frame. Returns whether this frame is a sizing pass, in which content
    /// widths are measured.
    ///
    /// A stored state whose width count differs from the column count is
    /// discarded. Without a usable state the widths come from the first-frame
    /// distribution, and the frame is a sizing pass when any column is sized
    /// by its content. Outside a sizing pass, once content has been measured,
    /// the widths are re-derived against the measurement.
    pub fn load(
        stored: Option<TableState>,
        columns: &Vec<Column>,
        default_resizable: bool,
        available: u32,
        spacing: u32,
        ui_sizing_pass: bool,
    ) -> (r: (bool, TableState))
        ensures
            ({
                let kept = stored is Some && stored->0.column_widths@.len() == columns@.len();
                let base_widths = if kept {
                    stored->0.column_widths@
                } else {
                    distribute(initial_sizes(columns@), available as int, spacing as int)
                };
                let base_used = if kept {
                    stored->0.max_used_widths@
                } else {
                    Seq::empty()
                };
                &&& r.0 == (ui_sizing_pass || (!kept && any_auto(columns@)))
                &&& r.1.max_used_widths@ == base_used
                &&& r.1.scroll_offset_x == if kept {
                    stored->0.scroll_offset_x
                } else {
                    0
                }
                &&& r.1.scroll_offset_y == if kept {
                    stored->0.scroll_offset_y
                } else {
                    0
                }
                &&& r.1.column_widths@ == if !r.0 && base_used.len() == columns@.len() {
                    relayout_widths(
                        columns@,
                        base_widths,
                        base_used,
                        default_resizable,
                        available as int,
                        spacing as int,
                    )
                } else {
                    base_widths
                }
            }),
            r.1.column_widths@.len() == columns@.len(),
    {
        let n = columns.len();
        let kept = match &stored {
            Some(s) => s.column_widths.len() == n,
            None => false,
        };
        let mut any = false;
        let mut i: usize = 0;
        while i < n
            invariant
                n == columns@.len(),
                0 <= i <= n,
                any == exists|j: int| 0 <= j < i && (#[trigger] columns@[j]).is_auto_spec(),
            decreases n - i,
        {
            if columns[i].is_auto() {
                any = true;
            }
            i = i + 1;
        }
        let is_sizing_pass = ui_sizing_pass || (!kept && any);
        let mut state = if kept {
            stored.unwrap()
        } else {
            let widths = to_sizing(columns).to_lengths(available, spacing);
            TableState {
                column_widths: widths,
                scroll_offset_x: 0,
                scroll_offset_y: 0,
                max_used_widths: Vec::new(),
            }
        };
        assert(state.max_used_widths@ =~= if kept {
            stored->0.max_used_widths@
        } else {
            Seq::empty()
        });
        if !is_sizing_pass && state.max_used_widths.len() == n {
            let sizing = relayout_sizing(
                columns,
                &state.column_widths,
                &state.max_used_widths,
                default_resizable,
            );
            state.column_widths = sizing.to_lengths(available, spacing);
        }
        (is_sizing_pass, state)
    }
    /// The final clamp of the frame, once content widths have been measured:
    /// each width is raised to its content unless the column clips, held to
    /// its range, and fitted to its content when the column asked for that or
    /// is content-sized and not under the user's control. Every one-shot fit
    /// request is then cleared.
    pub fn settle(
        &mut self,
        columns: &mut Vec<Column>,
        measured: &Vec<u32>,
        default_resizable: bool,
        sizing_pass: bool,
        ui_sizing_pass: bool,
    )
        requires
            old(self).column_widths@.len() == old(columns)@.len(),
            measured@.len() == old(columns)@.len(),
        ensures
            final(self).column_widths@.len() == old(columns)@.len(),
            final(columns)@.len() == old(columns)@.len(),
            forall|i: int|
                0 <= i < old(columns)@.len() ==> #[trigger] final(self).column_widths@[i]
                    == settle_width(
                    old(columns)@[i],
                    old(self).column_widths@[i],
                    measured@[i],
                    default_resizable,
                    sizing_pass,
                    ui_sizing_pass,
                ),
            forall|i: int|
                0 <= i < old(columns)@.len() ==> #[trigger] final(columns)@[i] == (Column {
                    auto_size_this_frame: false,
                    ..old(columns)@[i]
                }),
            forall|i: int|
                0 <= i < old(columns)@.len() && old(columns)@[i].width_range.wf() ==> {
                    let c = old(columns)@[i];
                    let w = #[trigger] final(self).column_widths@[i];
                    &&& c.width_range.min <= w <= c.width_range.max
                    &&& (!c.clip && measured@[i] <= c.width_range.max) ==> measured@[i] <= w
                },
            final(self).scroll_offset_x == old(self).scroll_offset_x,
            final(self).scroll_offset_y == old(self).scroll_offset_y,
            final(self).max_used_widths@ == old(self).max_used_widths@,
    {
        let n = columns.len();
        let mut i: usize = 0;
        while i < n
            invariant
                n == old(columns)@.len(),
                0 <= i <= n,
                self.column_widths@.len() == n,
                columns@.len() == n,
                measured@.len() == n,
                forall|j: int|
                    0 <= j < i ==> #[trigger] self.column_widths@[j] == settle_width(
                        old(columns)@[j],
                        old(self).column_widths@[j],
                        measured@[j],
                        default_resizable,
                        sizing_pass,
                        ui_sizing_pass,
                    ),
                forall|j: int| i <= j < n ==> #[trigger] self.column_widths@[j] == old(self).column_widths@[j],
                forall|j: int|
                    0 <= j < i ==> #[trigger] columns@[j] == (Column {
                        auto_size_this_frame: false,
                        ..old(columns)@[j]
                    }),
                forall|j: int| i <= j < n ==> #[trigger] columns@[j] == old(columns)@[j],
                self.scroll_offset_x == old(self).scroll_offset_x,
                self.scroll_offset_y == old(self).scroll_offset_y,
                self.max_used_widths@ == old(self).max_used_widths@,
            decreases n - i,
        {
            let c = columns[i];
            let w = self.column_widths[i];
            let used = measured[i];
            let w1 = if ui_sizing_pass {
                if c.clip {
                    if w <= used {
                        w
                    } else {
                        used
                    }
                } else {
                    used
                }
            } else if !c.clip {
                if w >= used {
                    w
                } else {
                    used
                }
            } else {
                w
            };
            let fit = c.auto_size_this_frame || (c.is_auto() && (sizing_pass || !c.is_resizable(
                default_resizable,
            )));
            let settled = if fit {
                c.width_range.clamp(used)
            } else {
                c.width_range.clamp(w1)
            };
            self.column_widths.set(i, settled);
            columns.set(i, Column { auto_size_this_frame: false, ..c });
            i = i + 1;
        }
    }

    /// Records what this frame measured and where it scrolled to, for the
    /// next frame to load.
    pub fn record_frame(&mut self, measured: Vec<u32>, scroll_offset_x: u32, scroll_offset_y: u32)
        ensures
            final(self).max_used_widths@ == measured@,
            final(self).scroll_offset_x == scroll_offset_x,
            final(self).scroll_offset_y == scroll_offset_y,
            final(self).column_widths@ == old(self).column_widths@,
    {
        self.max_used_widths = measured;
        self.scroll_offset_x = scroll_offset_x;
        self.scroll_offset_y = scroll_offset_y;
    }
}

/// Every width of a frame after the final clamp.
pub open spec fn settled_widths(
    cols: Seq<Column>,
    w: Seq<u32>,
    used: Seq<u32>,
    default_resizable: bool,
    sizing_pass: bool,
) -> Seq<u32> {
    Seq::new(
        cols.len(),
        |i: int| settle_width(cols[i], w[i], used[i], default_resizable, sizing_pass, false),
    )
}

/// The widths a whole later frame leaves behind, without pointer input:
/// re-distribution against the measured widths, then the final clamp.
pub open spec fn frame_widths(
    cols: Seq<Column>,
    prev: Seq<u32>,
    used: Seq<u32>,
    default_resizable: bool,
    available: int,
    spacing: int,
) -> Seq<u32> {
    settled_widths(
        cols,
        relayout_widths(cols, prev, used, default_resizable, available, spacing),
        used,
        default_resizable,
        false,
    )
}

/// The final clamp is idempotent.
pub proof fn lemma_settle_idempotent(
    c: Column,
    w: u32,
    used: u32,
    default_resizable: bool,
    sizing_pass: bool,
)
    requires
        c.width_range.wf(),
    ensures
        settle_width(
            c,
            settle_width(c, w, used, default_resizable, sizing_pass, false),
            used,
            default_resizable,
            sizing_pass,
            false,
        ) == settle_width(c, w, used, default_resizable, sizing_pass, false),
{
}

/// A frame leaves widths that its own final clamp keeps as they are.
pub proof fn lemma_frame_widths_settled(
    cols: Seq<Column>,
    prev: Seq<u32>,
    used: Seq<u32>,
    default_resizable: bool,
    available: u32,
    spacing: u32,
)
    requires
        prev.len() == cols.len(),
        used.len() == cols.len(),
        forall|i: int| 0 <= i < cols.len() ==> (#[trigger] cols[i]).width_range.wf(),
    ensures
        ({
            let out = frame_widths(cols, prev, used, default_resizable, available as int, spacing as int);
            &&& out.len() == cols.len()
            &&& forall|i: int|
                0 <= i < cols.len() ==> settle_width(
                    cols[i],
                    #[trigger] out[i],
                    used[i],
                    default_resizable,
                    false,
                    false,
                ) == out[i]
        }),
{
    let w = relayout_widths(cols, prev, used, default_resizable, available as int, spacing as int);
    assert forall|i: int| 0 <= i < cols.len() implies settle_width(
        cols[i],
        #[trigger] frame_widths(cols, prev, used, default_resizable, available as int, spacing as int)[i],
        used[i],
        default_resizable,
        false,
        false,
    ) == frame_widths(cols, prev, used, default_resizable, available as int, spacing as int)[i] by {
        lemma_settle_idempotent(cols[i], w[i], used[i], default_resizable, false);
    }
}

/// Two whole frames in a row, with the same columns, measurements and
/// available width and no pointer input, leave the same widths, once the
/// widths they start from are settled (as every stored frame's are, see
/// `lemma_frame_widths_settled`).
pub proof fn lemma_frame_idempotent(
    cols: Seq<Column>,
    prev: Seq<u32>,
    used: Seq<u32>,
    default_resizable: bool,
    available: u32,
    spacing: u32,
)
    requires
        prev.len() == cols.len(),
        used.len() == cols.len(),
        forall|i: int| 0 <= i < cols.len() ==> (#[trigger] cols[i]).width_range.wf(),
        forall|i: int|
            0 <= i < cols.len() ==> settle_width(
                cols[i],
                #[trigger] prev[i],
                used[i],
                default_resizable,
                false,
                false,
            ) == prev[i],
    ensures
        ({
            let once = frame_widths(cols, prev, used, default_resizable, available as int, spacing as int);
            frame_widths(cols, once, used, default_resizable, available as int, spacing as int) == once
        }),
{
    let a = available as int;
    let sp = spacing as int;
    let once = frame_widths(cols, prev, used, default_resizable, a, sp);
    let w1 = relayout_widths(cols, prev, used, default_resizable, a, sp);
    let s1 = relayout_sizes(cols, prev, used, default_resizable);
    let s2 = relayout_sizes(cols, once, used, default_resizable);
    assert forall|i: int| 0 <= i < cols.len() implies #[trigger] s2[i] == s1[i] by {
        let c = cols[i];
        if c.resizable_with(default_resizable) {
            assert(prev[i] == settle_width(c, prev[i], used[i], default_resizable, false, false));
            assert(w1[i] == prev[i]);
            assert(once[i] == prev[i]);
        } else if c.initial_width is Automatic {
            assert(prev[i] == settle_width(c, prev[i], used[i], default_resizable, false, false));
            assert(once[i] == prev[i]);
        }
    }
    assert(s2 =~= s1);
    assert(frame_widths(cols, once, used, default_resizable, a, sp) =~= once);
}

proof fn lemma_same_parts(a: Seq<Size>, b: Seq<Size>)
    requires
        a.len() == b.len(),
        forall|i: int|
            0 <= i < a.len() ==> (#[trigger] a[i]).fixed_part() == b[i].fixed_part()
                && a[i].is_flexible() == b[i].is_flexible(),
    ensures
        fixed_total(a) == fixed_total(b),
        flexible_count(a) == flexible_count(b),
    decreases a.len(),
{
    if a.len() > 0 {
        let da = a.drop_last();
        let db = b.drop_last();
        assert forall|i: int|
            0 <= i < da.len() implies (#[trigger] da[i]).fixed_part() == db[i].fixed_part()
                && da[i].is_flexible() == db[i].is_flexible() by {
            assert(da[i] == a[i] && db[i] == b[i]);
        }
        lemma_same_parts(da, db);
    }
}

/// Re-running the later-frame sizing on its own result, with the same
/// columns, measurements and available width, changes nothing.
pub proof fn lemma_relayout_idempotent(
    cols: Seq<Column>,
    prev: Seq<u32>,
    used: Seq<u32>,
    default_resizable: bool,
    available: u32,
    spacing: u32,
)
    requires
        prev.len() == cols.len(),
        used.len() == cols.len(),
        forall|i: int| 0 <= i < cols.len() ==> (#[trigger] cols[i]).width_range.wf(),
    ensures
        ({
            let once = relayout_widths(
                cols,
                prev,
                used,
                default_resizable,
                available as int,
                spacing as int,
            );
            relayout_widths(cols, once, used, default_resizable, available as int, spacing as int)
                == once
        }),
{
    let a = available as int;
    let sp = spacing as int;
    let s1 = relayout_sizes(cols, prev, used, default_resizable);
    let once = distribute(s1, a, sp);
    let s2 = relayout_sizes(cols, once, used, default_resizable);
    let share1 = crate::sizing::remainder_share(s1, a, sp);
    assert forall|i: int| 0 <= i < cols.len() implies (#[trigger] s2[i]).fixed_part()
        == s1[i].fixed_part() && s2[i].is_flexible() == s1[i].is_flexible() && (forall|x: int|
        s2[i].length_for(x) == s1[i].length_for(x)) by {
        let c = cols[i];
        let fr = floor_range(c, used[i]);
        assert(fr.wf());
        assert(once[i] == s1[i].length_for(share1) as u32);
        if !c.resizable_with(default_resizable) {
            if c.initial_width is Automatic {
                crate::range::lemma_clamp_idempotent(fr, prev[i] as int);
            }
        }
    }
    lemma_same_parts(s2, s1);
    let twice = distribute(s2, a, sp);
    assert(twice =~= once);
}

} // verus!
