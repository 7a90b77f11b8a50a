//! Viewport virtualization: which rows to draw for a scroll position, and the
//! spacers that stand for the rows that are not drawn.

use vstd::prelude::*;

verus! {

/// A vertical span of the content, `top` to `bottom`.
#[derive(Clone, Copy, Debug, PartialEq, Eq, Structural)]
pub struct Span {
    pub top: u64,
    pub bottom: u64,
}

/// The rows to draw when every row has the same height.
#[derive(Clone, Copy, Debug, PartialEq, Eq, Structural)]
pub struct RowWindow {
    /// First row drawn.
    pub min_row: usize,
    /// One past the last row drawn.
    pub max_row: usize,
    /// Height of the spacer above the drawn rows.
    pub leading: u64,
    /// Height of the spacer below the drawn rows.
    pub trailing: u64,
    /// The vertical span to bring into view, when a row was asked for.
    pub scroll_target: Option<Span>,
}

/// `a / b` rounded up.
pub open spec fn ceil_div(a: int, b: int) -> int {
    (a + b - 1) / b
}

/// The scroll offset, held to the content height.
pub open spec fn held_offset(row_height: u32, total_rows: usize, scroll: u64) -> int {
    if scroll <= total_rows * row_height {
        scroll as int
    } else {
        total_rows * row_height
    }
}

/// The first row drawn: the row under the top of the viewport.
pub open spec fn first_row(row_height: u32, total_rows: usize, scroll: u64) -> int {
    held_offset(row_height, total_rows, scroll) / (row_height as int)
}

/// One past the last row drawn: one more than the rows the viewport reaches,
/// but no more than there are.
pub open spec fn end_row(row_height: u32, total_rows: usize, scroll: u64, viewport: u64) -> int {
    let e = ceil_div(held_offset(row_height, total_rows, scroll) + viewport, row_height as int) + 1;
    if e <= total_rows {
        e
    } else {
        total_rows as int
    }
}

/// Chooses the rows to draw out of `total_rows` rows of `row_height` each,
/// for a viewport of height `viewport` scrolled down by `scroll`, and the span
/// of row `scroll_to_row` when one is asked for; a row beyond the last one
/// resolves to the single point at the end of the content.
pub fn uniform_rows(
    row_height: u32,
    total_rows: usize,
    scroll: u64,
    viewport: u64,
    scroll_to_row: Option<usize>,
) -> (r: RowWindow)
    requires
        row_height > 0,
        total_rows * row_height <= u64::MAX,
    ensures
        r.min_row == first_row(row_height, total_rows, scroll),
        r.max_row == end_row(row_height, total_rows, scroll, viewport),
        r.min_row <= r.max_row <= total_rows,
        r.leading == r.min_row * row_height,
        r.trailing == (total_rows - r.max_row) * row_height,
        r.leading + (r.max_row - r.min_row) * row_height + r.trailing == total_rows * row_height,
        r.scroll_target == match scroll_to_row {
            Some(row) => if row < total_rows {
                Some(Span { top: (row * row_height) as u64, bottom: ((row + 1) * row_height) as u64 })
            } else {
                Some(
                    Span {
                        top: (total_rows * row_height) as u64,
                        bottom: (total_rows * row_height) as u64,
                    },
                )
            },
            None => None,
        },
{
    let h = row_height as u128;
    let total = total_rows as u128;
    let content: u128 = total * h;
    let s: u128 = if (scroll as u128) <= content {
        scroll as u128
    } else {
        content
    };
    let min_row: u128 = s / h;
    let reach: u128 = (s + viewport as u128 + h - 1) / h + 1;
    let max_row: u128 = if reach <= total {
        reach
    } else {
        total
    };
    proof {
        assert(min_row * h <= s) by (nonlinear_arith)
            requires
                min_row == s / h,
                h > 0,
        ;
        assert(min_row <= total) by (nonlinear_arith)
            requires
                min_row == s / h,
                h > 0,
                s <= total * h,
        ;
        assert(min_row < reach) by (nonlinear_arith)
            requires
                min_row == s / h,
                reach as int == (s as int + viewport as int + h as int - 1) / (h as int) + 1,
                h > 0,
        ;
        assert(min_row * h + (max_row - min_row) * h + (total - max_row) * h == total * h)
            by (nonlinear_arith);
        assert((total - max_row) * h <= total * h) by (nonlinear_arith)
            requires
                max_row <= total,
        ;
    }
    let leading: u128 = min_row * h;
    let trailing: u128 = (total - max_row) * h;
    let scroll_target = match scroll_to_row {
        Some(row) => if (row as u128) < total {
            let k = row as u128;
            proof {
                assert((k + 1) * h <= total * h) by (nonlinear_arith)
                    requires
                        k < total,
                ;
                assert(k * h <= (k + 1) * h) by (nonlinear_arith);
            }
            let top: u128 = k * h;
            let bottom: u128 = (k + 1) * h;
            Some(Span { top: top as u64, bottom: bottom as u64 })
        } else {
            Some(Span { top: content as u64, bottom: content as u64 })
        },
        None => None,
    };
    RowWindow {
        min_row: min_row as usize,
        max_row: max_row as usize,
        leading: leading as u64,
        trailing: trailing as u64,
        scroll_target,
    }
}

/// Height of the first `i` rows.
pub open spec fn prefix_height(hs: Seq<u32>, i: int) -> int
    decreases i,
{
    if i <= 0 {
        0
    } else {
        prefix_height(hs, i - 1) + hs[i - 1]
    }
}

/// Whether row `i` reaches into the viewport `[scroll, scroll + viewport]`.
pub open spec fn row_visible(hs: Seq<u32>, i: int, scroll: int, viewport: int) -> bool {
    prefix_height(hs, i + 1) >= scroll && prefix_height(hs, i) <= scroll + viewport
}

proof fn lemma_prefix_push(hs: Seq<u32>, h: u32, i: int)
    requires
        0 <= i <= hs.len(),
    ensures
        prefix_height(hs.push(h), i) == prefix_height(hs, i),
    decreases i,
{
    if i > 0 {
        lemma_prefix_push(hs, h, i - 1);
    }
}

proof fn lemma_prefix_push_all(hs: Seq<u32>, h: u32)
    ensures
        forall|i: int|
            0 <= i <= hs.len() ==> #[trigger] prefix_height(hs.push(h), i) == prefix_height(hs, i),
        prefix_height(hs.push(h), hs.len() as int + 1) == prefix_height(hs, hs.len() as int) + h,
{
    lemma_prefix_push(hs, h, hs.len() as int);
    assert(hs.push(h)[hs.len() as int] == h);
    assert forall|i: int| 0 <= i <= hs.len() implies #[trigger] prefix_height(hs.push(h), i)
        == prefix_height(hs, i) by {
        lemma_prefix_push(hs, h, i);
    }
}

proof fn lemma_prefix_monotone(hs: Seq<u32>, a: int, b: int)
    requires
        0 <= a <= b,
    ensures
        prefix_height(hs, a) <= prefix_height(hs, b),
    decreases b - a,
{
    if a < b {
        lemma_prefix_monotone(hs, a, b - 1);
    }
}

/// Where one row of a variable-height walk goes.
#[derive(Clone, Copy, Debug, PartialEq, Eq, Structural)]
pub enum RowPlacement {
    /// Above the viewport: folded into the leading spacer.
    Skipped,
    /// Drawn, with its top at this offset.
    Rendered { top: u64 },
    /// Below the viewport: folded into the trailing spacer.
    Below,
}

/// How far a walk has come relative to the viewport.
#[derive(Clone, Copy, Debug, PartialEq, Eq, Structural)]
pub enum WalkPhase {
    Above,
    Visible,
    Below,
}

/// The result of a variable-height walk.
#[derive(Clone, Copy, Debug, PartialEq, Eq, Structural)]
pub struct VariableRowsLayout {
    /// First row drawn.
    pub first_row: usize,
    /// One past the last row drawn.
    pub end_row: usize,
    /// Height of the spacer above the drawn rows.
    pub leading: u64,
    /// Height of the drawn rows.
    pub rendered_height: u64,
    /// Height of the spacer below the drawn rows.
    pub trailing: u64,
    /// The span to bring into view, when a row was asked for.
    pub scroll_target: Option<Span>,
}

/// A single pass over the row heights, one row at a time, in constant space:
/// rows above the viewport fold into one leading spacer, rows that reach into
/// it are drawn, rows below fold into one trailing spacer.
pub struct RowWalker {
    scroll: u64,
    viewport: u64,
    cursor: u64,
    index: usize,
    phase: WalkPhase,
    first: usize,
    end: usize,
    leading: u64,
    end_offset: u64,
    scroll_to: Option<usize>,
    scroll_target: Option<Span>,
    seen: Ghost<Seq<u32>>,
}

impl RowWalker {
    /// The heights walked so far.
    pub closed spec fn seen(&self) -> Seq<u32> {
        self.seen@
    }

    pub closed spec fn scroll_spec(&self) -> int {
        self.scroll as int
    }

    pub closed spec fn viewport_spec(&self) -> int {
        self.viewport as int
    }

    pub closed spec fn scroll_to_spec(&self) -> Option<usize> {
        self.scroll_to
    }

    pub closed spec fn wf(&self) -> bool {
        let hs = self.seen@;
        let s = self.scroll as int;
        let e = self.scroll + self.viewport;
        &&& self.index == hs.len()
        &&& self.cursor == prefix_height(hs, hs.len() as int)
        &&& match self.phase {
            WalkPhase::Above => forall|i: int|
                0 <= i < self.index ==> #[trigger] prefix_height(hs, i + 1) < s,
            WalkPhase::Visible => {
                &&& self.first < self.index
                &&& s <= self.cursor <= e
                &&& self.leading == prefix_height(hs, self.first as int)
                &&& forall|i: int| 0 <= i < self.first ==> #[trigger] prefix_height(hs, i + 1) < s
                &&& forall|i: int|
                    self.first <= i < self.index ==> #[trigger] row_visible(
                        hs,
                        i,
                        s,
                        self.viewport as int,
                    )
            },
            WalkPhase::Below => {
                &&& self.first < self.end <= self.index
                &&& self.cursor > e
                &&& self.leading == prefix_height(hs, self.first as int)
                &&& self.end_offset == prefix_height(hs, self.end as int)
                &&& self.end_offset > e
                &&& forall|i: int| 0 <= i < self.first ==> #[trigger] prefix_height(hs, i + 1) < s
                &&& forall|i: int|
                    self.first <= i < self.end ==> #[trigger] row_visible(
                        hs,
                        i,
                        s,
                        self.viewport as int,
                    )
                &&& forall|i: int| self.end <= i < self.index ==> #[trigger] prefix_height(hs, i) > e
            },
        }
        &&& match self.scroll_to {
            Some(r) => if r < self.index {
                self.scroll_target == Some(
                    Span {
                        top: prefix_height(hs, r as int) as u64,
                        bottom: prefix_height(hs, r + 1) as u64,
                    },
                )
            } else {
                self.scroll_target is None
            },
            None => self.scroll_target is None,
        }
    }

    /// A walk for a viewport of height `viewport` scrolled down by `scroll`,
    /// looking for row `scroll_to_row` when one is asked for.
    pub fn new(scroll: u64, viewport: u64, scroll_to_row: Option<usize>) -> (r: RowWalker)
        ensures
            r.wf(),
            r.seen() == Seq::<u32>::empty(),
            r.scroll_spec() == scroll,
            r.viewport_spec() == viewport,
            r.scroll_to_spec() == scroll_to_row,
    {
        RowWalker {
            scroll,
            viewport,
            cursor: 0,
            index: 0,
            phase: WalkPhase::Above,
            first: 0,
            end: 0,
            leading: 0,
            end_offset: 0,
            scroll_to: scroll_to_row,
            scroll_target: None,
            seen: Ghost(Seq::empty()),
        }
    }

    /// Height walked so far.
    pub fn offset(&self) -> (r: u64)
        requires
            self.wf(),
        ensures
            r == prefix_height(self.seen(), self.seen().len() as int),
    {
        self.cursor
    }

    /// Places the next row, of height `height`: skipped when it ends above
    /// the viewport, below when it starts under it, drawn otherwise.
    pub fn step(&mut self, height: u32) -> (r: RowPlacement)
        requires
            old(self).wf(),
            old(self).seen().len() < usize::MAX,
            prefix_height(old(self).seen(), old(self).seen().len() as int) + height <= u64::MAX,
        ensures
            final(self).wf(),
            final(self).seen() == old(self).seen().push(height),
            final(self).scroll_spec() == old(self).scroll_spec(),
            final(self).viewport_spec() == old(self).viewport_spec(),
            final(self).scroll_to_spec() == old(self).scroll_to_spec(),
            ({
                let hs = old(self).seen();
                let top = prefix_height(hs, hs.len() as int);
                let s = old(self).scroll_spec();
                let v = old(self).viewport_spec();
                r == if top + height < s {
                    RowPlacement::Skipped
                } else if top > s + v {
                    RowPlacement::Below
                } else {
                    RowPlacement::Rendered { top: top as u64 }
                }
            }),
    {
        let ghost hs = self.seen@;
        let top = self.cursor;
        let bottom = top + height as u64;
        let i = self.index;
        proof {
            lemma_prefix_push_all(hs, height);
        }
        self.seen = Ghost(hs.push(height));
        self.cursor = bottom;
        self.index = i + 1;
        if self.scroll_to == Some(i) {
            self.scroll_target = Some(Span { top, bottom });
        }
        let view_end: u128 = self.scroll as u128 + self.viewport as u128;
        let ghost hs2 = hs.push(height);
        match self.phase {
            WalkPhase::Above => {
                if bottom < self.scroll {
                    assert(forall|j: int|
                        0 <= j < i + 1 ==> #[trigger] prefix_height(hs2, j + 1) < self.scroll) by {
                        assert forall|j: int| 0 <= j < i + 1 implies #[trigger] prefix_height(
                            hs2,
                            j + 1,
                        ) < self.scroll by {
                            if j < i {
                                assert(prefix_height(hs2, j + 1) == prefix_height(hs, j + 1));
                            }
                        }
                    }
                    RowPlacement::Skipped
                } else {
                    if i > 0 {
                        assert(prefix_height(hs, (i - 1) as int + 1) < self.scroll);
                    }
                    self.first = i;
                    self.leading = top;
                    if bottom as u128 > view_end {
                        self.phase = WalkPhase::Below;
                        self.end = i + 1;
                        self.end_offset = bottom;
                    } else {
                        self.phase = WalkPhase::Visible;
                    }
                    assert(row_visible(hs2, i as int, self.scroll as int, self.viewport as int));
                    assert forall|j: int| 0 <= j < self.first implies #[trigger] prefix_height(
                        hs2,
                        j + 1,
                    ) < self.scroll by {
                        assert(prefix_height(hs2, j + 1) == prefix_height(hs, j + 1));
                    }
                    RowPlacement::Rendered { top }
                }
            },
            WalkPhase::Visible => {
                if bottom as u128 > view_end {
                    self.phase = WalkPhase::Below;
                    self.end = i + 1;
                    self.end_offset = bottom;
                }
                assert forall|j: int| 0 <= j < self.first implies #[trigger] prefix_height(
                    hs2,
                    j + 1,
                ) < self.scroll by {
                    assert(prefix_height(hs2, j + 1) == prefix_height(hs, j + 1));
                }
                assert forall|j: int| self.first <= j < i + 1 implies #[trigger] row_visible(
                    hs2,
                    j,
                    self.scroll as int,
                    self.viewport as int,
                ) by {
                    if j < i {
                        assert(prefix_height(hs2, j + 1) == prefix_height(hs, j + 1));
                        assert(prefix_height(hs2, j) == prefix_height(hs, j));
                        assert(row_visible(hs, j, self.scroll as int, self.viewport as int));
                    }
                }
                RowPlacement::Rendered { top }
            },
            WalkPhase::Below => {
                assert forall|j: int| 0 <= j < self.first implies #[trigger] prefix_height(
                    hs2,
                    j + 1,
                ) < self.scroll by {
                    assert(prefix_height(hs2, j + 1) == prefix_height(hs, j + 1));
                }
                assert forall|j: int| self.first <= j < self.end implies #[trigger] row_visible(
                    hs2,
                    j,
                    self.scroll as int,
                    self.viewport as int,
                ) by {
                    assert(prefix_height(hs2, j + 1) == prefix_height(hs, j + 1));
                    assert(prefix_height(hs2, j) == prefix_height(hs, j));
                    assert(row_visible(hs, j, self.scroll as int, self.viewport as int));
                }
                assert forall|j: int| self.end <= j < i + 1 implies #[trigger] prefix_height(hs2, j)
                    > view_end by {
                    assert(prefix_height(hs2, j) == prefix_height(hs, j));
                }
                RowPlacement::Below
            },
        }
    }

    /// The spacers, the drawn rows and the span of the row asked for, once
    /// every height has been walked. A walk that never reached the viewport
    /// puts every row in the leading spacer; a row asked for beyond the last
    /// one resolves to the single point at the end of the content.
    pub fn finish(&self) -> (r: VariableRowsLayout)
        requires
            self.wf(),
        ensures
            ({
                let hs = self.seen();
                let n = hs.len() as int;
                let s = self.scroll_spec();
                let v = self.viewport_spec();
                &&& r.first_row <= r.end_row <= n
                &&& r.leading == prefix_height(hs, r.first_row as int)
                &&& r.rendered_height == prefix_height(hs, r.end_row as int) - prefix_height(
                    hs,
                    r.first_row as int,
                )
                &&& r.trailing == prefix_height(hs, n) - prefix_height(hs, r.end_row as int)
                &&& r.leading + r.rendered_height + r.trailing == prefix_height(hs, n)
                &&& forall|i: int| 0 <= i < r.first_row ==> #[trigger] prefix_height(hs, i + 1) < s
                &&& r.first_row < n ==> prefix_height(hs, r.first_row + 1) >= s
                &&& forall|i: int|
                    0 <= i < n ==> ((r.first_row <= i < r.end_row) <==> #[trigger] row_visible(
                        hs,
                        i,
                        s,
                        v,
                    ))
                &&& r.scroll_target == match self.scroll_to_spec() {
                    Some(row) => if row < n {
                        Some(
                            Span {
                                top: prefix_height(hs, row as int) as u64,
                                bottom: prefix_height(hs, row + 1) as u64,
                            },
                        )
                    } else {
                        Some(Span { top: prefix_height(hs, n) as u64, bottom: prefix_height(hs, n) as u64 })
                    },
                    None => None,
                }
            }),
    {
        let ghost hs = self.seen@;
        let scroll_target = match self.scroll_to {
            Some(row) => if row < self.index {
                self.scroll_target
            } else {
                Some(Span { top: self.cursor, bottom: self.cursor })
            },
            None => None,
        };
        match self.phase {
            WalkPhase::Above => {
                assert forall|i: int| 0 <= i < self.index implies #[trigger] prefix_height(hs, i + 1)
                    < self.scroll by {}
                assert forall|i: int| 0 <= i < self.index implies !#[trigger] row_visible(
                    hs,
                    i,
                    self.scroll as int,
                    self.viewport as int,
                ) by {
                    assert(prefix_height(hs, i + 1) < self.scroll);
                }
                VariableRowsLayout {
                    first_row: self.index,
                    end_row: self.index,
                    leading: self.cursor,
                    rendered_height: 0,
                    trailing: 0,
                    scroll_target,
                }
            },
            WalkPhase::Visible => {
                proof {
                    lemma_prefix_monotone(hs, self.first as int, self.index as int);
                }
                assert(row_visible(hs, self.first as int, self.scroll as int, self.viewport as int));
                assert forall|i: int| 0 <= i < self.first implies !#[trigger] row_visible(
                    hs,
                    i,
                    self.scroll as int,
                    self.viewport as int,
                ) by {
                    assert(prefix_height(hs, i + 1) < self.scroll);
                }
                VariableRowsLayout {
                    first_row: self.first,
                    end_row: self.index,
                    leading: self.leading,
                    rendered_height: self.cursor - self.leading,
                    trailing: 0,
                    scroll_target,
                }
            },
            WalkPhase::Below => {
                proof {
                    lemma_prefix_monotone(hs, self.first as int, self.end as int);
                    lemma_prefix_monotone(hs, self.end as int, self.index as int);
                }
                assert(row_visible(hs, self.first as int, self.scroll as int, self.viewport as int));
                assert forall|i: int| 0 <= i < self.first implies !#[trigger] row_visible(
                    hs,
                    i,
                    self.scroll as int,
                    self.viewport as int,
                ) by {
                    assert(prefix_height(hs, i + 1) < self.scroll);
                }
                assert forall|i: int| self.end <= i < self.index implies !#[trigger] row_visible(
                    hs,
                    i,
                    self.scroll as int,
                    self.viewport as int,
                ) by {
                    assert(prefix_height(hs, i) > self.scroll + self.viewport);
                }
                VariableRowsLayout {
                    first_row: self.first,
                    end_row: self.end,
                    leading: self.leading,
                    rendered_height: self.end_offset - self.leading,
                    trailing: self.cursor - self.end_offset,
                    scroll_target,
                }
            },
        }
    }
}

proof fn lemma_prefix_subrange(hs: Seq<u32>, k: int, i: int)
    requires
        0 <= i <= k <= hs.len(),
    ensures
        prefix_height(hs.subrange(0, k), i) == prefix_height(hs, i),
    decreases i,
{
    if i > 0 {
        lemma_prefix_subrange(hs, k, i - 1);
    }
}

/// Lays out rows of the given heights for a viewport of height `viewport`
/// scrolled down by `scroll`, in one pass over the heights (see `RowWalker`).
/// The drawn rows are exactly those that reach into the viewport; the two
/// spacers and the drawn rows add up to the whole content, whatever the
/// scroll offset; a row asked for beyond the last one resolves to the single
/// point at the end of the content.
pub fn heterogeneous_rows_layout(
    heights: &Vec<u32>,
    scroll: u64,
    viewport: u64,
    scroll_to_row: Option<usize>,
) -> (r: VariableRowsLayout)
    requires
        prefix_height(heights@, heights@.len() as int) <= u64::MAX,
    ensures
        ({
            let hs = heights@;
            let n = hs.len() as int;
            &&& r.first_row <= r.end_row <= n
            &&& r.leading == prefix_height(hs, r.first_row as int)
            &&& r.rendered_height == prefix_height(hs, r.end_row as int) - prefix_height(
                hs,
                r.first_row as int,
            )
            &&& r.trailing == prefix_height(hs, n) - prefix_height(hs, r.end_row as int)
            &&& r.leading + r.rendered_height + r.trailing == prefix_height(hs, n)
            &&& forall|i: int| 0 <= i < r.first_row ==> #[trigger] prefix_height(hs, i + 1) < scroll
            &&& r.first_row < n ==> prefix_height(hs, r.first_row + 1) >= scroll
            &&& forall|i: int|
                0 <= i < n ==> ((r.first_row <= i < r.end_row) <==> #[trigger] row_visible(
                    hs,
                    i,
                    scroll as int,
                    viewport as int,
                ))
            &&& r.scroll_target == match scroll_to_row {
                Some(row) => if row < n {
                    Some(
                        Span {
                            top: prefix_height(hs, row as int) as u64,
                            bottom: prefix_height(hs, row + 1) as u64,
                        },
                    )
                } else {
                    Some(Span { top: prefix_height(hs, n) as u64, bottom: prefix_height(hs, n) as u64 })
                },
                None => None,
            }
        }),
{
    let mut walker = RowWalker::new(scroll, viewport, scroll_to_row);
    let n = heights.len();
    let mut i: usize = 0;
    while i < n
        invariant
            n == heights@.len(),
            0 <= i <= n,
            walker.wf(),
            walker.seen() == heights@.subrange(0, i as int),
            walker.scroll_spec() == scroll,
            walker.viewport_spec() == viewport,
            walker.scroll_to_spec() == scroll_to_row,
            prefix_height(heights@, n as int) <= u64::MAX,
        decreases n - i,
    {
        proof {
            lemma_prefix_subrange(heights@, i as int, i as int);
            lemma_prefix_monotone(heights@, i as int + 1, n as int);
            assert(prefix_height(heights@, i as int + 1) == prefix_height(heights@, i as int)
                + heights@[i as int]);
        }
        walker.step(heights[i]);
        assert(walker.seen() =~= heights@.subrange(0, i as int + 1));
        i = i + 1;
    }
    assert(walker.seen() =~= heights@);
    walker.finish()
}

/// The span to scroll to after rows were added one at a time: the span of the
/// row asked for when it was found, else the single point at `content_end`.
pub fn resolve_scroll_target(requested: Option<usize>, found: Option<Span>, content_end: u64) -> (r:
    Option<Span>)
    ensures
        r == match requested {
            Some(_) => match found {
                Some(span) => Some(span),
                None => Some(Span { top: content_end, bottom: content_end }),
            },
            None => found,
        },
{
    match requested {
        Some(_) => match found {
            Some(span) => Some(span),
            None => Some(Span { top: content_end, bottom: content_end }),
        },
        None => found,
    }
}

/// The span to record for row `row_index`, laid out from `top` to `bottom`,
/// when it is the row asked for.
pub fn row_scroll_span(row_index: usize, scroll_to_row: Option<usize>, top: u64, bottom: u64) -> (r:
    Option<Span>)
    ensures
        r == if scroll_to_row == Some(row_index) {
            Some(Span { top, bottom })
        } else {
            None
        },
{
    if scroll_to_row == Some(row_index) {
        Some(Span { top, bottom })
    } else {
        None
    }
}

} // verus!
