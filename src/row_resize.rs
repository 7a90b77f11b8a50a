//! Row heights set by dragging a row's bottom border, kept as sparse
//! overrides of a default height.

use vstd::prelude::*;
use std::collections::HashMap;
use vstd::std_specs::hash::{axiom_spec_hash_map_iter, spec_hash_map_iter};
use vstd::std_specs::iter::IteratorSpec;
use crate::geometry::{PointerState, Rect};
use crate::range::{SizeRange, UNBOUNDED};

verus! {

broadcast use vstd::std_specs::hash::group_hash_axioms;

/// The overrides a list of `(row, height)` pairs sets, later pairs winning.
pub open spec fn pairs_map(pairs: Seq<(usize, u32)>) -> Map<usize, u32>
    decreases pairs.len(),
{
    if pairs.len() == 0 {
        Map::empty()
    } else {
        pairs_map(pairs.drop_last()).insert(pairs.last().0, pairs.last().1)
    }
}

/// Every pair of `pairs` is an override of `m`, and every override of `m`
/// appears among them.
pub open spec fn lists_overrides(pairs: Seq<(usize, u32)>, m: Map<usize, u32>) -> bool {
    &&& forall|i: int|
        0 <= i < pairs.len() ==> m.contains_key(#[trigger] pairs[i].0) && m[pairs[i].0] == pairs[i].1
    &&& forall|k: usize| #[trigger] m.contains_key(k) ==> exists|i: int| 0 <= i < pairs.len() && pairs[i].0 == k
}

proof fn lemma_pairs_map_of_listing(pairs: Seq<(usize, u32)>, m: Map<usize, u32>)
    requires
        forall|i: int|
            0 <= i < pairs.len() ==> m.contains_key(#[trigger] pairs[i].0) && m[pairs[i].0] == pairs[i].1,
    ensures
        forall|k: usize| #[trigger]
            pairs_map(pairs).contains_key(k) <==> exists|i: int| 0 <= i < pairs.len() && pairs[i].0 == k,
        forall|k: usize| #[trigger] pairs_map(pairs).contains_key(k) ==> pairs_map(pairs)[k] == m[k],
    decreases pairs.len(),
{
    if pairs.len() > 0 {
        let d = pairs.drop_last();
        let last = pairs[pairs.len() - 1];
        assert forall|i: int| 0 <= i < d.len() implies m.contains_key(#[trigger] d[i].0) && m[d[i].0]
            == d[i].1 by {
            assert(d[i] == pairs[i]);
        }
        lemma_pairs_map_of_listing(d, m);
        assert(m.contains_key(last.0) && m[last.0] == last.1);
        assert forall|k: usize| #[trigger] pairs_map(pairs).contains_key(k) implies exists|i: int|
            0 <= i < pairs.len() && pairs[i].0 == k by {
            if k == last.0 {
                assert(pairs[pairs.len() - 1].0 == k);
            } else {
                assert(pairs_map(d).contains_key(k));
                let i = choose|i: int| 0 <= i < d.len() && d[i].0 == k;
                assert(pairs[i] == d[i]);
            }
        }
        assert forall|k: usize|
            (exists|i: int| 0 <= i < pairs.len() && pairs[i].0 == k) implies #[trigger] pairs_map(
            pairs,
        ).contains_key(k) by {
            let i = choose|i: int| 0 <= i < pairs.len() && pairs[i].0 == k;
            if i < d.len() {
                assert(d[i] == pairs[i]);
                assert(pairs_map(d).contains_key(k));
            }
        }
        assert forall|k: usize| #[trigger] pairs_map(pairs).contains_key(k) implies pairs_map(pairs)[k]
            == m[k] by {
            if k != last.0 {
                assert(pairs_map(d).contains_key(k));
            }
        }
    }
}

/// Rebuilding a state from a listing of its overrides gives the same overrides.
pub proof fn lemma_overrides_round_trip(pairs: Seq<(usize, u32)>, m: Map<usize, u32>)
    requires
        lists_overrides(pairs, m),
    ensures
        pairs_map(pairs) == m,
{
    lemma_pairs_map_of_listing(pairs, m);
    assert(pairs_map(pairs) =~= m);
}

/// Customized row heights, and the row whose border is being dragged.
#[derive(Clone, Debug)]
pub struct RowResizeState {
    row_heights: HashMap<usize, u32>,
    dragging_row: Option<usize>,
}

impl View for RowResizeState {
    type V = Map<usize, u32>;

    /// The customized heights, by row index.
    closed spec fn view(&self) -> Map<usize, u32> {
        self.row_heights@
    }
}

impl RowResizeState {
    /// The row whose border is being dragged.
    pub closed spec fn dragging_spec(self) -> Option<usize> {
        self.dragging_row
    }

    /// The height row `row` reads back with: its override, else `default`.
    pub open spec fn height_of(self, row: usize, default: u32) -> u32 {
        if self@.contains_key(row) {
            self@[row]
        } else {
            default
        }
    }

    /// No customized rows, no drag.
    pub fn new() -> (r: RowResizeState)
        ensures
            r@ == Map::<usize, u32>::empty(),
            r.dragging_spec() is None,
    {
        RowResizeState { row_heights: HashMap::new(), dragging_row: None }
    }

    /// The height of row `row_index`, or `default_height` when it has none of its own.
    pub fn get_row_height(&self, row_index: usize, default_height: u32) -> (r: u32)
        ensures
            r == self.height_of(row_index, default_height),
    {
        match self.row_heights.get(&row_index) {
            Some(h) => *h,
            None => default_height,
        }
    }

    /// Gives row `row_index` its own height.
    pub fn set_row_height(&mut self, row_index: usize, height: u32)
        ensures
            final(self)@ == old(self)@.insert(row_index, height),
            final(self).dragging_spec() == old(self).dragging_spec(),
    {
        self.row_heights.insert(row_index, height);
    }

    /// Returns row `row_index` to the default height.
    pub fn reset_row_height(&mut self, row_index: usize)
        ensures
            final(self)@ == old(self)@.remove(row_index),
            final(self).dragging_spec() == old(self).dragging_spec(),
    {
        self.row_heights.remove(&row_index);
    }

    /// Returns every row to the default height.
    pub fn reset_all(&mut self)
        ensures
            final(self)@ == Map::<usize, u32>::empty(),
            final(self).dragging_spec() == old(self).dragging_spec(),
    {
        self.row_heights.clear();
    }

    /// A state with the given overrides, later pairs winning, and no drag.
    pub fn from_overrides(pairs: &Vec<(usize, u32)>) -> (r: RowResizeState)
        ensures
            r@ == pairs_map(pairs@),
            r.dragging_spec() is None,
    {
        let mut state = RowResizeState::new();
        let mut i: usize = 0;
        while i < pairs.len()
            invariant
                0 <= i <= pairs@.len(),
                state@ == pairs_map(pairs@.subrange(0, i as int)),
                state.dragging_spec() is None,
            decreases pairs@.len() - i,
        {
            let (row, height) = pairs[i];
            state.set_row_height(row, height);
            assert(pairs@.subrange(0, i as int + 1).drop_last() =~= pairs@.subrange(0, i as int));
            i = i + 1;
        }
        assert(pairs@.subrange(0, pairs@.len() as int) =~= pairs@);
        state
    }

    /// Every override, as `(row, height)` pairs in no particular order.
    pub fn overrides(&self) -> (r: Vec<(usize, u32)>)
        ensures
            lists_overrides(r@, self@),
    {
        let ghost v = spec_hash_map_iter(&self.row_heights).remaining();
        proof {
            axiom_spec_hash_map_iter(&self.row_heights);
        }
        let mut out: Vec<(usize, u32)> = Vec::new();
        for kv in it: self.row_heights.iter()
            invariant
                it.seq() == v,
                out@.len() == it.index(),
                forall|j: int| 0 <= j < out@.len() ==> #[trigger] out@[j] == (*v[j].0, *v[j].1),
        {
            out.push((*kv.0, *kv.1));
        }
        assert forall|k: usize| #[trigger] self@.contains_key(k) implies exists|i: int|
            0 <= i < out@.len() && out@[i].0 == k by {
            assert(v.contains((&k, &self@[k])));
            let i = choose|i: int| 0 <= i < v.len() && v[i] == (&k, &self@[k]);
            assert(out@[i].0 == k);
        }
        assert forall|i: int| 0 <= i < out@.len() implies self@.contains_key(#[trigger] out@[i].0)
            && self@[out@[i].0] == out@[i].1 by {
            assert(out@[i] == (*v[i].0, *v[i].1));
            assert(self.row_heights@.contains_key(*v[i].0));
        }
        out
    }

    /// Restores the row whose border is being dragged, as remembered from the
    /// previous frame.
    pub fn set_dragging_row(&mut self, row: Option<usize>)
        ensures
            final(self)@ == old(self)@,
            final(self).dragging_spec() == row,
    {
        self.dragging_row = row;
    }

    /// Whether a row border is being dragged.
    pub fn is_dragging(&self) -> (r: bool)
        ensures
            r == self.dragging_spec() is Some,
    {
        self.dragging_row.is_some()
    }

    /// The row whose border is being dragged.
    pub fn dragging_row(&self) -> (r: Option<usize>)
        ensures
            r == self.dragging_spec(),
    {
        self.dragging_row
    }
}

impl Default for RowResizeState {
    fn default() -> (r: RowResizeState)
        ensures
            r@ == Map::<usize, u32>::empty(),
            r.dragging_spec() is None,
    {
        RowResizeState::new()
    }
}

/// How rows may be resized.
#[derive(Clone, Copy, Debug, PartialEq, Eq, Structural)]
pub struct RowResizeConfig {
    pub enabled: bool,
    /// Height of rows without an override.
    pub default_height: u32,
    /// Allowed heights.
    pub height_range: SizeRange,
    /// Half the thickness of the grab strip along a row's bottom border.
    pub grab_radius: u32,
    /// Whether body cells, not only the row header, offer the grab strip.
    pub resize_in_body: bool,
}

impl RowResizeConfig {
    pub open spec fn default_spec() -> RowResizeConfig {
        RowResizeConfig {
            enabled: false,
            default_height: 20,
            height_range: SizeRange { min: 10, max: UNBOUNDED },
            grab_radius: 5,
            resize_in_body: false,
        }
    }

    /// The default configuration with resizing turned on.
    pub fn enabled() -> (r: RowResizeConfig)
        ensures
            r == (RowResizeConfig { enabled: true, ..RowResizeConfig::default_spec() }),
    {
        RowResizeConfig { enabled: true, ..RowResizeConfig::default() }
    }

    /// Sets the height of rows without an override.
    pub fn default_height(self, height: u32) -> (r: RowResizeConfig)
        ensures
            r == (RowResizeConfig { default_height: height, ..self }),
    {
        RowResizeConfig { default_height: height, ..self }
    }

    /// Sets the allowed heights.
    pub fn height_range(self, range: SizeRange) -> (r: RowResizeConfig)
        ensures
            r == (RowResizeConfig { height_range: range, ..self }),
    {
        RowResizeConfig { height_range: range, ..self }
    }

    /// Sets whether body cells offer the grab strip too.
    pub fn resize_in_body(self, enable: bool) -> (r: RowResizeConfig)
        ensures
            r == (RowResizeConfig { resize_in_body: enable, ..self }),
    {
        RowResizeConfig { resize_in_body: enable, ..self }
    }
}

impl Default for RowResizeConfig {
    fn default() -> (r: RowResizeConfig)
        ensures
            r == RowResizeConfig::default_spec(),
    {
        RowResizeConfig {
            enabled: false,
            default_height: 20,
            height_range: SizeRange::new(10, UNBOUNDED),
            grab_radius: 5,
            resize_in_body: false,
        }
    }
}

/// What a row's border handle did this frame.
#[derive(Clone, Copy, Debug, PartialEq, Eq, Structural)]
pub struct RowResizeOutcome {
    /// The row's new height, when this frame changed it.
    pub new_height: Option<u32>,
    /// Whether a drag of this row's border is in progress; remembered for the
    /// next frame.
    pub dragging: bool,
    /// The resize cursor should show.
    pub show_resize_cursor: bool,
}

/// The grab strip along the bottom border of a row spanning `[left_x, right_x]`.
pub open spec fn row_grab_rect(config: RowResizeConfig, bottom_y: i32, left_x: i32, right_x: i32) -> Rect {
    Rect::around_spec(left_x, bottom_y, right_x, bottom_y, 0, config.grab_radius)
}

/// Handles the bottom border of row `row_index` after the row was drawn.
///
/// Nothing happens unless resizing is enabled and, for body cells, allowed in
/// the body. A press inside the grab strip starts a drag of this row; it lasts
/// while the primary button is held, and ends on release. While dragging, the
/// row's height moves by the pointer's vertical movement, held to the allowed
/// range, and is stored as soon as it differs from the current height.
pub fn handle_row_resize(
    state: &mut RowResizeState,
    config: &RowResizeConfig,
    row_index: usize,
    row_bottom_y: i32,
    left_x: i32,
    right_x: i32,
    is_header: bool,
    pointer: &PointerState,
    was_dragging: bool,
) -> (r: RowResizeOutcome)
    ensures
        ({
            let inside = pointer.in_rect(row_grab_rect(*config, row_bottom_y, left_x, right_x));
            let pressed = pointer.primary_pressed && inside;
            let dragging = pressed || (was_dragging && pointer.primary_down);
            let current = old(state).height_of(row_index, config.default_height);
            let updated = config.height_range.clamp_of(current + pointer.delta_y) as u32;
            if !config.enabled || (!is_header && !config.resize_in_body) {
                &&& r == (RowResizeOutcome {
                    new_height: None,
                    dragging: was_dragging,
                    show_resize_cursor: false,
                })
                &&& *final(state) == *old(state)
            } else {
                &&& r.dragging == dragging
                &&& r.show_resize_cursor == (dragging || (inside && !pointer.any_down))
                &&& final(state).dragging_spec() == if pressed {
                    Some(row_index)
                } else if dragging || !was_dragging {
                    old(state).dragging_spec()
                } else {
                    None
                }
                &&& r.new_height == if dragging && updated != current {
                    Some(updated)
                } else {
                    None
                }
                &&& final(state)@ == if dragging && updated != current {
                    old(state)@.insert(row_index, updated)
                } else {
                    old(state)@
                }
            }
        }),
{
    if !config.enabled || (!is_header && !config.resize_in_body) {
        return RowResizeOutcome { new_height: None, dragging: was_dragging, show_resize_cursor: false };
    }
    let rect = Rect::around(left_x, row_bottom_y, right_x, row_bottom_y, 0, config.grab_radius);
    let inside = pointer.is_in(&rect);
    let dragging = if pointer.primary_pressed && inside {
        state.dragging_row = Some(row_index);
        true
    } else if was_dragging && pointer.primary_down {
        true
    } else {
        if was_dragging {
            state.dragging_row = None;
        }
        false
    };
    let mut new_height: Option<u32> = None;
    if dragging {
        let current = state.get_row_height(row_index, config.default_height);
        let wanted: i64 = current as i64 + pointer.delta_y as i64;
        let range = config.height_range;
        let updated: u32 = if wanted > range.max as i64 {
            range.max
        } else if wanted < range.min as i64 {
            range.min
        } else {
            wanted as u32
        };
        if updated != current {
            state.set_row_height(row_index, updated);
            new_height = Some(updated);
        }
    }
    RowResizeOutcome {
        new_height,
        dragging,
        show_resize_cursor: dragging || (inside && !pointer.any_down),
    }
}

/// Setting a row's height and reading it back gives that height; resetting it
/// gives the default back; and no other row is affected by either.
pub proof fn lemma_row_height_round_trip(
    s: RowResizeState,
    row: usize,
    height: u32,
    default: u32,
    other: usize,
)
    requires
        other != row,
    ensures
        ({
            let set = s@.insert(row, height);
            let reset = set.remove(row);
            &&& (if set.contains_key(row) { set[row] } else { default }) == height
            &&& (if reset.contains_key(row) { reset[row] } else { default }) == default
            &&& (if set.contains_key(other) { set[other] } else { default }) == s.height_of(other, default)
            &&& (if reset.contains_key(other) { reset[other] } else { default }) == s.height_of(other, default)
        }),
{
}

/// A state that was never given heights reads every row at the default.
pub proof fn lemma_untouched_rows_read_default(s: RowResizeState, row: usize, default: u32)
    requires
        s@ == Map::<usize, u32>::empty(),
    ensures
        s.height_of(row, default) == default,
{
}

} // verus!
