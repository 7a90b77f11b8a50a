//! Closed ranges of allowed sizes, and clamping into them.

use vstd::prelude::*;

verus! {

/// The largest length the engine represents; used as "no upper bound".
pub const UNBOUNDED: u32 = 4294967295;

/// Clamps `x` into `[lo, hi]`; above `hi` gives `hi`, below `lo` gives `lo`.
pub open spec fn clamp_spec(x: int, lo: int, hi: int) -> int {
    if x > hi {
        hi
    } else if x < lo {
        lo
    } else {
        x
    }
}

/// A closed range `[min, max]` of allowed lengths.
#[derive(Clone, Copy, Debug, PartialEq, Eq, Structural)]
pub struct SizeRange {
    pub min: u32,
    pub max: u32,
}

impl SizeRange {
    /// A range is well formed when its bounds are ordered.
    pub open spec fn wf(self) -> bool {
        self.min <= self.max
    }

    /// The value `x` clamped into this range.
    pub open spec fn clamp_of(self, x: int) -> int {
        clamp_spec(x, self.min as int, self.max as int)
    }

    /// The range `[min, max]`.
    pub fn new(min: u32, max: u32) -> (r: SizeRange)
        ensures
            r.min == min,
            r.max == max,
    {
        SizeRange { min, max }
    }

    /// The range that holds every length, `[0, UNBOUNDED]`.
    pub fn everything() -> (r: SizeRange)
        ensures
            r.min == 0,
            r.max == UNBOUNDED,
            r.wf(),
    {
        SizeRange { min: 0, max: UNBOUNDED }
    }

    /// The range that holds only `x`.
    pub fn point(x: u32) -> (r: SizeRange)
        ensures
            r.min == x,
            r.max == x,
            r.wf(),
    {
        SizeRange { min: x, max: x }
    }

    /// Whether `x` lies in `[min, max]`.
    pub fn contains(&self, x: u32) -> (r: bool)
        ensures
            r == (self.min <= x && x <= self.max),
    {
        self.min <= x && x <= self.max
    }

    /// `x` clamped into the range.
    pub fn clamp(&self, x: u32) -> (r: u32)
        ensures
            r == self.clamp_of(x as int),
            self.wf() ==> self.min <= r <= self.max,
    {
        if x > self.max {
            self.max
        } else if x < self.min {
            self.min
        } else {
            x
        }
    }
}

/// Clamping is idempotent, and a value already in a well-formed range is kept.
pub proof fn lemma_clamp_idempotent(r: SizeRange, x: int)
    requires
        r.wf(),
    ensures
        r.clamp_of(r.clamp_of(x)) == r.clamp_of(x),
        r.min <= r.clamp_of(x) <= r.max,
        (r.min <= x <= r.max) ==> r.clamp_of(x) == x,
{
}

} // verus!
