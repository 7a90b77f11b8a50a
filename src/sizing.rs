//! The flex-distribution rule: fixed widths are taken off the top and the rest
//! of the available width is shared equally among the flexible slots.

use vstd::prelude::*;
use crate::range::{SizeRange, UNBOUNDED};
use vstd::arithmetic::div_mod::{lemma_fundamental_div_mod, lemma_mod_pos_bound};

verus! {

/// One slot of a distribution.
#[derive(Clone, Copy, Debug, PartialEq, Eq, Structural)]
pub enum Size {
    /// A slot of this width, clamped into `range`.
    Fixed { width: u32, range: SizeRange },
    /// A slot that takes an equal share of the remaining width, clamped into `range`.
    Flexible { range: SizeRange },
}

impl Size {
    pub open spec fn range_of(self) -> SizeRange {
        match self {
            Size::Fixed { range, .. } => range,
            Size::Flexible { range } => range,
        }
    }

    pub open spec fn is_flexible(self) -> bool {
        self is Flexible
    }

    /// What the slot takes off the top of the available width.
    pub open spec fn fixed_part(self) -> int {
        match self {
            Size::Fixed { width, range } => range.clamp_of(width as int),
            Size::Flexible { .. } => 0,
        }
    }

    /// The slot's final length when each flexible slot is offered `share`.
    pub open spec fn length_for(self, share: int) -> int {
        match self {
            Size::Fixed { width, range } => range.clamp_of(width as int),
            Size::Flexible { range } => range.clamp_of(share),
        }
    }
}

/// Sum of the fixed slots' clamped widths.
pub open spec fn fixed_total(sizes: Seq<Size>) -> int
    decreases sizes.len(),
{
    if sizes.len() == 0 {
        0
    } else {
        fixed_total(sizes.drop_last()) + sizes.last().fixed_part()
    }
}

/// Number of flexible slots.
pub open spec fn flexible_count(sizes: Seq<Size>) -> int
    decreases sizes.len(),
{
    if sizes.len() == 0 {
        0
    } else {
        flexible_count(sizes.drop_last()) + if sizes.last().is_flexible() {
            1int
        } else {
            0int
        }
    }
}

/// Total spacing between `n` slots placed side by side.
pub open spec fn spacing_total(n: int, spacing: int) -> int {
    if n <= 0 {
        0
    } else {
        spacing * (n - 1)
    }
}

/// Width left for the flexible slots once fixed slots and spacing are taken.
pub open spec fn leftover(sizes: Seq<Size>, available: int, spacing: int) -> int {
    available - fixed_total(sizes) - spacing_total(sizes.len() as int, spacing)
}

/// The width offered to each flexible slot: an equal, rounded-down share of the
/// leftover, or zero when nothing is left or no slot is flexible.
pub open spec fn remainder_share(sizes: Seq<Size>, available: int, spacing: int) -> int {
    let k = flexible_count(sizes);
    let rest = leftover(sizes, available, spacing);
    if k == 0 || rest <= 0 {
        0
    } else {
        rest / k
    }
}

/// The length of every slot after distribution.
pub open spec fn distribute(sizes: Seq<Size>, available: int, spacing: int) -> Seq<u32> {
    let share = remainder_share(sizes, available, spacing);
    Seq::new(sizes.len(), |i: int| sizes[i].length_for(share) as u32)
}

/// Sum of a sequence of lengths.
pub open spec fn total_length(s: Seq<u32>) -> int
    decreases s.len(),
{
    if s.len() == 0 {
        0
    } else {
        total_length(s.drop_last()) + s.last()
    }
}

/// Sum of the slots' lengths for a given share.
pub open spec fn lengths_total(sizes: Seq<Size>, share: int) -> int
    decreases sizes.len(),
{
    if sizes.len() == 0 {
        0
    } else {
        lengths_total(sizes.drop_last(), share) + sizes.last().length_for(share)
    }
}

/// An ordered list of slots to distribute over a width.
#[derive(Clone, Debug)]
pub struct Sizing {
    pub sizes: Vec<Size>,
}

proof fn lemma_prefix_step(sizes: Seq<Size>, i: int)
    requires
        0 <= i < sizes.len(),
    ensures
        fixed_total(sizes.subrange(0, i + 1)) == fixed_total(sizes.subrange(0, i))
            + sizes[i].fixed_part(),
        flexible_count(sizes.subrange(0, i + 1)) == flexible_count(sizes.subrange(0, i)) + if sizes[i].is_flexible() {
            1int
        } else {
            0int
        },
{
    assert(sizes.subrange(0, i + 1).drop_last() =~= sizes.subrange(0, i));
}

proof fn lemma_fixed_part_bounded(s: Size)
    ensures
        0 <= s.fixed_part() <= UNBOUNDED,
{
}

proof fn lemma_fixed_total_nonneg(sizes: Seq<Size>)
    ensures
        fixed_total(sizes) >= 0,
    decreases sizes.len(),
{
    if sizes.len() > 0 {
        lemma_fixed_total_nonneg(sizes.drop_last());
    }
}

proof fn lemma_total_of_lengths(sizes: Seq<Size>, share: int)
    requires
        0 <= share <= UNBOUNDED,
    ensures
        total_length(Seq::new(sizes.len(), |i: int| sizes[i].length_for(share) as u32))
            == lengths_total(sizes, share),
    decreases sizes.len(),
{
    if sizes.len() > 0 {
        let d = sizes.drop_last();
        lemma_total_of_lengths(d, share);
        let s = Seq::new(sizes.len(), |i: int| sizes[i].length_for(share) as u32);
        assert(s.drop_last() =~= Seq::new(d.len(), |i: int| d[i].length_for(share) as u32));
    }
}

proof fn lemma_lengths_total_unclamped(sizes: Seq<Size>, share: int)
    requires
        forall|i: int|
            0 <= i < sizes.len() && (#[trigger] sizes[i]).is_flexible() ==> sizes[i].range_of().min
                <= share <= sizes[i].range_of().max,
    ensures
        lengths_total(sizes, share) == fixed_total(sizes) + flexible_count(sizes) * share,
    decreases sizes.len(),
{
    if sizes.len() > 0 {
        let d = sizes.drop_last();
        assert forall|i: int|
            0 <= i < d.len() && (#[trigger] d[i]).is_flexible() implies d[i].range_of().min
                <= share <= d[i].range_of().max by {
            assert(d[i] == sizes[i]);
        }
        lemma_lengths_total_unclamped(d, share);
        let k = flexible_count(d);
        assert((k + 1) * share == k * share + share) by (nonlinear_arith);
    }
}

/// When some slot is flexible, the fixed slots and the spacing fit in the
/// available width, and no flexible slot's range cuts its share, then the
/// distributed lengths plus the spacing fill the available width up to the
/// rounding of the share: less than one unit per flexible slot is left over.
pub proof fn lemma_distribution_fills_width(sizes: Seq<Size>, available: u32, spacing: u32)
    requires
        flexible_count(sizes) > 0,
        fixed_total(sizes) + spacing_total(sizes.len() as int, spacing as int) <= available,
        forall|i: int|
            0 <= i < sizes.len() && (#[trigger] sizes[i]).is_flexible() ==> sizes[i].range_of().min
                <= remainder_share(sizes, available as int, spacing as int)
                <= sizes[i].range_of().max,
    ensures
        available - flexible_count(sizes) < total_length(
            distribute(sizes, available as int, spacing as int),
        ) + spacing_total(sizes.len() as int, spacing as int) <= available,
{
    let share = remainder_share(sizes, available as int, spacing as int);
    let k = flexible_count(sizes);
    let rest = leftover(sizes, available as int, spacing as int);
    lemma_fixed_total_nonneg(sizes);
    if sizes.len() > 0 {
        assert(spacing * (sizes.len() - 1) >= 0) by (nonlinear_arith)
            requires
                sizes.len() >= 1,
        ;
    }
    if rest > 0 {
        lemma_fundamental_div_mod(rest, k);
        lemma_mod_pos_bound(rest, k);
        assert(share == rest / k);
        assert(k * share <= rest < k * share + k) by (nonlinear_arith)
            requires
                rest == k * share + rest % k,
                0 <= rest % k < k,
        ;
        assert(share <= rest) by (nonlinear_arith)
            requires
                k >= 1,
                k * share <= rest,
                share >= 0,
        ;
    }
    assert(0 <= share <= UNBOUNDED);
    lemma_total_of_lengths(sizes, share);
    lemma_lengths_total_unclamped(sizes, share);
}

/// What clamping adds to (or takes from) the flexible slots' shares.
pub open spec fn clamp_adjustment(sizes: Seq<Size>, share: int) -> int
    decreases sizes.len(),
{
    if sizes.len() == 0 {
        0
    } else {
        clamp_adjustment(sizes.drop_last(), share) + if sizes.last().is_flexible() {
            sizes.last().length_for(share) - share
        } else {
            0int
        }
    }
}

proof fn lemma_lengths_total_split(sizes: Seq<Size>, share: int)
    ensures
        lengths_total(sizes, share) == fixed_total(sizes) + flexible_count(sizes) * share
            + clamp_adjustment(sizes, share),
    decreases sizes.len(),
{
    if sizes.len() > 0 {
        let d = sizes.drop_last();
        lemma_lengths_total_split(d, share);
        let k = flexible_count(d);
        assert((k + 1) * share == k * share + share) by (nonlinear_arith);
    }
}

/// The distributed lengths plus the spacing equal the available width, less
/// the rounding of the share (under one unit per flexible slot), plus what
/// clamping the flexible slots into their ranges added or took away; this
/// holds whenever some slot is flexible and the fixed slots and spacing fit.
pub proof fn lemma_distribution_total(sizes: Seq<Size>, available: u32, spacing: u32)
    requires
        flexible_count(sizes) > 0,
        fixed_total(sizes) + spacing_total(sizes.len() as int, spacing as int) <= available,
    ensures
        ({
            let k = flexible_count(sizes);
            let rest = leftover(sizes, available as int, spacing as int);
            let share = remainder_share(sizes, available as int, spacing as int);
            &&& total_length(distribute(sizes, available as int, spacing as int)) + spacing_total(
                sizes.len() as int,
                spacing as int,
            ) == available - rest % k + clamp_adjustment(sizes, share)
            &&& 0 <= rest % k < k
        }),
{
    let share = remainder_share(sizes, available as int, spacing as int);
    let k = flexible_count(sizes);
    let rest = leftover(sizes, available as int, spacing as int);
    lemma_fixed_total_nonneg(sizes);
    if sizes.len() > 0 {
        assert(spacing * (sizes.len() - 1) >= 0) by (nonlinear_arith)
            requires
                sizes.len() >= 1,
        ;
    }
    lemma_fundamental_div_mod(rest, k);
    lemma_mod_pos_bound(rest, k);
    if rest > 0 {
        assert(share == rest / k);
        assert(share <= rest) by (nonlinear_arith)
            requires
                k >= 1,
                rest == k * share + rest % k,
                0 <= rest % k,
                rest > 0,
        ;
    } else {
        assert(rest == 0);
        assert(rest / k == 0) by (nonlinear_arith)
            requires
                rest == 0,
                k >= 1,
        ;
    }
    assert(0 <= share <= UNBOUNDED);
    lemma_total_of_lengths(sizes, share);
    lemma_lengths_total_split(sizes, share);
}

impl Sizing {
    /// An empty list of slots.
    pub fn new() -> (r: Sizing)
        ensures
            r.sizes@ == Seq::<Size>::empty(),
    {
        Sizing { sizes: Vec::new() }
    }

    /// Appends one slot.
    pub fn add(&mut self, size: Size)
        ensures
            final(self).sizes@ == old(self).sizes@.push(size),
    {
        self.sizes.push(size);
    }

    /// The length of every slot when distributed over `available`, with
    /// `spacing` between neighbouring slots.
    pub fn to_lengths(&self, available: u32, spacing: u32) -> (r: Vec<u32>)
        ensures
            r@ == distribute(self.sizes@, available as int, spacing as int),
    {
        let n = self.sizes.len();
        let mut fixed: u128 = 0;
        let mut flexible: u128 = 0;
        let mut i: usize = 0;
        while i < n
            invariant
                n == self.sizes@.len(),
                0 <= i <= n,
                fixed == fixed_total(self.sizes@.subrange(0, i as int)),
                flexible == flexible_count(self.sizes@.subrange(0, i as int)),
                fixed <= i * 4294967295,
                flexible <= i,
            decreases n - i,
        {
            proof {
                lemma_prefix_step(self.sizes@, i as int);
                lemma_fixed_part_bounded(self.sizes@[i as int]);
            }
            match self.sizes[i] {
                Size::Fixed { width, range } => {
                    fixed = fixed + range.clamp(width) as u128;
                },
                Size::Flexible { .. } => {
                    flexible = flexible + 1;
                },
            }
            i = i + 1;
        }
        assert(self.sizes@.subrange(0, n as int) =~= self.sizes@);
        let gaps: u128 = if n == 0 {
            0
        } else {
            proof {
                assert((spacing as int) * ((n - 1) as int) <= 4294967295 * 18446744073709551615)
                    by (nonlinear_arith)
                    requires
                        spacing <= 4294967295,
                        n - 1 <= 18446744073709551615,
                ;
            }
            (spacing as u128) * ((n - 1) as u128)
        };
        let taken: u128 = fixed + gaps;
        let share: u32 = if flexible == 0 || taken >= available as u128 {
            0
        } else {
            let rest: u128 = available as u128 - taken;
            let s: u128 = rest / flexible;
            proof {
                assert((rest as int) / (flexible as int) <= rest as int) by (nonlinear_arith)
                    requires
                        flexible >= 1,
                        rest >= 0,
                ;
            }
            s as u32
        };
        let ghost gshare = remainder_share(self.sizes@, available as int, spacing as int);
        assert(share == gshare);
        let mut out: Vec<u32> = Vec::new();
        let mut j: usize = 0;
        while j < n
            invariant
                n == self.sizes@.len(),
                0 <= j <= n,
                share == gshare,
                out@.len() == j,
                forall|t: int|
                    0 <= t < j ==> out@[t] == self.sizes@[t].length_for(gshare) as u32,
            decreases n - j,
        {
            let len = match self.sizes[j] {
                Size::Fixed { width, range } => range.clamp(width),
                Size::Flexible { range } => range.clamp(share),
            };
            out.push(len);
            j = j + 1;
        }
        assert(out@ =~= distribute(self.sizes@, available as int, spacing as int));
        out
    }
}

} // verus!
