//! What the scene shows of the scrub histogram: a row of bars along the
//! scale of the slice axis, one for every value that the slice can take.

use vstd::prelude::*;
use crate::mesh::{find_height_scale, height_scale};
use crate::pixels::{PixelGrid, SpaceCoordinate};
use crate::providers::generic::Provider;
use crate::providers::histgen::{bin_count, is_scrub_histogram};
use crate::quantize::axis_of;

verus! {

/// The row of bars. A bar holds the value of the slice that it stands at and
/// the number of pixels in the bin with that key; `scale` is the count that
/// stands for full height.
#[derive(Debug)]
pub struct Covering {
    pub bars: Vec<(i64, u64)>,
    pub scale: u64,
}

/// The number of bars: one for `min` and one for every step from there that
/// does not pass `max`.
pub open spec fn bar_count(min: int, max: int, delta: int) -> int {
    (max - min) / delta + 1
}

/// The count under the bar at `value`: the number of pixels in the bin with
/// that key, and 0 where no bin has it.
pub open spec fn bar_height(pixels: Seq<SpaceCoordinate>, max: i64, delta: i64, value: int) -> nat {
    if axis_of(max, delta).is_key(value) {
        bin_count(pixels, axis_of(max, delta), value)
    } else {
        0
    }
}

/// The counts of a row of bars, without the values they stand at.
pub open spec fn bar_counts(bars: Seq<(i64, u64)>) -> Seq<u64> {
    Seq::new(bars.len(), |k: int| bars[k].1)
}

/// Lays out the scrub histogram of `img` along the scale of the slice axis:
/// a bar at `MIN` and at every step of `DELTA` from there up to `MAX`, each
/// with the number of pixels of its bin, and the largest of these numbers as
/// the scale, or 1 where the image has no pixel.
pub fn histogram_covering<A: Provider>(provider: &A, img: &PixelGrid) -> (covering: Covering)
    ensures
        covering.bars.len() == bar_count(A::MIN as int, A::MAX as int, A::DELTA as int),
        forall|k: int|
            0 <= k < covering.bars.len() ==> (#[trigger] covering.bars[k]).0 == A::MIN + k
                * A::DELTA && covering.bars[k].1 == bar_height(
                img@,
                A::MAX,
                A::DELTA,
                A::MIN + k * A::DELTA,
            ),
        covering.scale == height_scale(bar_counts(covering.bars@)),
        covering.scale >= 1,
        forall|k: int|
            0 <= k < covering.bars.len() ==> (#[trigger] covering.bars[k]).1 <= covering.scale,
{
    proof {
        A::lemma_constants();
    }
    let series = provider.histogram_data(img);
    let ghost axis = axis_of(A::MAX, A::DELTA);
    let ghost pixels = img@;
    let mut bars: Vec<(i64, u64)> = Vec::new();
    let mut counts: Vec<u64> = Vec::new();
    let mut next: usize = 0;
    let mut x: i64 = A::MIN;
    proof {
        assert(0 * A::DELTA == 0) by (nonlinear_arith);
    }
    while x <= A::MAX
        invariant
            axis == axis_of(A::MAX, A::DELTA),
            axis.wf(),
            pixels == img@,
            A::MIN <= x <= A::MAX + A::DELTA,
            x == A::MIN + bars.len() * A::DELTA,
            next <= series.len(),
            counts@ == bar_counts(bars@),
            is_scrub_histogram(series@, pixels, axis),
            forall|a: int| 0 <= a < next ==> (#[trigger] series[a]).0 < x,
            forall|k: int|
                0 <= k < bars.len() ==> (#[trigger] bars[k]).0 == A::MIN + k * A::DELTA
                    && bars[k].1 == bar_height(pixels, A::MAX, A::DELTA, A::MIN + k * A::DELTA),
        decreases A::MAX + A::DELTA - x,
    {
        while next < series.len() && series[next].0 < x
            invariant
                next <= series.len(),
                forall|a: int| 0 <= a < next ==> (#[trigger] series[a]).0 < x,
            decreases series.len() - next,
        {
            next = next + 1;
        }
        let count: u64 = if next < series.len() && series[next].0 == x {
            series[next].1
        } else {
            0
        };
        proof {
            if axis.is_key(x as int) && bin_count(pixels, axis, x as int) > 0 {
                let a = choose|a: int| 0 <= a < series.len() && series[a].0 == x;
                if a != next {
                    assert(series[next as int].0 < series[a].0);
                }
            }
            assert(count == bar_height(pixels, A::MAX, A::DELTA, x as int));
            assert((bars.len() + 1) * A::DELTA == bars.len() * A::DELTA + A::DELTA)
                by (nonlinear_arith);
        }
        bars.push((x, count));
        counts.push(count);
        proof {
            assert(counts@ =~= bar_counts(bars@));
        }
        x = x + A::DELTA;
    }
    proof {
        let n = bars.len() as int;
        assert(0 * A::DELTA == 0) by (nonlinear_arith);
        assert((n - 1) * A::DELTA == n * A::DELTA - A::DELTA) by (nonlinear_arith);
        lemma_bar_count(A::MIN as int, A::MAX as int, A::DELTA as int, n);
    }
    let scale = find_height_scale(&counts);
    proof {
        assert forall|k: int| 0 <= k < bars.len() implies (#[trigger] bars[k]).1 <= scale by {
            assert(counts[k] == bars[k].1);
        }
    }
    Covering { bars, scale }
}

/// A walk from `min` in steps of `delta` that has taken `n` steps and stands
/// beyond `max` for the first time has passed as many values as there are
/// bars.
proof fn lemma_bar_count(min: int, max: int, delta: int, n: int)
    requires
        delta > 0,
        n >= 1,
        min + (n - 1) * delta <= max < min + n * delta,
    ensures
        n == bar_count(min, max, delta),
{
    assert((max - min) / delta == n - 1) by (nonlinear_arith)
        requires
            delta > 0,
            (n - 1) * delta <= max - min < n * delta,
    ;
}

} // verus!
