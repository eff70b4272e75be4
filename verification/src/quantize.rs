//! Quantization of axis values into bins.

use vstd::prelude::*;

verus! {

/// The fixed-point value of one whole unit (one degree, one percent, or the
/// fraction 1).
pub const SCALE: i64 = 1000;

/// The largest multiple of `step` that does not exceed `value`.
pub open spec fn quantize_spec(value: int, step: int) -> int {
    (value / step) * step
}

/// The quotient of `value` by `step`, rounded towards negative infinity.
pub fn floor_div(value: i64, step: i64) -> (q: i64)
    requires
        step > 0,
    ensures
        q == value as int / step as int,
{
    if value >= 0 {
        value / step
    } else {
        let m: i64 = -(value + 1);
        let q: i64 = m / step;
        assert((value as int) / (step as int) == -(q as int) - 1) by (nonlinear_arith)
            requires
                q == m / step,
                m == -(value + 1),
                step > 0,
                value < 0,
        ;
        -q - 1
    }
}

/// Quantizes `value` to the bin of width `step` that holds it: a value on a
/// bin boundary belongs to the bin that starts there. The result has to fit
/// in 64 bits, as it does for every `value` from 0 upwards.
pub fn quantize(value: i64, step: i64) -> (k: i64)
    requires
        step > 0,
        quantize_spec(value as int, step as int) >= i64::MIN,
    ensures
        k == quantize_spec(value as int, step as int),
{
    let q: i64 = floor_div(value, step);
    proof {
        lemma_quantize_bounds(value as int, step as int);
    }
    q * step
}

/// A quantized value is a multiple of the step, and the value it came from
/// lies less than one step above it.
pub proof fn lemma_quantize_bounds(value: int, step: int)
    requires
        step > 0,
    ensures
        quantize_spec(value, step) <= value < quantize_spec(value, step) + step,
        quantize_spec(value, step) % step == 0,
        value >= 0 ==> quantize_spec(value, step) >= 0,
{
    let q = value / step;
    assert(q * step <= value < q * step + step && (q * step) % step == 0) by (nonlinear_arith)
        requires
            q == value / step,
            step > 0,
    ;
    assert(value >= 0 ==> q * step >= 0) by (nonlinear_arith)
        requires
            q == value / step,
            step > 0,
    ;
}

/// Quantizing is idempotent: a quantized value quantizes to itself.
pub proof fn quantize_is_idempotent(value: int, step: int)
    ensures
        quantize_spec(quantize_spec(value, step), step) == quantize_spec(value, step),
{
    let q = value / step;
    if step != 0 {
        assert((q * step) / step == q) by (nonlinear_arith)
            requires
                step != 0,
        ;
    } else {
        assert(q * step == 0);
        assert(((q * step) / step) * step == 0);
    }
}

/// One quantized axis of a color space: values run from 0 up to `max`, in
/// bins `delta` wide, the last of which may be narrower.
#[derive(Clone, Copy, Debug, PartialEq, Eq, Structural)]
pub struct Axis {
    pub max: i64,
    pub delta: i64,
}

/// The axis that runs up to `max` in bins `delta` wide.
pub open spec fn axis_of(max: i64, delta: i64) -> Axis {
    Axis { max, delta }
}

impl Axis {
    /// The axis has a positive step no larger than its extent, and few enough
    /// bins to number them with 32 bits.
    pub open spec fn wf(self) -> bool {
        0 < self.delta <= self.max <= u32::MAX
    }

    /// The number of bins: `max / delta`, rounded up.
    pub open spec fn cells_spec(self) -> int {
        (self.max - 1) / (self.delta as int) + 1
    }

    /// `value` brought into the axis: below 0 it becomes 0, and from `max`
    /// upwards it becomes the largest value below `max`.
    pub open spec fn clamp_spec(self, value: int) -> int {
        if value < 0 {
            0
        } else if value >= self.max {
            self.max - 1
        } else {
            value
        }
    }

    /// The number of the bin that holds `value`, counted from 0.
    pub open spec fn bin_index_spec(self, value: int) -> int {
        self.clamp_spec(value) / (self.delta as int)
    }

    /// The key of the bin that holds `value`: the bin's lower bound.
    pub open spec fn bin_key_spec(self, value: int) -> int {
        quantize_spec(self.clamp_spec(value), self.delta as int)
    }

    /// Whether `key` is the key of one of the axis's bins.
    pub open spec fn is_key(self, key: int) -> bool {
        0 <= key < self.max && key % (self.delta as int) == 0
    }

    /// Makes an axis, if `max` and `delta` describe one.
    pub fn new(max: i64, delta: i64) -> (res: Option<Axis>)
        ensures
            res == if (Axis { max, delta }).wf() {
                Some(Axis { max, delta })
            } else {
                None
            },
    {
        if 0 < delta && delta <= max && max <= 0xffff_ffff {
            Some(Axis { max, delta })
        } else {
            None
        }
    }

    /// The number of bins.
    pub fn cells(&self) -> (n: u32)
        requires
            self.wf(),
        ensures
            n == self.cells_spec(),
            n >= 1,
    {
        proof {
            self.lemma_cells();
        }
        let n: i64 = (self.max - 1) / self.delta + 1;
        n as u32
    }

    /// `value` clamped into the axis.
    pub fn clamp(&self, value: i64) -> (v: i64)
        requires
            self.wf(),
        ensures
            v == self.clamp_spec(value as int),
            0 <= v < self.max,
    {
        if value < 0 {
            0
        } else if value >= self.max {
            self.max - 1
        } else {
            value
        }
    }

    /// The number of the bin that holds `value`.
    pub fn bin_index(&self, value: i64) -> (n: u32)
        requires
            self.wf(),
        ensures
            n == self.bin_index_spec(value as int),
            n < self.cells_spec(),
    {
        proof {
            self.lemma_bin(value as int);
        }
        let n: i64 = self.clamp(value) / self.delta;
        n as u32
    }

    /// The key of the bin that holds `value`.
    pub fn bin_key(&self, value: i64) -> (k: i64)
        requires
            self.wf(),
        ensures
            k == self.bin_key_spec(value as int),
            self.is_key(k as int),
    {
        proof {
            self.lemma_bin(value as int);
        }
        quantize(self.clamp(value), self.delta)
    }

    /// An axis has at least one bin and no more bins than its extent has
    /// units; the bins before the last lie whole below `max`, the last one
    /// reaches it.
    pub proof fn lemma_cells(self)
        requires
            self.wf(),
        ensures
            1 <= self.cells_spec() <= self.max,
            (self.cells_spec() - 1) * self.delta < self.max <= self.cells_spec() * self.delta,
    {
        let m = self.max as int;
        let d = self.delta as int;
        let q = (m - 1) / d;
        assert(0 <= q <= m - 1 && q * d <= m - 1 < (q + 1) * d) by (nonlinear_arith)
            requires
                q == (m - 1) / d,
                0 < d <= m,
        ;
    }

    /// Every value falls into one of the axis's bins; the bin's key is its
    /// number times the step; and a value inside the axis is quantized as it
    /// stands.
    pub proof fn lemma_bin(self, value: int)
        requires
            self.wf(),
        ensures
            0 <= self.bin_index_spec(value) < self.cells_spec(),
            self.bin_key_spec(value) == self.bin_index_spec(value) * self.delta,
            self.is_key(self.bin_key_spec(value)),
            0 <= value < self.max ==> self.bin_key_spec(value) == quantize_spec(
                value,
                self.delta as int,
            ),
    {
        let m = self.max as int;
        let d = self.delta as int;
        let c = self.clamp_spec(value);
        let n = c / d;
        let q = (m - 1) / d;
        assert(0 <= n <= q) by (nonlinear_arith)
            requires
                n == c / d,
                q == (m - 1) / d,
                0 <= c <= m - 1,
                0 < d,
        ;
        lemma_quantize_bounds(c, d);
    }

    /// A bin's key names its bin: the key is a value of the axis that falls
    /// into the bin it names.
    pub proof fn lemma_key_of_index(self, n: int)
        requires
            self.wf(),
            0 <= n < self.cells_spec(),
        ensures
            self.is_key(n * self.delta),
            self.bin_index_spec(n * self.delta) == n,
            self.bin_key_spec(n * self.delta) == n * self.delta,
    {
        let m = self.max as int;
        let d = self.delta as int;
        let q = (m - 1) / d;
        assert(0 <= n * d <= q * d && q * d <= m - 1 && (n * d) / d == n && (n * d) % d == 0)
            by (nonlinear_arith)
            requires
                q == (m - 1) / d,
                0 <= n <= q,
                0 < d <= m,
        ;
    }
}

} // verus!
