//! The slice parameter: a value that moves in steps between two bounds and
//! never leaves them.

use vstd::prelude::*;
use crate::quantize::{quantize_spec, SCALE};

verus! {

/// `value` brought into the range from `min` to `max`.
pub open spec fn clamp_spec(value: int, min: int, max: int) -> int {
    if value < min {
        min
    } else if value > max {
        max
    } else {
        value
    }
}

/// The value after it went up from `current` by `change`, as far as the
/// bounds allow.
pub open spec fn incremented(current: int, change: int, min: int, max: int) -> int {
    clamp_spec(current + change, min, max)
}

/// The value after it went down from `current` by `change`, as far as the
/// bounds allow.
pub open spec fn decremented(current: int, change: int, min: int, max: int) -> int {
    clamp_spec(current - change, min, max)
}

/// The value that a fraction of the range selects: the fraction `f`, in
/// thousandths and itself brought into the range from 0 to 1, of `max`,
/// quantized by `delta`, and brought into the range from `min` to `max`.
pub open spec fn fraction_value(f: int, min: int, max: int, delta: int) -> int {
    clamp_spec(
        quantize_spec((clamp_spec(f, 0, SCALE as int) * max) / (SCALE as int), delta),
        min,
        max,
    )
}

/// What a parameter is: its value, the bounds that hold it, and its step.
pub struct ParameterView {
    pub current: int,
    pub min: int,
    pub max: int,
    pub delta: int,
}

impl ParameterView {
    /// The value lies within the bounds, and the step is positive.
    pub open spec fn wf(self) -> bool {
        self.min <= self.current <= self.max && self.delta > 0
    }

    /// The parameter after its value went up by `change`, as far as the
    /// bounds allow.
    pub open spec fn incremented(self, change: int) -> ParameterView {
        ParameterView { current: incremented(self.current, change, self.min, self.max), ..self }
    }

    /// The parameter after its value went down by `change`, as far as the
    /// bounds allow.
    pub open spec fn decremented(self, change: int) -> ParameterView {
        ParameterView { current: decremented(self.current, change, self.min, self.max), ..self }
    }

    /// The parameter after its value was set to the fraction `f` of its
    /// upper bound.
    pub open spec fn at_fraction(self, f: int) -> ParameterView {
        ParameterView { current: fraction_value(f, self.min, self.max, self.delta), ..self }
    }
}

/// Going up and then down by the same amount leads back to where the value
/// was, unless the upper bound cut the way up short.
pub proof fn increment_then_decrement_restores(current: int, change: int, min: int, max: int)
    requires
        min <= current <= max,
        min <= current + change <= max,
    ensures
        decremented(incremented(current, change, min, max), change, min, max) == current,
{
}

/// Going down and then up by the same amount leads back to where the value
/// was, unless the lower bound cut the way down short.
pub proof fn decrement_then_increment_restores(current: int, change: int, min: int, max: int)
    requires
        min <= current <= max,
        min <= current - change <= max,
    ensures
        incremented(decremented(current, change, min, max), change, min, max) == current,
{
}

/// Whatever is asked of a value, it stays within the bounds.
pub proof fn changes_keep_the_bounds(current: int, change: int, min: int, max: int, delta: int)
    requires
        min <= max,
    ensures
        min <= incremented(current, change, min, max) <= max,
        min <= decremented(current, change, min, max) <= max,
        min <= fraction_value(change, min, max, delta) <= max,
{
}

/// At the upper bound a step up changes nothing, and at the lower bound a
/// step down changes nothing.
pub proof fn steps_saturate_at_the_bounds(change: int, min: int, max: int)
    requires
        min <= max,
        change >= 0,
    ensures
        incremented(max, change, min, max) == max,
        decremented(min, change, min, max) == min,
{
}

/// A fraction selects a multiple of the step, where the bounds hold it: the
/// largest that does not exceed that fraction of the upper bound.
pub proof fn fraction_selects_a_quantized_value(f: int, min: int, max: int, delta: int)
    requires
        0 <= f <= SCALE,
        min <= 0 <= max,
        delta > 0,
    ensures
        fraction_value(f, min, max, delta) == quantize_spec(f * max / (SCALE as int), delta),
        fraction_value(f, min, max, delta) % delta == 0,
        fraction_value(f, min, max, delta) * SCALE <= f * max,
{
    let share = f * max / (SCALE as int);
    assert(0 <= share <= max && share * SCALE <= f * max) by (nonlinear_arith)
        requires
            share == f * max / 1000,
            0 <= f <= 1000,
            0 <= max,
            SCALE == 1000,
    ;
    crate::quantize::lemma_quantize_bounds(share, delta);
    let q = quantize_spec(share, delta);
    assert(q * SCALE <= share * SCALE) by (nonlinear_arith)
        requires
            q <= share,
            SCALE == 1000,
    ;
}

/// The slice parameter of a color space. Its value starts at the upper bound
/// and stays within the bounds whatever is asked of it.
#[derive(Clone, Copy, Debug)]
pub struct ParameterState {
    current: i64,
    min: i64,
    max: i64,
    delta: i64,
}

impl View for ParameterState {
    type V = ParameterView;

    closed spec fn view(&self) -> ParameterView {
        ParameterView {
            current: self.current as int,
            min: self.min as int,
            max: self.max as int,
            delta: self.delta as int,
        }
    }
}

/// The quotient of `value` by `step`, rounded towards negative infinity.
fn floor_div_wide(value: i128, step: i128) -> (q: i128)
    requires
        step > 0,
    ensures
        q == value as int / step as int,
{
    if value >= 0 {
        value / step
    } else {
        let m: i128 = -(value + 1);
        let q: i128 = m / step;
        assert((value as int) / (step as int) == -(q as int) - 1) by (nonlinear_arith)
            requires
                q == m / step,
                m == -(value + 1),
                step > 0,
                value < 0,
        ;
        -q - 1
    }
}

/// `value` brought into the range from `min` to `max`.
fn clamp_wide(value: i128, min: i64, max: i64) -> (v: i64)
    requires
        min <= max,
    ensures
        v == clamp_spec(value as int, min as int, max as int),
{
    if value < min as i128 {
        min
    } else if value > max as i128 {
        max
    } else {
        value as i64
    }
}

impl ParameterState {
    #[verifier::type_invariant]
    spec fn inv(self) -> bool {
        self.min <= self.current <= self.max && self.delta > 0
    }

    /// Makes a parameter that stands at its upper bound, if the bounds are in
    /// order and the step is positive.
    pub fn new(min: i64, max: i64, delta: i64) -> (res: Option<ParameterState>)
        ensures
            res is Some <==> min <= max && delta > 0,
            res matches Some(p) ==> p@ == (ParameterView {
                current: max as int,
                min: min as int,
                max: max as int,
                delta: delta as int,
            }),
    {
        if min <= max && delta > 0 {
            Some(ParameterState { current: max, min, max, delta })
        } else {
            None
        }
    }

    /// The value.
    pub fn current(&self) -> (v: i64)
        ensures
            v == self@.current,
            self@.wf(),
    {
        proof {
            use_type_invariant(self);
        }
        self.current
    }

    /// The lower bound.
    pub fn min(&self) -> (v: i64)
        ensures
            v == self@.min,
            self@.wf(),
    {
        proof {
            use_type_invariant(self);
        }
        self.min
    }

    /// The upper bound.
    pub fn max(&self) -> (v: i64)
        ensures
            v == self@.max,
            self@.wf(),
    {
        proof {
            use_type_invariant(self);
        }
        self.max
    }

    /// The step.
    pub fn delta(&self) -> (v: i64)
        ensures
            v == self@.delta,
            self@.wf(),
    {
        proof {
            use_type_invariant(self);
        }
        self.delta
    }

    /// Moves the value up by `change`; at a bound it stays there.
    pub fn increment(&mut self, change: i64)
        ensures
            final(self)@ == old(self)@.incremented(change as int),
            final(self)@.wf(),
    {
        proof {
            use_type_invariant(&*self);
        }
        self.current = clamp_wide(self.current as i128 + change as i128, self.min, self.max);
    }

    /// Moves the value down by `change`; at a bound it stays there.
    pub fn decrement(&mut self, change: i64)
        ensures
            final(self)@ == old(self)@.decremented(change as int),
            final(self)@.wf(),
    {
        proof {
            use_type_invariant(&*self);
        }
        self.current = clamp_wide(self.current as i128 - change as i128, self.min, self.max);
    }

    /// Sets the value to the fraction `f` of the upper bound, quantized by
    /// the step. `f` is in thousandths; below 0 it counts as 0, above 1000
    /// as 1000.
    pub fn set_fraction(&mut self, f: i64)
        ensures
            final(self)@ == old(self)@.at_fraction(f as int),
            final(self)@.wf(),
    {
        proof {
            use_type_invariant(&*self);
        }
        let fraction: i64 = if f < 0 {
            0
        } else if f > SCALE {
            SCALE
        } else {
            f
        };
        assert(fraction * self.max >= -1000 * 0x8000_0000_0000_0000 && fraction * self.max <= 1000
            * 0x8000_0000_0000_0000) by (nonlinear_arith)
            requires
                0 <= fraction <= 1000,
                -0x8000_0000_0000_0000 <= self.max <= 0x8000_0000_0000_0000,
        ;
        let share: i128 = floor_div_wide(fraction as i128 * self.max as i128, SCALE as i128);
        let bins: i128 = floor_div_wide(share, self.delta as i128);
        assert(share - self.delta < bins * self.delta <= share) by (nonlinear_arith)
            requires
                bins == share as int / self.delta as int,
                self.delta > 0,
        ;
        self.current = clamp_wide(bins * self.delta as i128, self.min, self.max);
    }
}

} // verus!
