//! What the keys and the mouse do to the slice.
//!
//! Reading the keyboard, the mouse and the clock is left to the caller, who
//! hands in what they said and carries out what comes back.

use vstd::prelude::*;
use crate::parameter::{decremented, fraction_value, incremented};
use crate::providers::generic::Provider;

verus! {

/// How far one press of a key moves the slice.
#[derive(Clone, Copy, Debug, PartialEq, Eq, Structural)]
pub struct ColorParam {
    pub delta: i64,
}

/// What the input devices said in one frame.
#[derive(Clone, Copy, Debug)]
pub struct ParamInput {
    /// The wait after the last key press is over and the image is loaded.
    pub ready: bool,
    /// A click on the scale of the slice axis: how far along the scale it
    /// was, as a fraction in thousandths.
    pub click: Option<i64>,
    /// The key that makes the steps ten times as long is held.
    pub shift: bool,
    /// The key that moves the slice down is held.
    pub down: bool,
    /// The key that moves the slice up is held.
    pub up: bool,
}

/// What the caller is to do after a frame's input.
#[derive(Clone, Copy, Debug, PartialEq, Eq, Structural)]
pub struct ParamOutcome {
    /// Start the wait after a key press anew.
    pub restart_cooldown: bool,
    /// Bring everything that shows the slice up to date.
    pub redraw: bool,
}

/// The length of a step: `delta`, or ten times `delta` with the shift key,
/// as far as 64 bits hold it.
pub open spec fn step_spec(delta: int, shift: bool) -> int {
    if !shift {
        delta
    } else if 10 * delta > i64::MAX {
        i64::MAX as int
    } else if 10 * delta < i64::MIN {
        i64::MIN as int
    } else {
        10 * delta
    }
}

/// The slice after a click: where the click selects it, or where it was
/// without one.
pub open spec fn after_click(
    slice: int,
    click: Option<i64>,
    min: int,
    max: int,
    delta: int,
) -> int {
    match click {
        Some(f) => fraction_value(f as int, min, max, delta),
        None => slice,
    }
}

/// The slice after the keys: a step down with the down key, else a step up
/// with the up key, else where it was.
pub open spec fn after_keys(
    slice: int,
    step: int,
    down: bool,
    up: bool,
    min: int,
    max: int,
) -> int {
    if down {
        decremented(slice, step, min, max)
    } else if up {
        incremented(slice, step, min, max)
    } else {
        slice
    }
}

/// The length of a step.
pub fn step(delta: i64, shift: bool) -> (change: i64)
    ensures
        change == step_spec(delta as int, shift),
{
    if !shift {
        delta
    } else {
        let wide: i128 = 10 * (delta as i128);
        if wide > i64::MAX as i128 {
            i64::MAX
        } else if wide < i64::MIN as i128 {
            i64::MIN
        } else {
            wide as i64
        }
    }
}

/// Applies one frame's input to the slice of `p`. Until the caller is
/// ready nothing happens. Then a click sets the slice, and after it a held
/// key moves it by one step; a key press asks for the wait to start anew;
/// and a redraw is asked for whenever the slice is marked as changed.
pub fn change_param<A: Provider>(p: &mut A, param: &ColorParam, input: &ParamInput) -> (out:
    ParamOutcome)
    ensures
        !input.ready ==> *final(p) == *old(p) && out == (ParamOutcome {
            restart_cooldown: false,
            redraw: false,
        }),
        input.ready ==> final(p).slice() == after_keys(
            after_click(
                old(p).slice(),
                input.click,
                A::MIN as int,
                A::MAX as int,
                A::DELTA as int,
            ),
            step_spec(param.delta as int, input.shift),
            input.down,
            input.up,
            A::MIN as int,
            A::MAX as int,
        ),
        input.ready ==> final(p).changed() == (old(p).changed() || input.click is Some
            || input.down || input.up),
        input.ready ==> out.restart_cooldown == (input.down || input.up),
        input.ready ==> out.redraw == final(p).changed(),
{
    if !input.ready {
        return ParamOutcome { restart_cooldown: false, redraw: false };
    }
    let ghost was_changed = p.changed();
    match input.click {
        Some(f) => {
            p.set(f);
        },
        None => {},
    }
    let change = step(param.delta, input.shift);
    let mut restart_cooldown = false;
    if input.down {
        p.decr(change);
        restart_cooldown = true;
    } else if input.up {
        p.incr(change);
        restart_cooldown = true;
    }
    let redraw = p.is_changed();
    ParamOutcome { restart_cooldown, redraw }
}

} // verus!
