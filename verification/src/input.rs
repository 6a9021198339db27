//! The fixed key bindings: pause, slower, faster.

use crate::timer::{RepeatingTimer, TimerView};
use std::time::Instant;
use vstd::prelude::*;

verus! {

/// A key press, as far as the bindings tell keys apart.
#[derive(Clone, Copy, Debug, PartialEq, Eq, Structural)]
pub enum Key {
    /// The space bar: pauses or resumes.
    Space,
    /// The minus key: lengthens the period by one step.
    Minus,
    /// The equals key: shortens the period by one step.
    Equal,
    /// Any other key: no binding.
    Other,
}

/// By how many nanoseconds one key press changes the period: 10 ms.
pub const RATE_STEP: u128 = 10_000_000;

/// The period one step slower. It stops growing at the largest period
/// that can be held.
pub open spec fn slower(period: nat) -> nat {
    if period + RATE_STEP <= u128::MAX {
        (period + RATE_STEP) as nat
    } else {
        u128::MAX as nat
    }
}

/// The period one step faster. It stops shrinking at zero, where every
/// update finishes a cycle.
pub open spec fn faster(period: nat) -> nat {
    if period >= RATE_STEP {
        (period - RATE_STEP) as nat
    } else {
        0
    }
}

/// The timer after the most recent key press of a frame, if there was
/// one, has been acted on. A timer that is set to another period counts
/// its readings from `restart`.
pub open spec fn after_key(timer: TimerView, key: Option<Key>, restart: Instant) -> TimerView {
    match key {
        Some(Key::Space) => timer.toggle_pause(),
        Some(Key::Minus) => TimerView::fresh(slower(timer.period), restart),
        Some(Key::Equal) => TimerView::fresh(faster(timer.period), restart),
        Some(Key::Other) => timer,
        None => timer,
    }
}

/// Acts on the most recent key press of a frame, if there was one.
///
/// Space pauses or resumes the timer. Minus and equals set a period one
/// step longer or shorter, which starts the timer over. Other keys do
/// nothing.
pub fn apply_key(timer: &mut RepeatingTimer, key: Option<Key>)
    ensures
        final(timer)@ == after_key(old(timer)@, key, final(timer)@.origin),
        key == Some(Key::Minus) && old(timer)@.period + RATE_STEP <= u128::MAX ==> {
            &&& final(timer)@.period == old(timer)@.period + RATE_STEP
            &&& final(timer)@.time_left == final(timer)@.period
        },
        key == Some(Key::Equal) && old(timer)@.period >= RATE_STEP ==> {
            &&& final(timer)@.period == old(timer)@.period - RATE_STEP
            &&& final(timer)@.time_left == final(timer)@.period
        },
{
    match key {
        Some(Key::Space) => timer.toggle_pause(),
        Some(Key::Minus) => {
            let period = timer.rate().saturating_add(RATE_STEP);
            timer.set_period(period);
        },
        Some(Key::Equal) => {
            let period = timer.rate().saturating_sub(RATE_STEP);
            timer.set_period(period);
        },
        Some(Key::Other) => {},
        None => {},
    }
}

} // verus!
