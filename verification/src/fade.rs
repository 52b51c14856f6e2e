//! The fade scheduler: how loud the output is at each fade position.

use crate::guard::{AudioStateGuard, GuardView};
use crate::queue::RequestQueue;
use vstd::prelude::*;

verus! {

/// Number of discrete positions between fully ducked (0) and fully
/// restored (`FADE_STEPS`).
pub const FADE_STEPS: u8 = 10;

/// The volume, in percent, that belongs to a fade position: the original
/// volume scaled by `position / FADE_STEPS`, rounded down.
pub open spec fn fade_volume_at(original: u8, position: u8) -> int {
    (original as int * position as int) / (FADE_STEPS as int)
}

/// A scaled volume never exceeds the original, and the product that it is
/// computed from fits in sixteen bits.
pub proof fn lemma_fade_volume_bounds(original: u8, position: u8)
    requires
        position <= FADE_STEPS,
    ensures
        0 <= original as int * position as int <= 2550,
        0 <= fade_volume_at(original, position) <= original,
{
    let o = original as int;
    let p = position as int;
    assert(0 <= o * p <= o * 10) by (nonlinear_arith)
        requires
            0 <= o,
            0 <= p <= 10,
    ;
}

/// Computes the volume for one fade position.
pub fn fade_volume(original: u8, position: u8) -> (volume: u8)
    requires
        position <= FADE_STEPS,
    ensures
        volume as int == fade_volume_at(original, position),
        volume <= original,
{
    proof {
        lemma_fade_volume_bounds(original, position);
    }
    let scaled: u16 = original as u16 * position as u16;
    let volume: u16 = scaled / (FADE_STEPS as u16);
    volume as u8
}

/// The pause after each fade step: the fade's duration split into
/// `FADE_STEPS` equal intervals, in nanoseconds.
pub open spec fn step_interval(duration: u64) -> u64 {
    (duration as int / FADE_STEPS as int) as u64
}

/// What a fade does next.
#[derive(Clone, Copy, Debug, PartialEq, Eq, Structural)]
pub enum FadeStep {
    /// Set the output to `volume`. Once that is done the fade stands at
    /// `position`, and one step interval is to pass before the next step.
    Apply { position: u8, volume: u8 },
    /// The fade has passed its last position.
    Done,
    /// The shutdown signal arrived; the fade position stays where it is.
    Cancelled,
    /// A request arrived during a fade-in; the fade position stays where it
    /// is.
    Interrupted,
}

/// The next step of a fade-out. It walks down from the position just below
/// the guard's to 0. Nothing is left to do at position 0; otherwise a
/// shutdown stops it before the step.
pub open spec fn out_step(guard: GuardView, running: bool) -> FadeStep {
    if guard.position == 0 {
        FadeStep::Done
    } else if !running {
        FadeStep::Cancelled
    } else {
        let position = (guard.position - 1) as u8;
        FadeStep::Apply { position, volume: fade_volume_at(guard.volume, position) as u8 }
    }
}

/// The next step of a fade-in that is about to apply position `next`. It
/// walks up to `FADE_STEPS` included. A waiting request stops it before the
/// step, and so does, after that, a shutdown.
pub open spec fn in_step(guard: GuardView, next: u8, running: bool, pending: bool) -> FadeStep {
    if next > FADE_STEPS {
        FadeStep::Done
    } else if pending {
        FadeStep::Interrupted
    } else if !running {
        FadeStep::Cancelled
    } else {
        FadeStep::Apply { position: next, volume: fade_volume_at(guard.volume, next) as u8 }
    }
}

/// Decides the next step of a fade-out from the guard's fade position and
/// the shutdown flag.
pub fn fade_audio_out(guard: &AudioStateGuard, running: bool) -> (step: FadeStep)
    ensures
        step == out_step(guard@, running),
        step matches FadeStep::Apply { position, .. } ==> position < FADE_STEPS,
{
    let current = guard.fade_state();
    if current == 0 {
        FadeStep::Done
    } else if !running {
        FadeStep::Cancelled
    } else {
        let position = current - 1;
        FadeStep::Apply { position, volume: fade_volume(guard.current_volume(), position) }
    }
}

/// Decides the next step of a fade-in that is about to apply position
/// `next`, from the shutdown flag and the request queue.
pub fn fade_audio_in(
    guard: &AudioStateGuard,
    next: u8,
    running: bool,
    queue: &RequestQueue,
) -> (step: FadeStep)
    ensures
        step == in_step(guard@, next, running, queue@.len() > 0),
        step matches FadeStep::Apply { position, .. } ==> position <= FADE_STEPS,
{
    if next > FADE_STEPS {
        FadeStep::Done
    } else if !queue.is_empty() {
        FadeStep::Interrupted
    } else if !running {
        FadeStep::Cancelled
    } else {
        FadeStep::Apply { position: next, volume: fade_volume(guard.current_volume(), next) }
    }
}

/// The volume grows with the fade position.
pub proof fn lemma_fade_volume_monotone(original: u8, lower: u8, upper: u8)
    requires
        lower <= upper <= FADE_STEPS,
    ensures
        fade_volume_at(original, lower) <= fade_volume_at(original, upper),
{
    let o = original as int;
    let l = lower as int;
    let u = upper as int;
    assert(o * l <= o * u) by (nonlinear_arith)
        requires
            0 <= o,
            0 <= l <= u,
    ;
}

/// At the last position the volume is the original volume, with no rounding.
pub proof fn lemma_fade_volume_full(original: u8)
    ensures
        fade_volume_at(original, FADE_STEPS) == original,
        fade_volume_at(original, 0) == 0,
{
}

} // verus!
