//! The fade-gated transition protocol. A mode switch is never instantaneous:
//! a `ScreenFade` with a one-shot, one-time-unit countdown mediates it. The
//! overlay's alpha ramps from transparent to opaque over the first half of
//! the fade and back over the second half, and the target state is applied
//! exactly once, on the first tick where at least half the duration has
//! elapsed — at the visually opaque moment. When the countdown completes,
//! the fade entity is destroyed.

use vstd::prelude::*;

use crate::timer::{Timer, TimerMode};
use crate::{GameState, TIME_SCALE};

verus! {

/// Duration of every fade, in clock ticks: one time unit.
pub const FADE_DURATION: u64 = TIME_SCALE;

/// Alpha of a fully opaque overlay; alpha is counted in thousandths.
pub const ALPHA_SCALE: u64 = 1000;

/// A transient screen-fade entity: the overlay alpha, the flag that records
/// whether this fade has already applied its target state, the state to
/// switch to, and the one-shot countdown that drives it.
#[derive(Clone, Copy, Debug)]
pub struct ScreenFade {
    pub alpha: u64,
    pub sent: bool,
    pub next_state: GameState,
    pub timer: Timer,
}

/// The overlay alpha for a fade timer's progress: it ramps linearly up to
/// `ALPHA_SCALE` over the first half of the duration and back down to zero
/// over the second half.
pub open spec fn fade_alpha(t: Timer) -> int {
    if 2 * t.elapsed < t.duration {
        2 * t.elapsed * ALPHA_SCALE / (t.duration as int)
    } else {
        2 * (t.duration - t.elapsed) * ALPHA_SCALE / (t.duration as int)
    }
}

impl ScreenFade {
    /// A fade runs on a positive one-shot countdown, keeps its alpha in
    /// range, and has applied its state change exactly when it is at or
    /// past its midpoint.
    pub open spec fn wf(self) -> bool {
        &&& self.timer.wf()
        &&& self.timer.mode == TimerMode::Once
        &&& self.alpha <= ALPHA_SCALE
        &&& self.sent <==> self.timer.spec_at_least_half()
    }
}

/// The fade after one tick of `delta` clock ticks: the countdown advances,
/// the alpha follows it, and `sent` latches once the midpoint is reached.
pub open spec fn fade_result(f: ScreenFade, delta: u64) -> ScreenFade {
    let t = f.timer.spec_tick(delta);
    ScreenFade {
        alpha: fade_alpha(t) as u64,
        sent: f.sent || t.spec_at_least_half(),
        next_state: f.next_state,
        timer: t,
    }
}

/// Whether this tick applies the fade's target state: exactly on the tick
/// that first reaches the midpoint, never again afterwards.
pub open spec fn fade_flips(f: ScreenFade, delta: u64) -> bool {
    !f.sent && f.timer.spec_tick(delta).spec_at_least_half()
}

/// Whether this tick completes the countdown, after which the fade entity
/// is destroyed.
pub open spec fn fade_despawns(f: ScreenFade, delta: u64) -> bool {
    f.timer.spec_tick_finished(delta)
}

/// The overlay alpha never leaves `[0, ALPHA_SCALE]`.
pub proof fn lemma_fade_alpha_in_range(t: Timer)
    requires
        t.wf(),
    ensures
        0 <= fade_alpha(t) <= ALPHA_SCALE,
{
    if 2 * t.elapsed < t.duration {
        assert(2 * t.elapsed * ALPHA_SCALE <= t.duration * ALPHA_SCALE) by (nonlinear_arith)
            requires
                2 * t.elapsed < t.duration,
        ;
        assert(2 * t.elapsed * ALPHA_SCALE / (t.duration as int) <= t.duration * ALPHA_SCALE / (
        t.duration as int)) by (nonlinear_arith)
            requires
                2 * t.elapsed * ALPHA_SCALE <= t.duration * ALPHA_SCALE,
                t.duration > 0,
        ;
        assert(t.duration * ALPHA_SCALE / (t.duration as int) == ALPHA_SCALE) by (nonlinear_arith)
            requires
                t.duration > 0,
        ;
        assert(2 * t.elapsed * ALPHA_SCALE >= 0) by (nonlinear_arith);
        assert(2 * t.elapsed * ALPHA_SCALE / (t.duration as int) >= 0) by (nonlinear_arith)
            requires
                2 * t.elapsed * ALPHA_SCALE >= 0,
                t.duration > 0,
        ;
    } else {
        let left = 2 * (t.duration - t.elapsed);
        assert(0 <= left <= t.duration);
        assert(left * ALPHA_SCALE <= t.duration * ALPHA_SCALE) by (nonlinear_arith)
            requires
                0 <= left <= t.duration,
        ;
        assert(left * ALPHA_SCALE / (t.duration as int) <= t.duration * ALPHA_SCALE / (
        t.duration as int)) by (nonlinear_arith)
            requires
                left * ALPHA_SCALE <= t.duration * ALPHA_SCALE,
                t.duration > 0,
        ;
        assert(t.duration * ALPHA_SCALE / (t.duration as int) == ALPHA_SCALE) by (nonlinear_arith)
            requires
                t.duration > 0,
        ;
        assert(left * ALPHA_SCALE >= 0) by (nonlinear_arith)
            requires
                left >= 0,
        ;
        assert(left * ALPHA_SCALE / (t.duration as int) >= 0) by (nonlinear_arith)
            requires
                left * ALPHA_SCALE >= 0,
                t.duration > 0,
        ;
    }
}

/// Ticking preserves a fade's well-formedness.
pub proof fn lemma_fade_result_wf(f: ScreenFade, delta: u64)
    requires
        f.wf(),
    ensures
        fade_result(f, delta).wf(),
{
    let t = f.timer.spec_tick(delta);
    lemma_fade_alpha_in_range(t);
    assert(f.timer.elapsed <= t.elapsed);
}

/// The fade after a whole sequence of ticks, applied in order.
pub open spec fn fade_run(f: ScreenFade, deltas: Seq<u64>) -> ScreenFade
    decreases deltas.len(),
{
    if deltas.len() == 0 {
        f
    } else {
        fade_run(fade_result(f, deltas[0]), deltas.drop_first())
    }
}

/// How often a sequence of ticks applies the fade's target state.
pub open spec fn fade_flip_count(f: ScreenFade, deltas: Seq<u64>) -> nat
    decreases deltas.len(),
{
    if deltas.len() == 0 {
        0
    } else {
        (if fade_flips(f, deltas[0]) {
            1nat
        } else {
            0nat
        }) + fade_flip_count(fade_result(f, deltas[0]), deltas.drop_first())
    }
}

/// Law: over any sequence of ticks, a fade instance applies its target
/// state exactly once if the run reaches the midpoint and it had not
/// already — and never more than once.
pub proof fn lemma_fade_applies_exactly_once(f: ScreenFade, deltas: Seq<u64>)
    requires
        f.wf(),
    ensures
        fade_run(f, deltas).wf(),
        f.sent ==> fade_run(f, deltas).sent,
        fade_flip_count(f, deltas) == if !f.sent && fade_run(f, deltas).sent {
            1nat
        } else {
            0nat
        },
        fade_flip_count(f, deltas) <= 1,
    decreases deltas.len(),
{
    if deltas.len() > 0 {
        let f1 = fade_result(f, deltas[0]);
        lemma_fade_result_wf(f, deltas[0]);
        lemma_fade_applies_exactly_once(f1, deltas.drop_first());
    }
}

/// Law: under the fade's invariant, the state change lands exactly on the
/// tick that first reaches half the duration — never before, never after.
pub proof fn lemma_fade_flip_is_first_midpoint_tick(f: ScreenFade, delta: u64)
    requires
        f.wf(),
    ensures
        fade_flips(f, delta) <==> (!f.timer.spec_at_least_half() && f.timer.spec_tick(
            delta,
        ).spec_at_least_half()),
{
}

/// Spawn a fade toward `next_state`: fully transparent, its state change
/// not yet applied, its one-time-unit one-shot countdown at zero.
pub fn create_fadeout(next_state: GameState) -> (f: ScreenFade)
    ensures
        f == (ScreenFade {
            alpha: 0,
            sent: false,
            next_state,
            timer: Timer { duration: FADE_DURATION, elapsed: 0, mode: TimerMode::Once },
        }),
        f.wf(),
        !f.sent,
{
    ScreenFade {
        alpha: 0,
        sent: false,
        next_state,
        timer: Timer::new(FADE_DURATION, TimerMode::Once),
    }
}

/// One fade tick: advance the countdown, move the overlay alpha along its
/// ramp, and, exactly on the first tick at or past the midpoint, flip the
/// global state to the fade's target. Returns whether the countdown
/// completed, upon which the caller destroys the fade.
pub fn fadeout(fade: &mut ScreenFade, state: &mut GameState, delta: u64) -> (despawn: bool)
    requires
        old(fade).wf(),
        old(fade).timer.elapsed + delta <= u64::MAX,
    ensures
        *final(fade) == fade_result(*old(fade), delta),
        *final(state) == if fade_flips(*old(fade), delta) {
            old(fade).next_state
        } else {
            *old(state)
        },
        despawn == fade_despawns(*old(fade), delta),
        final(fade).wf(),
{
    proof {
        lemma_fade_result_wf(*fade, delta);
    }
    let just_finished = fade.timer.tick(delta);

    let e = fade.timer.elapsed as u128;
    let d = fade.timer.duration as u128;
    let alpha: u128 = if 2 * e < d {
        2 * e * (ALPHA_SCALE as u128) / d
    } else {
        2 * (d - e) * (ALPHA_SCALE as u128) / d
    };
    proof {
        lemma_fade_alpha_in_range(fade.timer);
    }
    fade.alpha = alpha as u64;

    if !fade.sent && fade.timer.at_least_half() {
        *state = fade.next_state;
        fade.sent = true;
    }

    just_finished
}

} // verus!
