//! Countdown timers advanced by elapsed clock ticks, independent of frame
//! rate. A one-shot timer clamps at its duration; a repeating timer wraps
//! around and can fire again on a later cycle.

use vstd::prelude::*;

verus! {

/// Whether a timer stops at its duration or restarts from the remainder.
#[derive(Clone, Copy, Debug, PartialEq, Eq, Structural)]
pub enum TimerMode {
    Once,
    Repeating,
}

/// A countdown timer: `elapsed` ticks accumulated toward `duration` ticks.
#[derive(Clone, Copy, Debug)]
pub struct Timer {
    pub duration: u64,
    pub elapsed: u64,
    pub mode: TimerMode,
}

impl Timer {
    /// A timer is well formed when its duration is positive, its elapsed
    /// time never exceeds the duration, and a repeating timer has always
    /// wrapped strictly below it.
    pub open spec fn wf(self) -> bool {
        &&& self.duration > 0
        &&& self.elapsed <= self.duration
        &&& self.mode == TimerMode::Repeating ==> self.elapsed < self.duration
    }

    /// The elapsed value after advancing by `delta` ticks: a one-shot timer
    /// clamps at the duration, a repeating timer wraps.
    pub open spec fn spec_tick_elapsed(self, delta: u64) -> int {
        if self.mode == TimerMode::Repeating {
            (self.elapsed + delta) % (self.duration as int)
        } else if self.elapsed + delta >= self.duration {
            self.duration as int
        } else {
            self.elapsed + delta
        }
    }

    /// Whether advancing by `delta` ticks completes a cycle this tick.
    pub open spec fn spec_tick_finished(self, delta: u64) -> bool {
        if self.mode == TimerMode::Repeating {
            self.elapsed + delta >= self.duration
        } else {
            self.elapsed < self.duration && self.elapsed + delta >= self.duration
        }
    }

    /// The whole timer state after advancing by `delta` ticks.
    pub open spec fn spec_tick(self, delta: u64) -> Timer {
        Timer { elapsed: self.spec_tick_elapsed(delta) as u64, ..self }
    }

    /// Whether at least half of the duration has elapsed.
    pub open spec fn spec_at_least_half(self) -> bool {
        2 * self.elapsed >= self.duration
    }

    /// A fresh timer of `duration` ticks in the given mode.
    pub fn new(duration: u64, mode: TimerMode) -> (t: Timer)
        requires
            duration > 0,
        ensures
            t == (Timer { duration, elapsed: 0, mode }),
            t.wf(),
    {
        Timer { duration, elapsed: 0, mode }
    }

    /// Advance the timer by `delta` ticks; report whether a cycle completed
    /// during this call.
    pub fn tick(&mut self, delta: u64) -> (just_finished: bool)
        requires
            old(self).wf(),
            old(self).elapsed + delta <= u64::MAX,
        ensures
            *final(self) == old(self).spec_tick(delta),
            just_finished == old(self).spec_tick_finished(delta),
            final(self).wf(),
    {
        let total = self.elapsed + delta;
        match self.mode {
            TimerMode::Repeating => {
                self.elapsed = total % self.duration;
                total >= self.duration
            },
            TimerMode::Once => {
                if total >= self.duration {
                    let was_running = self.elapsed < self.duration;
                    self.elapsed = self.duration;
                    was_running
                } else {
                    self.elapsed = total;
                    false
                }
            },
        }
    }

    /// Whether at least half of the duration has elapsed.
    pub fn at_least_half(&self) -> (r: bool)
        requires
            self.wf(),
        ensures
            r == self.spec_at_least_half(),
    {
        // 2 * elapsed >= duration, computed without overflowing u64.
        self.elapsed >= self.duration - self.duration / 2
    }
}

} // verus!
