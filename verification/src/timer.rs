//! Frame timers in whole milliseconds.
//!
//! A timer accumulates frame time; when the accumulated time reaches its
//! duration it reports "just finished" for that one tick. A repeating timer
//! then keeps the overshoot, a one-shot timer stays finished.

use vstd::prelude::*;

verus! {

/// Frame times are bounded so that elapsed time never overflows;
/// a thousand hours of play stay far below this.
pub const TIME_LIMIT_MS: i64 = 0x1000_0000_0000;

#[derive(Clone, Copy, PartialEq, Eq, Structural, Debug)]
pub struct GameTimer {
    /// Time accumulated since the last finish, in milliseconds.
    pub elapsed_ms: i64,
    /// The span after which the timer finishes, in milliseconds.
    pub duration_ms: i64,
    /// Whether the timer restarts after finishing.
    pub repeating: bool,
    /// Whether the most recent tick made the timer finish.
    pub just_finished: bool,
}

impl GameTimer {
    pub open spec fn wf(self) -> bool {
        0 < self.duration_ms <= TIME_LIMIT_MS && 0 <= self.elapsed_ms <= TIME_LIMIT_MS
    }

    /// A fresh timer that will first finish after `duration_ms`.
    pub fn from_millis(duration_ms: i64, repeating: bool) -> (t: GameTimer)
        requires
            0 < duration_ms <= TIME_LIMIT_MS,
        ensures
            t.wf(),
            t.duration_ms == duration_ms,
            t.repeating == repeating,
            t.elapsed_ms == 0,
            !t.just_finished,
    {
        GameTimer { elapsed_ms: 0, duration_ms, repeating, just_finished: false }
    }

    /// What one tick of `dt_ms` does to a timer.
    pub open spec fn spec_tick(self, dt_ms: i64) -> GameTimer {
        let total = self.elapsed_ms + dt_ms;
        if total >= self.duration_ms {
            GameTimer {
                elapsed_ms: if self.repeating {
                    (total % (self.duration_ms as int)) as i64
                } else {
                    self.duration_ms
                },
                just_finished: true,
                ..self
            }
        } else {
            GameTimer { elapsed_ms: total as i64, just_finished: false, ..self }
        }
    }

    /// Advance the timer by one frame's time.
    pub fn tick(&mut self, dt_ms: i64)
        requires
            old(self).wf(),
            0 <= dt_ms <= TIME_LIMIT_MS,
        ensures
            *final(self) == old(self).spec_tick(dt_ms),
            final(self).wf(),
            final(self).just_finished <==> old(self).elapsed_ms + dt_ms >= old(self).duration_ms,
    {
        let total: i64 = self.elapsed_ms + dt_ms;
        if total >= self.duration_ms {
            if self.repeating {
                self.elapsed_ms = total % self.duration_ms;
            } else {
                self.elapsed_ms = self.duration_ms;
            }
            self.just_finished = true;
        } else {
            self.elapsed_ms = total;
            self.just_finished = false;
        }
    }
}

} // verus!
