//! The rotation-gesture timer and shared gesture state.
//!
//! A gesture is a time-boxed quarter-turn camera rotation. The timer counts
//! elapsed nanoseconds toward a fixed duration and has explicit pause, reset
//! and running phases; "just finished" is computed as an edge (the tick on
//! which elapsed first reached the duration), never as a sticky flag.

use vstd::prelude::*;

use crate::CAMERA_ROTATE_DURATION_NS;

verus! {

/// A bounded one-shot timer counting nanoseconds. Elapsed time never
/// exceeds the duration (ticks clamp to it).
#[derive(Clone, Copy, Debug, PartialEq, Eq, Structural)]
pub struct GestureTimer {
    pub elapsed_ns: u64,
    pub duration_ns: u64,
    pub paused: bool,
}

impl GestureTimer {
    /// The timer's internal invariant: elapsed time is clamped to the
    /// duration, and the duration is nonzero.
    pub open spec fn wf(self) -> bool {
        &&& self.elapsed_ns <= self.duration_ns
        &&& self.duration_ns > 0
    }

    /// The timer has reached its duration.
    pub open spec fn spec_finished(self) -> bool {
        self.elapsed_ns >= self.duration_ns
    }

    /// Timer value after one tick of `delta_ns`: no change while paused,
    /// otherwise elapsed time advances, clamped to the duration.
    pub open spec fn spec_tick(self, delta_ns: u64) -> GestureTimer {
        if self.paused {
            self
        } else if self.elapsed_ns + delta_ns >= self.duration_ns {
            GestureTimer { elapsed_ns: self.duration_ns, ..self }
        } else {
            GestureTimer { elapsed_ns: (self.elapsed_ns + delta_ns) as u64, ..self }
        }
    }

    /// A fresh, running timer of the given duration.
    pub fn new(duration_ns: u64) -> (r: GestureTimer)
        requires
            duration_ns > 0,
        ensures
            r == (GestureTimer { elapsed_ns: 0u64, duration_ns, paused: false }),
            r.wf(),
    {
        GestureTimer { elapsed_ns: 0, duration_ns, paused: false }
    }

    pub fn finished(&self) -> (r: bool)
        ensures
            r == self.spec_finished(),
    {
        self.elapsed_ns >= self.duration_ns
    }

    pub fn is_paused(&self) -> (r: bool)
        ensures
            r == self.paused,
    {
        self.paused
    }

    /// Advance the timer by one frame's delta. Returns whether the timer
    /// reached its duration on this very tick (the finished edge).
    pub fn tick(&mut self, delta_ns: u64) -> (just_finished: bool)
        requires
            old(self).wf(),
        ensures
            final(self).wf(),
            *final(self) == old(self).spec_tick(delta_ns),
            just_finished == (!old(self).spec_finished() && final(self).spec_finished()),
    {
        if self.paused {
            return false;
        }
        let was_finished = self.elapsed_ns >= self.duration_ns;
        if delta_ns >= self.duration_ns - self.elapsed_ns {
            self.elapsed_ns = self.duration_ns;
        } else {
            self.elapsed_ns = self.elapsed_ns + delta_ns;
        }
        !was_finished && self.elapsed_ns >= self.duration_ns
    }

    /// Rewind the elapsed time to zero.
    pub fn reset(&mut self)
        ensures
            *final(self) == (GestureTimer { elapsed_ns: 0u64, ..*old(self) }),
    {
        self.elapsed_ns = 0;
    }

    pub fn pause(&mut self)
        ensures
            *final(self) == (GestureTimer { paused: true, ..*old(self) }),
    {
        self.paused = true;
    }

    pub fn unpause(&mut self)
        ensures
            *final(self) == (GestureTimer { paused: false, ..*old(self) }),
    {
        self.paused = false;
    }
}

/// Shared state of the in-flight camera-rotation gesture, mutated every
/// frame by the two per-frame components.
///
/// `unlocked == true` means idle and eligible for a new trigger;
/// `unlocked == false` means a gesture is in flight (locked out).
/// `direction` is +1 (clockwise) or -1 (counter-clockwise) while a gesture
/// is in flight; its value when idle is stale and never read.
#[derive(Clone, Copy, Debug, PartialEq, Eq, Structural)]
pub struct CameraRotateOverTime {
    pub timer: GestureTimer,
    pub direction: i64,
    pub unlocked: bool,
}

impl CameraRotateOverTime {
    /// The gesture state's invariant: the timer is well formed with the
    /// fixed gesture duration, the timer is paused exactly when the state
    /// is idle (the finished edge re-pauses it), and while a gesture is in
    /// flight the direction is a unit sign.
    pub open spec fn wf(self) -> bool {
        &&& self.timer.wf()
        &&& self.timer.duration_ns == CAMERA_ROTATE_DURATION_NS
        &&& self.unlocked <==> self.timer.paused
        &&& !self.unlocked ==> (self.direction == 1 || self.direction == -1)
        &&& self.direction == 1 || self.direction == -1 || self.direction == 0
    }
}

impl Default for CameraRotateOverTime {
    /// The idle start state: paused zero timer of the fixed gesture
    /// duration, no direction, eligible for a trigger.
    fn default() -> (r: CameraRotateOverTime)
        ensures
            r == (CameraRotateOverTime {
                timer: GestureTimer {
                    elapsed_ns: 0u64,
                    duration_ns: CAMERA_ROTATE_DURATION_NS,
                    paused: true,
                },
                direction: 0i64,
                unlocked: true,
            }),
            r.wf(),
    {
        let mut timer = GestureTimer::new(CAMERA_ROTATE_DURATION_NS);
        timer.pause();
        CameraRotateOverTime { timer, direction: 0, unlocked: true }
    }
}

} // verus!
