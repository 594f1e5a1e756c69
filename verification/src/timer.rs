use vstd::prelude::*;

verus! {

/// The part of the host engine's timers that the gameplay reads: elapsed
/// time accumulated against a fixed duration, in whole milliseconds.  A
/// timer is finished once its elapsed time has reached its duration and
/// stays finished until it is reset.
#[derive(Clone, Copy, Debug, PartialEq, Eq, Structural)]
pub struct Timer {
    pub elapsed_ms: u32,
    pub duration_ms: u32,
}

impl Timer {
    pub open spec fn spec_finished(self) -> bool {
        self.elapsed_ms >= self.duration_ms
    }

    /// The timer after advancing by `delta_ms`; elapsed time saturates
    /// rather than wrapping.
    pub open spec fn spec_tick(self, delta_ms: u32) -> Timer {
        Timer {
            elapsed_ms: if self.elapsed_ms + delta_ms > u32::MAX {
                u32::MAX
            } else {
                (self.elapsed_ms + delta_ms) as u32
            },
            duration_ms: self.duration_ms,
        }
    }

    /// A fresh timer that has not run at all yet.
    pub fn new(duration_ms: u32) -> (t: Timer)
        ensures
            t == (Timer { elapsed_ms: 0, duration_ms }),
    {
        Timer { elapsed_ms: 0, duration_ms }
    }

    pub fn finished(&self) -> (r: bool)
        ensures
            r == self.spec_finished(),
    {
        self.elapsed_ms >= self.duration_ms
    }

    /// Advance the timer by one frame's delta.
    pub fn tick(&mut self, delta_ms: u32)
        ensures
            *final(self) == old(self).spec_tick(delta_ms),
    {
        if delta_ms > u32::MAX - self.elapsed_ms {
            self.elapsed_ms = u32::MAX;
        } else {
            self.elapsed_ms = self.elapsed_ms + delta_ms;
        }
    }

    /// Wind the timer back to the start; the duration is kept.
    pub fn reset(&mut self)
        ensures
            *final(self) == (Timer { elapsed_ms: 0, duration_ms: old(self).duration_ms }),
    {
        self.elapsed_ms = 0;
    }
}

} // verus!
