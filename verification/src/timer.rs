//! A countdown timer over integer milliseconds: an explicit
//! duration-accumulator with `advance`, `elapsed_ms`, `finished` and `reset`.

use vstd::prelude::*;

verus! {

/// Tracks elapsed time against a fixed duration. Elapsed time saturates at
/// the duration, so a finished timer stays finished until it is reset.
#[derive(Clone, Copy, PartialEq, Eq, Structural, Debug)]
pub struct Timer {
    /// Total duration in milliseconds.
    pub duration_ms: u32,
    /// Time elapsed so far, never above `duration_ms`.
    pub elapsed_ms: u32,
}

impl Timer {
    /// Elapsed time never exceeds the duration.
    pub open spec fn wf(self) -> bool {
        self.elapsed_ms <= self.duration_ms
    }

    /// The timer has run down its whole duration.
    pub open spec fn spec_finished(self) -> bool {
        self.elapsed_ms >= self.duration_ms
    }

    /// The timer after `delta_ms` more milliseconds have passed.
    pub open spec fn spec_advance(self, delta_ms: u32) -> Timer {
        if self.elapsed_ms + delta_ms >= self.duration_ms {
            Timer { duration_ms: self.duration_ms, elapsed_ms: self.duration_ms }
        } else {
            Timer {
                duration_ms: self.duration_ms,
                elapsed_ms: (self.elapsed_ms + delta_ms) as u32,
            }
        }
    }

    /// The timer wound back to the start of its duration.
    pub open spec fn spec_reset(self) -> Timer {
        Timer { duration_ms: self.duration_ms, elapsed_ms: 0 }
    }

    /// A fresh timer with nothing elapsed yet.
    pub fn from_ms(duration_ms: u32) -> (t: Timer)
        ensures
            t == (Timer { duration_ms, elapsed_ms: 0u32 }),
    {
        Timer { duration_ms, elapsed_ms: 0 }
    }

    /// Runtime check of `wf`, for unverified callers.
    pub fn check_wf(&self) -> (b: bool)
        ensures
            b == self.wf(),
    {
        self.elapsed_ms <= self.duration_ms
    }

    pub fn finished(&self) -> (b: bool)
        ensures
            b == self.spec_finished(),
    {
        self.elapsed_ms >= self.duration_ms
    }

    pub fn elapsed(&self) -> (e: u32)
        ensures
            e == self.elapsed_ms,
    {
        self.elapsed_ms
    }

    /// Advance the timer by a frame's delta; elapsed time saturates at the
    /// duration.
    pub fn advance(&mut self, delta_ms: u32)
        requires
            old(self).wf(),
        ensures
            *final(self) == old(self).spec_advance(delta_ms),
            final(self).wf(),
    {
        if delta_ms >= self.duration_ms - self.elapsed_ms {
            self.elapsed_ms = self.duration_ms;
        } else {
            self.elapsed_ms = self.elapsed_ms + delta_ms;
        }
    }

    /// Advancing a timer frame by frame is advancing it by the total
    /// elapsed time: a countdown finishes exactly when the summed frame
    /// deltas reach its duration, however they are split.
    pub proof fn lemma_advance_adds(self, a: u32, b: u32)
        requires
            self.wf(),
            a + b <= u32::MAX,
        ensures
            self.spec_advance(a).spec_advance(b) == self.spec_advance((a + b) as u32),
    {
    }

    /// Wind the timer back to zero elapsed time.
    pub fn reset(&mut self)
        ensures
            *final(self) == old(self).spec_reset(),
            final(self).wf(),
    {
        self.elapsed_ms = 0;
    }
}

} // verus!
