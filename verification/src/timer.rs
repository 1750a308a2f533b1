//! One-shot countdown timers over integer time units.

use vstd::prelude::*;

verus! {

/// A one-shot countdown: it accumulates elapsed time up to a configured
/// duration and then reports itself finished until it is explicitly reset.
///
/// Completion is inclusive at exactly the configured duration, and the
/// `finished` flag is sticky: once set it stays set through further ticks
/// and is cleared only by a reset. A timer whose duration is zero counts as
/// finished as soon as it is constructed or reset.
///
/// Time is measured in dimensionless integer units; the caller chooses the
/// resolution and uses it consistently for durations and tick deltas.
#[derive(Clone, Copy, Debug, PartialEq, Eq, Structural)]
pub struct CountdownTimer {
    /// Configured countdown duration, in time units.
    pub duration: u64,
    /// Time accumulated so far, in time units; never exceeds `duration`.
    pub elapsed: u64,
    /// Whether the countdown has completed since the last reset.
    pub finished: bool,
}

impl CountdownTimer {
    /// Well-formedness: elapsed time is clamped at the duration, and the
    /// sticky flag agrees with the countdown having run out.
    pub open spec fn inv(self) -> bool {
        &&& self.elapsed <= self.duration
        &&& (self.finished <==> self.elapsed >= self.duration)
    }

    /// The state of a freshly constructed (or freshly re-armed) timer.
    pub open spec fn spec_new(duration: u64) -> CountdownTimer {
        CountdownTimer { duration, elapsed: 0, finished: duration == 0 }
    }

    /// The state after advancing by `delta` time units: a finished timer is
    /// left untouched; otherwise elapsed time grows, clamped at the duration,
    /// and the timer finishes exactly when the duration is reached.
    pub open spec fn spec_ticked(self, delta: u64) -> CountdownTimer {
        if self.finished {
            self
        } else if self.elapsed + delta >= self.duration {
            CountdownTimer { elapsed: self.duration, finished: true, ..self }
        } else {
            CountdownTimer { elapsed: (self.elapsed + delta) as u64, ..self }
        }
    }

    /// The state after a reset: the countdown starts over with the same
    /// duration. A zero-duration timer is finished again at once.
    pub open spec fn spec_reset(self) -> CountdownTimer {
        CountdownTimer { elapsed: 0, finished: self.duration == 0, ..self }
    }

    /// Creates a timer that must accumulate `duration` time units before it
    /// reports finished.
    pub fn new(duration: u64) -> (t: CountdownTimer)
        ensures
            t == CountdownTimer::spec_new(duration),
            t.inv(),
    {
        CountdownTimer { duration, elapsed: 0, finished: duration == 0 }
    }

    /// Advances the countdown by `delta` time units. Advancing by zero
    /// elapses nothing; a finished timer stays exactly as it is.
    pub fn tick(&mut self, delta: u64)
        requires
            old(self).inv(),
        ensures
            *final(self) == old(self).spec_ticked(delta),
            final(self).inv(),
    {
        if !self.finished {
            let remaining: u64 = self.duration - self.elapsed;
            if delta >= remaining {
                self.elapsed = self.duration;
                self.finished = true;
            } else {
                self.elapsed = self.elapsed + delta;
            }
        }
    }

    /// Whether the countdown has completed since the last reset.
    pub fn finished(&self) -> (r: bool)
        ensures
            r == self.finished,
    {
        self.finished
    }

    /// Starts the countdown over with the currently configured duration.
    pub fn reset(&mut self)
        ensures
            *final(self) == old(self).spec_reset(),
            final(self).inv(),
    {
        self.elapsed = 0;
        self.finished = self.duration == 0;
    }

    /// Starts the countdown over with a new duration, for callers that
    /// derive the interval between shots from external state.
    pub fn reset_with_duration(&mut self, duration: u64)
        ensures
            *final(self) == CountdownTimer::spec_new(duration),
            final(self).inv(),
    {
        self.duration = duration;
        self.elapsed = 0;
        self.finished = duration == 0;
    }

}

} // verus!
