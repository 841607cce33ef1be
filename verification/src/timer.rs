//! A small repeating/one-shot countdown timer over integer time units.
//!
//! The unit is whatever the caller feeds consistently to `tick`; the timer
//! only accumulates, compares and subtracts.

use vstd::prelude::*;

verus! {

/// A countdown timer: accumulates elapsed time until it reaches its
/// duration; a repeating timer then winds back by one duration.
#[derive(Clone, Copy, PartialEq, Eq, Structural, Debug)]
pub struct Timer {
    pub elapsed: i64,
    pub duration: i64,
    pub paused: bool,
    pub repeating: bool,
}

/// What one tick does: a finished repeating timer first winds back by one
/// duration, then an unpaused timer accumulates the delta (saturating at
/// the machine's largest value).
pub open spec fn tick_spec(s: Timer, delta: int) -> Timer {
    let rewound = if s.repeating && s.elapsed >= s.duration {
        s.elapsed - s.duration
    } else {
        s.elapsed as int
    };
    let advanced = if !s.paused {
        if rewound + delta > i64::MAX {
            i64::MAX as int
        } else {
            rewound + delta
        }
    } else {
        rewound
    };
    Timer { elapsed: advanced as i64, ..s }
}

impl Timer {
    /// Time never runs backwards: both counters are nonnegative.
    pub open spec fn wf(self) -> bool {
        &&& self.elapsed >= 0
        &&& self.duration >= 0
    }

    /// A repeating timer of the given duration.
    pub fn new(duration: i64) -> (r: Timer)
        requires
            duration >= 0,
        ensures
            r == (Timer { elapsed: 0, duration, paused: false, repeating: true }),
            r.wf(),
    {
        Timer { duration, ..Default::default() }
    }

    /// A repeating timer of the given duration, counted in seconds.
    pub fn from_seconds(seconds: i64) -> (r: Timer)
        requires
            seconds >= 0,
        ensures
            r == (Timer { elapsed: 0, duration: seconds, paused: false, repeating: true }),
            r.wf(),
    {
        Timer { duration: seconds, ..Default::default() }
    }

    /// Ticks by a delta given in the same unit as the duration.
    pub fn tick_duration(&mut self, duration: i64) -> (r: bool)
        requires
            old(self).wf(),
            duration >= 0,
        ensures
            *final(self) == tick_spec(*old(self), duration as int),
            final(self).wf(),
            r == (final(self).elapsed >= final(self).duration),
    {
        self.tick(duration)
    }

    /// Advances the timer and reports whether it has finished: a finished
    /// repeating timer winds back by one duration first, a paused timer
    /// does not accumulate.
    pub fn tick(&mut self, delta_seconds: i64) -> (r: bool)
        requires
            old(self).wf(),
            delta_seconds >= 0,
        ensures
            *final(self) == tick_spec(*old(self), delta_seconds as int),
            final(self).wf(),
            r == (final(self).elapsed >= final(self).duration),
    {
        if self.repeating && self.elapsed >= self.duration {
            self.elapsed = self.elapsed - self.duration;
        }
        if !self.paused {
            self.elapsed = match self.elapsed.checked_add(delta_seconds) {
                Some(e) => e,
                None => i64::MAX,
            };
        }
        self.elapsed >= self.duration
    }
}

impl Default for Timer {
    /// A zero-duration repeating timer, unpaused and unelapsed.
    fn default() -> (r: Timer)
        ensures
            r == (Timer { elapsed: 0, duration: 0, paused: false, repeating: true }),
    {
        Timer { elapsed: 0, duration: 0, paused: false, repeating: true }
    }
}

} // verus!
