//! Frame-clock timers: the repeating animation timer and the level
//! countdown.  Time is whole microseconds of wall-clock delta handed in
//! by the host each frame.

use vstd::prelude::*;

verus! {

/// Largest time value (period, limit or per-frame delta) the timers
/// accept, in microseconds (2^40 is about twelve days).
pub const TIME_LIMIT_MICROS: u64 = 0x100_0000_0000;

/// A repeating timer driving an animation strip: every full `period`
/// of elapsed time it fires once and starts over, keeping the remainder.
#[derive(Clone, Copy, Debug, PartialEq, Eq, Structural)]
pub struct AnimationTimer {
    pub period_micros: u64,
    pub elapsed_micros: u64,
}

impl AnimationTimer {
    pub open spec fn wf(self) -> bool {
        0 < self.period_micros <= TIME_LIMIT_MICROS && self.elapsed_micros
            < self.period_micros
    }

    pub fn new(period_micros: u64) -> (t: AnimationTimer)
        requires
            0 < period_micros <= TIME_LIMIT_MICROS,
        ensures
            t == (AnimationTimer { period_micros, elapsed_micros: 0 }),
            t.wf(),
    {
        AnimationTimer { period_micros, elapsed_micros: 0 }
    }

    /// Advance by one frame's delta.  Returns whether a full period was
    /// crossed; the remainder past the period is kept for the next frame.
    pub fn tick(&mut self, delta_micros: u64) -> (fired: bool)
        requires
            old(self).wf(),
            delta_micros <= TIME_LIMIT_MICROS,
        ensures
            final(self).wf(),
            final(self).period_micros == old(self).period_micros,
            fired == (old(self).elapsed_micros + delta_micros >= old(self).period_micros),
            final(self).elapsed_micros == (old(self).elapsed_micros + delta_micros) % (
            old(self).period_micros as int),
    {
        let total = self.elapsed_micros + delta_micros;
        if total >= self.period_micros {
            self.elapsed_micros = total % self.period_micros;
            true
        } else {
            proof {
                vstd::arithmetic::div_mod::lemma_small_mod(
                    total as nat,
                    old(self).period_micros as nat,
                );
            }
            self.elapsed_micros = total;
            false
        }
    }
}

/// The level's fail countdown: it absorbs elapsed wall-clock time and,
/// once the configured limit is fully consumed, signals game-over.
#[derive(Clone, Copy, Debug, PartialEq, Eq, Structural)]
pub struct CountdownTimer {
    pub limit_micros: u64,
    pub elapsed_micros: u64,
}

impl CountdownTimer {
    pub open spec fn wf(self) -> bool {
        self.limit_micros <= TIME_LIMIT_MICROS && self.elapsed_micros <= self.limit_micros
    }

    pub open spec fn spec_finished(self) -> bool {
        self.elapsed_micros >= self.limit_micros
    }

    pub fn new(limit_micros: u64) -> (t: CountdownTimer)
        requires
            limit_micros <= TIME_LIMIT_MICROS,
        ensures
            t == (CountdownTimer { limit_micros, elapsed_micros: 0 }),
            t.wf(),
    {
        CountdownTimer { limit_micros, elapsed_micros: 0 }
    }

    /// Advance by one frame's delta, saturating at the limit.  Returns
    /// whether the countdown has now run out.
    pub fn tick(&mut self, delta_micros: u64) -> (finished: bool)
        requires
            old(self).wf(),
            delta_micros <= TIME_LIMIT_MICROS,
        ensures
            final(self).wf(),
            final(self).limit_micros == old(self).limit_micros,
            final(self).elapsed_micros == (if old(self).elapsed_micros + delta_micros
                <= old(self).limit_micros {
                old(self).elapsed_micros + delta_micros
            } else {
                old(self).limit_micros as int
            }),
            finished == final(self).spec_finished(),
    {
        let total = self.elapsed_micros + delta_micros;
        if total <= self.limit_micros {
            self.elapsed_micros = total;
        } else {
            self.elapsed_micros = self.limit_micros;
        }
        self.elapsed_micros >= self.limit_micros
    }

    /// Whole seconds left on the clock, as shown on the HUD.
    pub fn remaining_secs(&self) -> (s: u64)
        requires
            self.wf(),
        ensures
            s == (self.limit_micros - self.elapsed_micros) / 1_000_000,
    {
        (self.limit_micros - self.elapsed_micros) / 1_000_000
    }
}

} // verus!
