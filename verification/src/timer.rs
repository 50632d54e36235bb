use vstd::prelude::*;

verus! {

/// Saturating addition on `u64`, as a mathematical function.
pub open spec fn sat_add(a: u64, b: u64) -> u64 {
    if a + b > u64::MAX {
        u64::MAX
    } else {
        (a + b) as u64
    }
}

/// A count-up timer over whole milliseconds.
///
/// `tick` adds the frame delta to `elapsed_ms`; the timer is finished once
/// `elapsed_ms` has reached `duration_ms`. A zero-duration timer is finished
/// from the start. Elapsed time saturates at `u64::MAX` instead of wrapping.
#[derive(Clone, Copy, Debug, PartialEq, Eq)]
pub struct Timer {
    pub duration_ms: u64,
    pub elapsed_ms: u64,
    pub auto_reset: bool,
}

impl Timer {
    /// A one-shot timer of the given duration that has not started counting.
    pub open spec fn spec_one_shot(duration_ms: u64) -> Timer {
        Timer { duration_ms, elapsed_ms: 0, auto_reset: false }
    }

    /// The timer value after ticking by `delta_ms`.
    pub open spec fn spec_ticked(self, delta_ms: u64) -> Timer {
        Timer { elapsed_ms: sat_add(self.elapsed_ms, delta_ms), ..self }
    }

    /// Finished exactly when the elapsed time has reached the duration.
    pub open spec fn spec_finished(self) -> bool {
        self.elapsed_ms >= self.duration_ms
    }

    /// Milliseconds still to go; zero once finished.
    pub open spec fn spec_remaining_ms(self) -> u64 {
        if self.elapsed_ms >= self.duration_ms {
            0
        } else {
            (self.duration_ms - self.elapsed_ms) as u64
        }
    }

    pub fn new(duration_ms: u64, auto_reset: bool) -> (t: Timer)
        ensures
            t.duration_ms == duration_ms,
            t.elapsed_ms == 0,
            t.auto_reset == auto_reset,
    {
        Timer { duration_ms, elapsed_ms: 0, auto_reset }
    }

    /// Advance the timer by a frame delta.
    pub fn tick(&mut self, delta_ms: u64)
        ensures
            *final(self) == old(self).spec_ticked(delta_ms),
    {
        self.elapsed_ms = self.elapsed_ms.saturating_add(delta_ms);
    }

    pub fn finished(&self) -> (r: bool)
        ensures
            r == self.spec_finished(),
    {
        self.elapsed_ms >= self.duration_ms
    }

    pub fn elapsed(&self) -> (r: u64)
        ensures
            r == self.elapsed_ms,
    {
        self.elapsed_ms
    }

    pub fn duration(&self) -> (r: u64)
        ensures
            r == self.duration_ms,
    {
        self.duration_ms
    }

    pub fn remaining_ms(&self) -> (r: u64)
        ensures
            r == self.spec_remaining_ms(),
    {
        if self.elapsed_ms >= self.duration_ms {
            0
        } else {
            self.duration_ms - self.elapsed_ms
        }
    }

    /// Start the countdown over.
    pub fn reset(&mut self)
        ensures
            *final(self) == (Timer { elapsed_ms: 0, ..*old(self) }),
    {
        self.elapsed_ms = 0;
    }

    pub fn set_duration(&mut self, duration_ms: u64)
        ensures
            *final(self) == (Timer { duration_ms, ..*old(self) }),
    {
        self.duration_ms = duration_ms;
    }

    /// Elapsed fraction in thousandths, capped at `u64::MAX`; a zero-duration
    /// timer counts as fully elapsed.
    pub open spec fn spec_permille_elapsed(self) -> u64 {
        if self.duration_ms == 0 {
            1000
        } else if self.elapsed_ms * 1000 / (self.duration_ms as int) > u64::MAX {
            u64::MAX
        } else {
            (self.elapsed_ms * 1000 / (self.duration_ms as int)) as u64
        }
    }

    pub fn permille_elapsed(&self) -> (r: u64)
        ensures
            r == self.spec_permille_elapsed(),
    {
        if self.duration_ms == 0 {
            1000
        } else {
            let q: u128 = (self.elapsed_ms as u128) * 1000 / (self.duration_ms as u128);
            if q > u64::MAX as u128 {
                u64::MAX
            } else {
                q as u64
            }
        }
    }

    /// Remaining fraction in thousandths, zero once past the duration.
    pub fn permille_left(&self) -> (r: u64)
        ensures
            r == (if self.spec_permille_elapsed() >= 1000 {
                0u64
            } else {
                (1000 - self.spec_permille_elapsed()) as u64
            }),
    {
        let e = self.permille_elapsed();
        if e >= 1000 {
            0
        } else {
            1000 - e
        }
    }
}

/// Ticking is additive: ticking by `a` and then by `b` leaves the timer
/// exactly as one tick by `a + b` would.
pub proof fn lemma_tick_additive(t: Timer, a: u64, b: u64)
    requires
        a + b <= u64::MAX,
    ensures
        t.spec_ticked(a).spec_ticked(b) == t.spec_ticked((a + b) as u64),
{
}

/// A tick finishes a timer exactly when the added delta carries the elapsed
/// time across the duration, and never before; saturation cannot mask a
/// crossing, since a saturated elapsed time is already past any duration.
pub proof fn lemma_finished_boundary(t: Timer, delta_ms: u64)
    ensures
        t.spec_ticked(delta_ms).spec_finished() <==> t.elapsed_ms + delta_ms >= t.duration_ms,
{
}

} // verus!
