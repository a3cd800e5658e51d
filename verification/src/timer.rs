//! A repeating frame timer, counted in whole nanoseconds.

use bevy::time::{Timer, TimerMode};
use std::time::Duration;
use vstd::prelude::*;

verus! {

/// A repeating timer: it gathers elapsed time and fires each time a full
/// period has gone by, keeping the remainder.
#[derive(Clone, Copy, Debug, PartialEq, Eq, Structural)]
pub struct FrameTimer {
    /// Length of one period, in nanoseconds.
    pub period_nanos: u64,
    /// Time gathered since the last period ended, in nanoseconds.
    pub elapsed_nanos: u64,
    /// Whether the latest tick reached the end of a period.
    pub finished: bool,
    /// How many periods ended during the latest tick, counted in 32 bits.
    pub times_finished: u32,
}

impl FrameTimer {
    /// The timer with nothing gathered and nothing fired.
    pub open spec fn cleared(self) -> FrameTimer {
        FrameTimer {
            period_nanos: self.period_nanos,
            elapsed_nanos: 0,
            finished: false,
            times_finished: 0,
        }
    }

    /// The timer after `delta_nanos` more nanoseconds. It fires exactly when
    /// the gathered time reaches the period. The gathered time then wraps
    /// around the period. The count of ended periods is kept in 32 bits, so
    /// it can read zero on a tick that fired; a period of zero counts
    /// `u32::MAX` on every tick.
    pub open spec fn ticked(self, delta_nanos: u64) -> FrameTimer {
        FrameTimer {
            period_nanos: self.period_nanos,
            elapsed_nanos: wrapped_elapsed(self.period_nanos, self.elapsed_nanos, delta_nanos),
            finished: period_reached(self.period_nanos, self.elapsed_nanos, delta_nanos),
            times_finished: periods_ended(self.period_nanos, self.elapsed_nanos, delta_nanos),
        }
    }

    /// Whether the latest tick reached the end of a period.
    pub open spec fn fired(self) -> bool {
        self.finished
    }

    /// A fresh timer of the given period.
    pub fn new(period_nanos: u64) -> (timer: FrameTimer)
        ensures
            timer == (FrameTimer {
                period_nanos,
                elapsed_nanos: 0,
                finished: false,
                times_finished: 0,
            }),
    {
        FrameTimer { period_nanos, elapsed_nanos: 0, finished: false, times_finished: 0 }
    }

    /// Forgets the gathered time and the latest firing.
    pub fn reset(&mut self)
        ensures
            *final(self) == old(self).cleared(),
    {
        self.elapsed_nanos = 0;
        self.finished = false;
        self.times_finished = 0;
    }

    /// Advances the timer by `delta_nanos`.
    pub fn tick(&mut self, delta_nanos: u64)
        ensures
            *final(self) == old(self).ticked(delta_nanos),
    {
        let (elapsed, finished, times) = tick_repeating(
            self.period_nanos,
            self.elapsed_nanos,
            delta_nanos,
        );
        self.elapsed_nanos = elapsed;
        self.finished = finished;
        self.times_finished = times;
    }

    /// Whether the latest tick reached the end of a period.
    pub fn is_finished(&self) -> (fired: bool)
        ensures
            fired == self.fired(),
    {
        self.finished
    }
}

/// Whether adding `delta` nanoseconds to `elapsed` reaches the period.
pub open spec fn period_reached(period: u64, elapsed: u64, delta: u64) -> bool {
    elapsed + delta >= period
}

/// Time left over once `delta` nanoseconds were added to `elapsed` and every
/// full period was taken out.
pub open spec fn wrapped_elapsed(period: u64, elapsed: u64, delta: u64) -> u64 {
    if period == 0 {
        0
    } else {
        ((elapsed + delta) % (period as int)) as u64
    }
}

/// Number of periods that end when `delta` nanoseconds are added to
/// `elapsed`, as a 32-bit count.
pub open spec fn periods_ended(period: u64, elapsed: u64, delta: u64) -> u32 {
    if period == 0 {
        u32::MAX
    } else {
        (((elapsed + delta) / (period as int)) % 0x1_0000_0000) as u32
    }
}

/// One `bevy::time::Timer::tick` of a repeating, unpaused timer that has the
/// given period and elapsed time. Trusted: the result is what the engine's
/// timer reports afterwards as `elapsed`, `is_finished` and
/// `times_finished_this_tick`. Its source sets `is_finished` by comparing the
/// summed time with the period, and computes the other two as the remainder
/// and the quotient, cut to 32 bits, of the summed time by the period, and as
/// zero elapsed and `u32::MAX` for a period of zero.
#[verifier::external_body]
fn tick_repeating(period_nanos: u64, elapsed_nanos: u64, delta_nanos: u64) -> (after: (
    u64,
    bool,
    u32,
))
    ensures
        after.0 == wrapped_elapsed(period_nanos, elapsed_nanos, delta_nanos),
        after.1 == period_reached(period_nanos, elapsed_nanos, delta_nanos),
        after.2 == periods_ended(period_nanos, elapsed_nanos, delta_nanos),
{
    let mut timer = Timer::new(Duration::from_nanos(period_nanos), TimerMode::Repeating);
    timer.set_elapsed(Duration::from_nanos(elapsed_nanos));
    timer.tick(Duration::from_nanos(delta_nanos));
    (timer.elapsed().as_nanos() as u64, timer.is_finished(), timer.times_finished_this_tick())
}

} // verus!
