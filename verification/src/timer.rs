//! Repeating timers: a period of time that starts over whenever it
//! completes.

use vstd::prelude::*;
use crate::motion::NANOS_PER_SEC;

verus! {

/// A repeating timer. It holds the nanoseconds that have passed since its
/// period last started over, and how often the period completed during the
/// latest tick.
#[derive(Clone, Copy, Debug, PartialEq, Eq, Structural)]
pub struct Timer {
    pub elapsed: u64,
    pub period: u64,
    pub times_finished: u64,
}

impl Timer {
    /// The period is not empty and has not run out.
    pub open spec fn wf(self) -> bool {
        0 < self.period && self.elapsed < self.period
    }

    /// How often the period completes when `delta` nanoseconds pass.
    pub open spec fn fires(self, delta: u64) -> int {
        (self.elapsed + delta) / (self.period as int)
    }

    /// The timer after `delta` nanoseconds have passed.
    pub open spec fn after(self, delta: u64) -> Timer {
        Timer {
            elapsed: ((self.elapsed + delta) % (self.period as int)) as u64,
            period: self.period,
            times_finished: self.fires(delta) as u64,
        }
    }

    /// The whole seconds that have passed since the period last started
    /// over.
    pub open spec fn seconds(self) -> int {
        self.elapsed as int / NANOS_PER_SEC as int
    }

    /// A timer at the start of its period.
    pub fn new(period: u64) -> (timer: Timer)
        requires
            0 < period,
        ensures
            timer == (Timer { elapsed: 0, period, times_finished: 0 }),
            timer.wf(),
    {
        Timer { elapsed: 0, period, times_finished: 0 }
    }

    /// Tests the timer's well-formedness.
    pub fn is_valid(&self) -> (ok: bool)
        ensures
            ok == self.wf(),
    {
        0 < self.period && self.elapsed < self.period
    }

    /// Lets `delta` nanoseconds pass and returns how often the period
    /// completed meanwhile. What is left of `delta` after the last
    /// completion counts towards the next one.
    pub fn tick(&mut self, delta: u64) -> (fired: u64)
        requires
            old(self).wf(),
        ensures
            *final(self) == old(self).after(delta),
            fired == old(self).fires(delta),
            fired <= delta,
            final(self).wf(),
    {
        let total: u128 = (self.elapsed as u128) + (delta as u128);
        let period: u128 = self.period as u128;
        let fired: u128 = total / period;
        let rest: u128 = total % period;
        assert(fired <= delta) by (nonlinear_arith)
            requires
                fired == total / period,
                0 < period,
                total <= period - 1 + delta,
                0 <= delta,
        ;
        self.elapsed = rest as u64;
        self.times_finished = fired as u64;
        fired as u64
    }

    /// Whether the period completed during the latest tick.
    pub fn just_finished(&self) -> (done: bool)
        ensures
            done == (self.times_finished > 0),
    {
        self.times_finished > 0
    }

    /// The whole seconds that have passed since the period last started
    /// over.
    pub fn elapsed_secs(&self) -> (secs: u64)
        ensures
            secs == self.seconds(),
    {
        self.elapsed / NANOS_PER_SEC
    }
}

/// The period completes `times` times in a tick exactly when the time on
/// the timer and the tick's time together hold `times` periods and not one
/// more; what is over stays on the timer.
pub proof fn lemma_fires(timer: Timer, delta: u64, times: int)
    requires
        timer.wf(),
        times * timer.period <= timer.elapsed + delta < (times + 1) * timer.period,
    ensures
        timer.fires(delta) == times,
        timer.after(delta).elapsed == timer.elapsed + delta - times * timer.period,
{
    let p = timer.period as int;
    let x = timer.elapsed + delta;
    assert(x / p == times && x % p == x - times * p) by (nonlinear_arith)
        requires
            0 < p,
            times * p <= x < (times + 1) * p,
    ;
    assert(times <= delta) by (nonlinear_arith)
        requires
            0 < p,
            times * p <= x,
            x < p + delta,
            0 <= delta,
    ;
}

/// However a span of time is cut into two ticks, the period completes as
/// often as in one tick over the whole span, and the timer ends with the
/// same time on it.
pub proof fn lemma_tick_split(timer: Timer, first: u64, second: u64)
    requires
        timer.wf(),
        first + second <= u64::MAX,
    ensures
        timer.fires(first) + timer.after(first).fires(second) == timer.fires(
            (first + second) as u64,
        ),
        timer.after(first).after(second).elapsed == timer.after((first + second) as u64).elapsed,
        timer.after(first).wf(),
{
    let p = timer.period as int;
    let x = timer.elapsed + first;
    let b = second as int;
    assert(x / p + (x % p + b) / p == (x + b) / p && (x % p + b) % p == (x + b) % p && 0 <= x % p
        < p && 0 <= x / p <= x) by (nonlinear_arith)
        requires
            0 < p,
            0 <= x,
            0 <= b,
    ;
}

} // verus!
