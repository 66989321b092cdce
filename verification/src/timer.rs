//! Repeating countdowns that pace the creation of astroids and coins.

use bevy::time::{Timer, TimerMode};
use std::time::Duration;
use vstd::arithmetic::div_mod::{lemma_fundamental_div_mod_converse, lemma_small_mod};
use vstd::prelude::*;

verus! {

/// Elapsed time of a repeating countdown of length `interval` after it has
/// advanced by `dt` from `elapsed`: whole periods are dropped.
pub open spec fn elapsed_after_tick(interval: nat, elapsed: nat, dt: nat) -> nat {
    if elapsed + dt < interval {
        elapsed + dt
    } else if interval == 0 {
        0
    } else {
        (elapsed + dt) % interval
    }
}

/// Whether a repeating countdown of length `interval` reaches its end while
/// advancing by `dt` from `elapsed`.
pub open spec fn fires_on_tick(interval: nat, elapsed: nat, dt: nat) -> bool {
    elapsed + dt >= interval
}

/// Advances a repeating `bevy::time::Timer` of the given duration, set to the
/// given elapsed time, by one `tick`, and reads back its elapsed time and its
/// `finished` flag. All times are in microseconds.
///
/// The contract restates what `Timer::tick` does in `TimerMode::Repeating`:
/// the elapsed time grows by the step; once it reaches the duration the timer
/// is finished for this tick and keeps only the remainder modulo the
/// duration (zero for a zero duration).
#[verifier::external_body]
fn tick_repeating(interval: u32, elapsed: u32, dt: u32) -> (r: (u32, bool))
    ensures
        r.0 == elapsed_after_tick(interval as nat, elapsed as nat, dt as nat),
        r.1 == fires_on_tick(interval as nat, elapsed as nat, dt as nat),
{
    let mut timer = Timer::new(Duration::from_micros(interval as u64), TimerMode::Repeating);
    timer.set_elapsed(Duration::from_micros(elapsed as u64));
    timer.tick(Duration::from_micros(dt as u64));
    (timer.elapsed().as_micros() as u32, timer.finished())
}

/// A repeating countdown. It never stops: each time the elapsed time reaches
/// the interval it fires once and starts over with what is left.
#[derive(Clone, Copy, Debug, PartialEq, Eq, Structural)]
pub struct SpawnTimer {
    /// Length of one period, in microseconds.
    pub interval: u32,
    /// Time accumulated in the current period, in microseconds.
    pub elapsed: u32,
    /// Whether the most recent tick completed a period.
    pub finished: bool,
}

impl SpawnTimer {
    /// The timer at rest with the given interval: nothing elapsed, not
    /// finished.
    pub open spec fn at_rest(interval: u32) -> SpawnTimer {
        SpawnTimer { interval, elapsed: 0, finished: false }
    }

    /// The timer as it is after a tick of `dt` microseconds.
    pub open spec fn ticked(self, dt: u32) -> SpawnTimer {
        SpawnTimer {
            interval: self.interval,
            elapsed: elapsed_after_tick(
                self.interval as nat,
                self.elapsed as nat,
                dt as nat,
            ) as u32,
            finished: fires_on_tick(self.interval as nat, self.elapsed as nat, dt as nat),
        }
    }

    /// The timer after the given ticks, applied in order.
    pub open spec fn ticked_all(self, steps: Seq<u32>) -> SpawnTimer
        decreases steps.len(),
    {
        if steps.len() == 0 {
            self
        } else {
            self.ticked_all(steps.drop_last()).ticked(steps.last())
        }
    }

    /// How many of the given ticks, applied in order, leave the timer
    /// finished.
    pub open spec fn fire_count(self, steps: Seq<u32>) -> nat
        decreases steps.len(),
    {
        if steps.len() == 0 {
            0
        } else {
            let before = self.fire_count(steps.drop_last());
            if self.ticked_all(steps).finished {
                before + 1
            } else {
                before
            }
        }
    }

    /// A timer at rest.
    pub fn new(interval: u32) -> (t: SpawnTimer)
        ensures
            t == SpawnTimer::at_rest(interval),
    {
        SpawnTimer { interval, elapsed: 0, finished: false }
    }

    /// Advances the timer by `dt` microseconds. However many periods the step
    /// spans, the timer fires at most once, and what is left of the step
    /// beyond whole periods stays on the clock.
    pub fn tick(&mut self, dt: u32)
        ensures
            *final(self) == old(self).ticked(dt),
    {
        let (elapsed, finished) = tick_repeating(self.interval, self.elapsed, dt);
        self.elapsed = elapsed;
        self.finished = finished;
    }

    /// Whether the most recent tick completed a period.
    pub fn finished(&self) -> (b: bool)
        ensures
            b == self.finished,
    {
        self.finished
    }

    /// Puts the timer back to rest, keeping its interval.
    pub fn reset(&mut self)
        ensures
            *final(self) == SpawnTimer::at_rest(old(self).interval),
    {
        self.elapsed = 0;
        self.finished = false;
    }
}

/// Sum of the given time steps.
pub open spec fn total_time(steps: Seq<u32>) -> nat
    decreases steps.len(),
{
    if steps.len() == 0 {
        0
    } else {
        total_time(steps.drop_last()) + steps.last() as nat
    }
}

/// One tick that is no longer than the period moves the count of completed
/// periods up by one exactly when the timer fires.
proof fn lemma_tick_carries(interval: nat, sum: nat, dt: nat)
    requires
        interval > 0,
        dt <= interval,
    ensures
        elapsed_after_tick(interval, sum % interval, dt) == (sum + dt) % interval,
        (sum + dt) / interval == sum / interval + if fires_on_tick(interval, sum % interval, dt) {
            1nat
        } else {
            0nat
        },
{
    let t = interval as int;
    let s = sum as int;
    let d = dt as int;
    let q = s / t;
    let r = s % t;
    assert(s == q * t + r && 0 <= r < t) by (nonlinear_arith)
        requires
            t > 0,
            q == s / t,
            r == s % t,
    ;
    if r + d < t {
        lemma_fundamental_div_mod_converse(s + d, t, q, r + d);
    } else {
        assert(s + d == (q + 1) * t + (r + d - t)) by (nonlinear_arith)
            requires
                s == q * t + r,
        ;
        lemma_fundamental_div_mod_converse(s + d, t, q + 1, r + d - t);
        lemma_fundamental_div_mod_converse(r + d, t, 1, r + d - t);
    }
}

/// A timer with a positive interval that starts at rest and is ticked in
/// steps no longer than its interval has fired, after any number of steps,
/// once for every whole interval contained in the total time, and carries
/// the remainder. In particular it has not fired while the total is below
/// the interval.
pub proof fn lemma_fires_once_per_interval(interval: u32, steps: Seq<u32>)
    requires
        interval > 0,
        forall|i: int| 0 <= i < steps.len() ==> steps[i] <= interval,
    ensures
        SpawnTimer::at_rest(interval).fire_count(steps) == total_time(steps) / (interval as nat),
        SpawnTimer::at_rest(interval).ticked_all(steps).elapsed == total_time(steps) % (
        interval as nat),
        SpawnTimer::at_rest(interval).ticked_all(steps).interval == interval,
        total_time(steps) < interval ==> SpawnTimer::at_rest(interval).fire_count(steps) == 0,
    decreases steps.len(),
{
    let start = SpawnTimer::at_rest(interval);
    let t = interval as nat;
    if steps.len() == 0 {
        lemma_small_mod(0, t);
        assert(0nat / t == 0) by (nonlinear_arith)
            requires
                t > 0,
        ;
    } else {
        let earlier = steps.drop_last();
        lemma_fires_once_per_interval(interval, earlier);
        let sum = total_time(earlier);
        lemma_tick_carries(t, sum, steps.last() as nat);
        assert(((sum + steps.last()) as int) % (t as int) < t) by (nonlinear_arith)
            requires
                t > 0,
        ;
    }
    if total_time(steps) < interval {
        assert(total_time(steps) / t == 0) by (nonlinear_arith)
            requires
                t > 0,
                total_time(steps) < t,
        ;
    }
}

} // verus!
