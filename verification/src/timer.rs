//! Interval timers driven by elapsed time in nanoseconds.
//!
//! A timer gathers the time handed to `tick`. On the tick that brings the
//! gathered time up to a whole interval the timer is finished. A repeating
//! timer then keeps only what went beyond the last whole interval, so no time
//! is lost or counted twice; a timer that runs once stays finished.

use vstd::prelude::*;
use vstd::arithmetic::div_mod::{lemma_fundamental_div_mod, lemma_mod_bound};

verus! {

/// Whether a timer stops after its first interval or starts over.
#[derive(Clone, Copy, Debug, PartialEq, Eq, Structural)]
pub enum TimerMode {
    /// Runs one interval, then stays finished.
    Once,
    /// Starts over each time an interval has passed.
    Repeating,
}

/// A timer over a fixed interval.
#[derive(Clone, Copy, Debug, PartialEq, Eq, Structural)]
pub struct Timer {
    /// Length of one interval, in nanoseconds.
    pub interval: u64,
    /// Time gathered since the last whole interval, in nanoseconds.
    pub elapsed: u64,
    pub mode: TimerMode,
    /// Whether the last tick completed an interval (for a timer that runs
    /// once: whether any tick has).
    pub finished: bool,
    /// How many whole intervals the last tick completed.
    pub times_finished_this_tick: u64,
}

impl Timer {
    /// A timer that has gathered no time yet.
    pub open spec fn spec_new(interval: u64, mode: TimerMode) -> Timer {
        Timer { interval, elapsed: 0, mode, finished: false, times_finished_this_tick: 0 }
    }

    /// A repeating timer has a positive interval and has gathered less than
    /// one interval. A timer that runs once has gathered at most its interval,
    /// and exactly its interval once it is finished.
    pub open spec fn spec_is_valid(&self) -> bool {
        match self.mode {
            TimerMode::Repeating => 0 < self.interval && self.elapsed < self.interval,
            TimerMode::Once => self.elapsed <= self.interval && (self.finished ==> self.elapsed
                == self.interval),
        }
    }

    /// The timer after `dt` more nanoseconds.
    pub open spec fn ticked(self, dt: int) -> Timer {
        let total = self.elapsed + dt;
        match self.mode {
            TimerMode::Repeating => Timer {
                elapsed: (total % (self.interval as int)) as u64,
                finished: total >= self.interval,
                times_finished_this_tick: (total / (self.interval as int)) as u64,
                ..self
            },
            TimerMode::Once => if self.finished {
                Timer { times_finished_this_tick: 0, ..self }
            } else if total >= self.interval {
                Timer {
                    elapsed: self.interval,
                    finished: true,
                    times_finished_this_tick: 1,
                    ..self
                }
            } else {
                Timer {
                    elapsed: total as u64,
                    finished: false,
                    times_finished_this_tick: 0,
                    ..self
                }
            },
        }
    }

    /// Starts a timer over `interval` nanoseconds.
    pub fn new(interval: u64, mode: TimerMode) -> (timer: Timer)
        ensures
            timer == Timer::spec_new(interval, mode),
            (mode == TimerMode::Once || interval > 0) ==> timer.is_valid(),
    {
        Timer { interval, elapsed: 0, mode, finished: false, times_finished_this_tick: 0 }
    }

    /// Tells whether the timer is valid.
    #[verifier::when_used_as_spec(spec_is_valid)]
    pub fn is_valid(&self) -> (b: bool)
        ensures
            b == self.spec_is_valid(),
    {
        match self.mode {
            TimerMode::Repeating => 0 < self.interval && self.elapsed < self.interval,
            TimerMode::Once => self.elapsed <= self.interval && (!self.finished || self.elapsed
                == self.interval),
        }
    }

    /// Advances the timer by `dt` nanoseconds.
    pub fn tick(&mut self, dt: u64)
        requires
            old(self).is_valid(),
        ensures
            *final(self) == old(self).ticked(dt as int),
            final(self).is_valid(),
    {
        let total: u128 = self.elapsed as u128 + dt as u128;
        match self.mode {
            TimerMode::Repeating => {
                let every: u128 = self.interval as u128;
                let times: u128 = total / every;
                let rest: u128 = total % every;
                proof {
                    lemma_fundamental_div_mod(total as int, every as int);
                    lemma_mod_bound(total as int, every as int);
                    assert(times <= dt) by (nonlinear_arith)
                        requires
                            total == every * times + rest,
                            total < every + dt,
                            0 <= rest,
                            0 < every,
                            0 <= times,
                    ;
                }
                self.elapsed = rest as u64;
                self.finished = total >= every;
                self.times_finished_this_tick = times as u64;
            },
            TimerMode::Once => {
                if self.finished {
                    self.times_finished_this_tick = 0;
                } else if total >= self.interval as u128 {
                    self.elapsed = self.interval;
                    self.finished = true;
                    self.times_finished_this_tick = 1;
                } else {
                    self.elapsed = total as u64;
                    self.finished = false;
                    self.times_finished_this_tick = 0;
                }
            },
        }
    }

    /// Whether the timer is finished: for a repeating timer, whether the
    /// last tick completed an interval; for a timer that runs once, whether
    /// any tick has.
    pub fn finished(&self) -> (done: bool)
        ensures
            done == self.finished,
    {
        self.finished
    }

    /// Whether the last tick completed an interval.
    pub fn just_finished(&self) -> (done: bool)
        ensures
            done == (self.times_finished_this_tick > 0),
    {
        self.times_finished_this_tick > 0
    }
}

/// A repeating timer neither loses nor invents time: what it had gathered,
/// plus the time of the tick, is the whole intervals that the tick completed
/// plus what the timer keeps. It is finished exactly when the tick completed an
/// interval.
pub proof fn lemma_repeating_tick_conserves_time(timer: Timer, dt: u64)
    requires
        timer.is_valid(),
        timer.mode == TimerMode::Repeating,
    ensures
        timer.elapsed + dt == timer.ticked(dt as int).times_finished_this_tick * timer.interval
            + timer.ticked(dt as int).elapsed,
        timer.ticked(dt as int).elapsed < timer.interval,
        timer.ticked(dt as int).finished == (timer.ticked(dt as int).times_finished_this_tick
            > 0),
{
    let total = timer.elapsed + dt;
    let every = timer.interval as int;
    lemma_fundamental_div_mod(total, every);
    lemma_mod_bound(total, every);
    let times = total / every;
    let rest = total % every;
    assert(0 <= times <= dt) by (nonlinear_arith)
        requires
            total == every * times + rest,
            total < every + dt,
            0 <= total,
            0 <= rest < every,
            0 < every,
    ;
    assert(every * times == times * every) by (nonlinear_arith);
    assert((times > 0) == (total >= every)) by (nonlinear_arith)
        requires
            total == every * times + rest,
            0 <= rest < every,
            0 < every,
            0 <= times,
    ;
}

/// A timer that runs once stays finished: no later tick changes what it has
/// gathered or makes it unfinished.
pub proof fn lemma_once_stays_finished(timer: Timer, dt: u64)
    requires
        timer.is_valid(),
        timer.mode == TimerMode::Once,
        timer.finished,
    ensures
        timer.ticked(dt as int).finished,
        timer.ticked(dt as int).elapsed == timer.elapsed,
{
}

} // verus!
