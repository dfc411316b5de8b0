//! Scheduling rules: the per-iteration cadence decisions of the sampling
//! loop, the phase machine that stops only at an iteration boundary, and the
//! cancellation handle polled once per iteration.

use vstd::prelude::*;

use crate::clock::diff_or_zero;
use crate::clock::Stopwatch;
use crate::clock::Timer;
use crate::clock::TimerStopwatch;

verus! {

/// Where the scheduling loop stands: not yet started, looping, or done.
#[derive(Clone, Copy, Debug, PartialEq, Eq, Structural)]
pub enum Phase {
    /// Before the loop is entered.
    Idle,
    /// In the loop: each iteration works, pauses, then polls cancellation.
    Running,
    /// After cancellation was observed at an iteration boundary.
    Stopped,
}

/// Drives work at a fixed cadence: each iteration is timed by the embedded
/// stopwatch, and the pause after the work is the interval less the work's
/// own duration — so a period is the interval when the work fits, and the
/// work time itself on overrun, never made up later.
#[derive(Clone)]
pub struct Scheduler {
    /// The target start-to-start period, in nanoseconds; fixed configuration.
    pub interval: u64,
    /// Times each iteration from its start.
    pub stopwatch: TimerStopwatch,
    /// Where the loop stands.
    pub phase: Phase,
}

impl Scheduler {
    /// A scheduler for the given cadence, not yet started.
    pub fn new<T: Timer>(interval: u64, timer: &T) -> (s: Scheduler)
        ensures
            s.interval == interval,
            s.phase == Phase::Idle,
            timer.can_read(s.stopwatch.t0),
    {
        Scheduler { interval, stopwatch: TimerStopwatch::new(timer), phase: Phase::Idle }
    }

    /// Enter the loop.
    pub fn start(&mut self)
        requires
            old(self).phase == Phase::Idle,
        ensures
            final(self).phase == Phase::Running,
            final(self).interval == old(self).interval,
            final(self).stopwatch == old(self).stopwatch,
    {
        self.phase = Phase::Running;
    }

    /// True while the loop should go on: the only phase in which an
    /// iteration may begin.
    pub fn is_running(&self) -> (b: bool)
        ensures
            b <==> self.phase == Phase::Running,
    {
        match self.phase {
            Phase::Running => true,
            _ => false,
        }
    }

    /// Mark the start of an iteration: the stopwatch restarts at the
    /// timer's current reading. Only a running loop may begin one.
    pub fn begin_tick<T: Timer>(&mut self, timer: &T)
        requires
            old(self).phase == Phase::Running,
        ensures
            final(self).phase == Phase::Running,
            final(self).interval == old(self).interval,
            timer.can_read(final(self).stopwatch.t0),
    {
        self.stopwatch.reset(timer);
    }

    /// The compensating pause owed after the iteration's work: the interval
    /// less the time this iteration has taken, and zero on overrun — an
    /// overrun lengthens that one period only, it is never caught up.
    pub fn pause_needed<T: Timer>(&self, timer: &T) -> (p: u64)
        ensures
            exists|r: u64|
                #[trigger] timer.can_read(r) && p == diff_or_zero(
                    self.interval,
                    diff_or_zero(r, self.stopwatch.t0),
                ),
            p <= self.interval,
    {
        let elapsed_tick = self.stopwatch.elapsed(timer);
        if elapsed_tick < self.interval {
            self.interval - elapsed_tick
        } else {
            0
        }
    }

    /// Poll the cancellation decision at the iteration boundary: the loop
    /// stops exactly when a stop was requested, and only here — never
    /// mid-work and never mid-pause.
    pub fn observe_cancellation(&mut self, stop: bool)
        requires
            old(self).phase == Phase::Running,
        ensures
            final(self).phase == (if stop {
                Phase::Stopped
            } else {
                Phase::Running
            }),
            final(self).interval == old(self).interval,
            final(self).stopwatch == old(self).stopwatch,
    {
        if stop {
            self.phase = Phase::Stopped;
        }
    }
}

/// Law: one start-to-start period is the work time plus the compensating
/// pause — exactly the interval when the work fits within it, and exactly
/// the work time on overrun.
pub proof fn lemma_period(interval: u64, elapsed: u64)
    ensures
        elapsed <= interval ==> elapsed + diff_or_zero(interval, elapsed) == interval,
        elapsed >= interval ==> elapsed + diff_or_zero(interval, elapsed) == elapsed,
{
}

/// A shared cancellation handle: one boolean flag with sequentially
/// consistent loads and stores, so an interrupt context can request
/// termination without blocking while the scheduling loop polls it.
#[derive(Clone)]
pub struct CancelFlag {
    inner: std::sync::Arc<core::sync::atomic::AtomicBool>,
}

impl CancelFlag {
    /// A fresh handle with no stop requested yet.
    pub fn new() -> (f: CancelFlag) {
        CancelFlag {
            inner: std::sync::Arc::new(core::sync::atomic::AtomicBool::new(false)),
        }
    }

    /// Request termination. Idempotent: further stores leave the flag set.
    pub fn request_stop(&self) {
        self.inner.store(true, core::sync::atomic::Ordering::SeqCst);
    }

    /// Poll the flag. Another context may write concurrently, so no more is
    /// claimed of the result than that it is the flag's current value.
    pub fn should_stop(&self) -> bool {
        self.inner.load(core::sync::atomic::Ordering::SeqCst)
    }
}

} // verus!
