//! Time abstraction: a `Timer` capability reporting elapsed nanoseconds since
//! a reference instant, a real clock backed by the system time, a manually
//! advanced clock for deterministic use, and a stopwatch built on either.

use vstd::prelude::*;

verus! {

/// `a - b`, clamped at zero: the difference of two durations never goes
/// negative, whichever way a clock misbehaves.
pub open spec fn diff_or_zero(a: u64, b: u64) -> u64 {
    if a >= b {
        (a - b) as u64
    } else {
        0
    }
}

/// Executable twin of [`diff_or_zero`].
fn duration_sub(a: u64, b: u64) -> (r: u64)
    ensures
        r == diff_or_zero(a, b),
{
    if a >= b {
        a - b
    } else {
        0
    }
}

/// A capability to report elapsed time, in whole nanoseconds, since a
/// reference instant of the source's own.
///
/// `can_read` says which readings the source can yield right now. A
/// deterministic source pins the reading exactly; the system clock admits
/// any reading, so nothing proved through it depends on what the clock says.
pub trait Timer: Sized {
    /// The readings this source can currently yield.
    spec fn can_read(&self, reading: u64) -> bool;

    /// Elapsed nanoseconds since the source's reference instant.
    fn elapsed(&self) -> (r: u64)
        ensures
            self.can_read(r),
    ;
}

/// A manually advanced time source: reads are pinned to the value that
/// `advance` has accumulated, so everything built on it is deterministic.
#[derive(Clone)]
pub struct ManualTimer {
    /// Nanoseconds accumulated by `advance` so far.
    pub now: u64,
}

impl ManualTimer {
    /// A fresh source whose reading starts at zero.
    pub fn new() -> (t: ManualTimer)
        ensures
            t.now == 0,
    {
        ManualTimer { now: 0 }
    }

    /// Move the clock forward by `d` nanoseconds.
    pub fn advance(&mut self, d: u64)
        requires
            old(self).now + d <= u64::MAX,
        ensures
            final(self).now == old(self).now + d,
    {
        self.now = self.now + d;
    }
}

impl Timer for ManualTimer {
    open spec fn can_read(&self, reading: u64) -> bool {
        reading == self.now
    }

    fn elapsed(&self) -> (r: u64) {
        self.now
    }
}

/// The system clock declared for Verus: values of it are carried through
/// opaquely, never inspected by verified code.
#[verifier::external_type_specification]
#[verifier::external_body]
pub struct ExSystemTime(std::time::SystemTime);

/// Relies on `std::time::SystemTime` being `Copy`: its `clone` returns the
/// same instant.
pub assume_specification[ <std::time::SystemTime as std::clone::Clone>::clone ](
    t: &std::time::SystemTime,
) -> (r: std::time::SystemTime)
    ensures
        r == *t,
;

/// Relies on `std::time::SystemTime::now` for the reference instant of a
/// [`SystemTimer`]. The instant depends on the machine's clock, so nothing
/// is claimed of it.
#[verifier::external_body]
fn system_time_now() -> std::time::SystemTime {
    std::time::SystemTime::now()
}

/// Relies on `std::time::SystemTime::elapsed`: `Some` of the whole
/// nanoseconds since `t0` (saturating at `u64::MAX`), or `None` when the
/// clock has moved backwards past `t0`. The result depends on the machine's
/// clock, so nothing is claimed of it.
#[verifier::external_body]
fn nanos_since(t0: &std::time::SystemTime) -> Option<u64> {
    match t0.elapsed() {
        Ok(d) => Some(u64::try_from(d.as_nanos()).unwrap_or(u64::MAX)),
        Err(_) => None,
    }
}

/// A time source backed by the system clock, measuring from the instant the
/// source was created. A clock fault degrades to a zero reading; it is never
/// surfaced as an error.
#[derive(Clone)]
pub struct SystemTimer {
    t0: std::time::SystemTime,
}

impl SystemTimer {
    /// A source whose reference instant is now.
    pub fn new() -> SystemTimer {
        SystemTimer { t0: system_time_now() }
    }
}

impl Timer for SystemTimer {
    /// The system clock can yield any reading: proofs built on this source
    /// hold whatever it says.
    open spec fn can_read(&self, reading: u64) -> bool {
        true
    }

    fn elapsed(&self) -> (r: u64) {
        match nanos_since(&self.t0) {
            Some(n) => n,
            None => 0,
        }
    }
}

/// Elapsed-time measurement since the holder's own last reset, built on any
/// [`Timer`].
pub trait Stopwatch: Sized {
    /// The timer reading captured at the last reset.
    spec fn baseline(&self) -> u64;

    /// Capture the timer's current reading as the new baseline.
    fn reset<T: Timer>(&mut self, timer: &T)
        ensures
            timer.can_read(final(self).baseline()),
    ;

    /// Nanoseconds since the last reset, clamped at zero if the timer has
    /// gone backwards past the baseline.
    fn elapsed<T: Timer>(&self, timer: &T) -> (d: u64)
        ensures
            exists|r: u64|
                #[trigger] timer.can_read(r) && d == diff_or_zero(r, self.baseline()),
    ;

    /// Return the elapsed time, then reset, both against one reading.
    fn restart<T: Timer>(&mut self, timer: &T) -> (d: u64)
        ensures
            exists|r: u64|
                #[trigger] timer.can_read(r) && d == diff_or_zero(r, old(self).baseline())
                    && final(self).baseline() == r,
    ;
}

/// The one stopwatch of this library: it stores the timer reading captured
/// at the last reset and derives elapsed time from the current reading.
#[derive(Clone)]
pub struct TimerStopwatch {
    /// The reading captured at the last reset.
    pub t0: u64,
}

impl TimerStopwatch {
    /// A stopwatch reset against the timer's current reading.
    pub fn new<T: Timer>(timer: &T) -> (sw: TimerStopwatch)
        ensures
            timer.can_read(sw.t0),
    {
        let t0 = timer.elapsed();
        TimerStopwatch { t0 }
    }
}

impl Stopwatch for TimerStopwatch {
    open spec fn baseline(&self) -> u64 {
        self.t0
    }

    fn reset<T: Timer>(&mut self, timer: &T) {
        self.t0 = timer.elapsed();
    }

    fn elapsed<T: Timer>(&self, timer: &T) -> (d: u64) {
        let r = timer.elapsed();
        duration_sub(r, self.t0)
    }

    fn restart<T: Timer>(&mut self, timer: &T) -> (d: u64) {
        let r = timer.elapsed();
        let d = duration_sub(r, self.t0);
        self.t0 = r;
        d
    }
}

/// A renewable timeout budget (an hourglass). `capacity` is the fixed total
/// budget, `timeout` the currently active target; the remaining budget is
/// `timeout` minus the embedded stopwatch's elapsed time, clamped at zero.
///
/// `flip` carries unused budget over: flipped early, the next window shrinks
/// by what was still left, phase-locking the schedule to its original
/// reference; flipped at or after expiry, the full capacity is restored.
#[derive(Clone)]
pub struct Hourglass {
    /// Measures the time drained from the active window.
    pub stopwatch: TimerStopwatch,
    /// The fixed total budget, set at construction.
    pub capacity: u64,
    /// The currently active budget target.
    pub timeout: u64,
}

impl Hourglass {
    /// The budget that would remain if the timer read `reading`: the active
    /// target minus the drained time, never negative.
    pub open spec fn left_at(&self, reading: u64) -> u64 {
        diff_or_zero(self.timeout, diff_or_zero(reading, self.stopwatch.t0))
    }

    /// The state after a flip performed at `reading`: the window restarts
    /// there, and the new target is the capacity less the unused budget.
    pub open spec fn flipped_at(&self, reading: u64) -> Hourglass {
        Hourglass {
            stopwatch: TimerStopwatch { t0: reading },
            capacity: self.capacity,
            timeout: diff_or_zero(self.capacity, self.left_at(reading)),
        }
    }

    /// A fresh hourglass with the full budget active and its stopwatch
    /// reset against the timer's current reading.
    pub fn new<T: Timer>(capacity: u64, timer: &T) -> (h: Hourglass)
        ensures
            h.capacity == capacity,
            h.timeout == capacity,
            timer.can_read(h.stopwatch.t0),
    {
        Hourglass { stopwatch: TimerStopwatch::new(timer), capacity, timeout: capacity }
    }

    /// Restore the full budget: the target returns to `capacity` and the
    /// window restarts at the timer's current reading.
    pub fn renew<T: Timer>(&mut self, timer: &T)
        ensures
            final(self).capacity == old(self).capacity,
            final(self).timeout == old(self).capacity,
            timer.can_read(final(self).stopwatch.t0),
    {
        self.timeout = self.capacity;
        self.stopwatch.reset(timer)
    }

    /// Start the next window, carrying unused budget over: returns what was
    /// left, and the new target is `capacity` less that amount — the full
    /// capacity again exactly when the old window had expired.
    pub fn flip<T: Timer>(&mut self, timer: &T) -> (left: u64)
        ensures
            exists|r: u64|
                #[trigger] timer.can_read(r) && left == old(self).left_at(r) && *final(self)
                    == old(self).flipped_at(r),
    {
        let r = timer.elapsed();
        let left = duration_sub(self.timeout, duration_sub(r, self.stopwatch.t0));
        self.timeout = duration_sub(self.capacity, left);
        self.stopwatch.t0 = r;
        left
    }

    /// Extend the active window in place by `extra`, touching neither the
    /// capacity nor the stopwatch.
    pub fn delay(&mut self, extra: u64)
        requires
            old(self).timeout + extra <= u64::MAX,
        ensures
            final(self).timeout == old(self).timeout + extra,
            final(self).capacity == old(self).capacity,
            final(self).stopwatch == old(self).stopwatch,
    {
        self.timeout = self.timeout + extra;
    }

    /// Time drained from the active window so far.
    pub fn elapsed<T: Timer>(&self, timer: &T) -> (d: u64)
        ensures
            exists|r: u64|
                #[trigger] timer.can_read(r) && d == diff_or_zero(r, self.stopwatch.t0),
    {
        self.stopwatch.elapsed(timer)
    }

    /// The remaining budget: never negative, and at most the active target.
    pub fn left<T: Timer>(&self, timer: &T) -> (d: u64)
        ensures
            exists|r: u64| #[trigger] timer.can_read(r) && d == self.left_at(r),
            d <= self.timeout,
    {
        let e = self.stopwatch.elapsed(timer);
        duration_sub(self.timeout, e)
    }

    /// True exactly when no budget is left.
    pub fn is_expired<T: Timer>(&self, timer: &T) -> (b: bool)
        ensures
            exists|r: u64| #[trigger] timer.can_read(r) && (b <==> self.left_at(r) == 0),
    {
        self.left(timer) == 0
    }

    /// Flip only on expiry: performs exactly the transition of [`Hourglass::flip`]
    /// when the budget has run out, and mutates nothing at all otherwise.
    pub fn flip_if_expired<T: Timer>(&mut self, timer: &T) -> (b: bool)
        ensures
            exists|r: u64|
                #[trigger] timer.can_read(r) && (b <==> old(self).left_at(r) == 0) && (b
                    ==> *final(self) == old(self).flipped_at(r)) && (!b ==> *final(self) == *old(
                    self,
                )),
    {
        let r = timer.elapsed();
        let left = duration_sub(self.timeout, duration_sub(r, self.stopwatch.t0));
        if left == 0 {
            self.timeout = duration_sub(self.capacity, left);
            self.stopwatch.t0 = r;
            true
        } else {
            false
        }
    }
}

/// Law: after a reset captured at reading `t`, advancing the clock by `d`
/// makes the measured elapsed time exactly `d`.
pub proof fn lemma_elapsed_exact(t: u64, d: u64)
    requires
        t + d <= u64::MAX,
    ensures
        diff_or_zero((t + d) as u64, t) == d,
{
}

/// Law: two consecutive restarts, after advances of `d1` then `d2` from a
/// baseline `t`, measure `d1` then `d2`, in that order — the first restart
/// moves the baseline to `t + d1`, from which the second measures `d2`.
pub proof fn lemma_restart_twice(t: u64, d1: u64, d2: u64)
    requires
        t + d1 + d2 <= u64::MAX,
    ensures
        diff_or_zero((t + d1) as u64, t) == d1,
        diff_or_zero((t + d1 + d2) as u64, (t + d1) as u64) == d2,
{
}

/// Law: with no mutation, the remaining budget never increases as the clock
/// advances, and it never exceeds the active target.
pub proof fn lemma_left_monotone(h: Hourglass, r1: u64, r2: u64)
    requires
        r1 <= r2,
    ensures
        h.left_at(r2) <= h.left_at(r1),
        h.left_at(r2) <= h.timeout,
{
}

/// Law: the remaining budget is exactly zero once the drained time has
/// reached the active target.
pub proof fn lemma_left_expires(h: Hourglass, r: u64)
    requires
        diff_or_zero(r, h.stopwatch.t0) >= h.timeout,
    ensures
        h.left_at(r) == 0,
{
}

/// Law: a flip at or after expiry restores the full capacity — the natural
/// renewal path — while an early flip shrinks the next window by exactly
/// the budget still unused.
pub proof fn lemma_flip_renews_on_expiry(h: Hourglass, r: u64)
    ensures
        h.left_at(r) == 0 ==> h.flipped_at(r).timeout == h.capacity,
        h.left_at(r) <= h.capacity ==> h.flipped_at(r).timeout == h.capacity - h.left_at(r),
{
}

} // verus!
