use cadence::clock::Hourglass;
use cadence::clock::ManualTimer;
use cadence::clock::Stopwatch;
use cadence::clock::SystemTimer;
use cadence::clock::TimerStopwatch;

const SECOND: u64 = 1_000_000_000;

#[test]
fn stopwatch_measures_advance_exactly() {
    let mut timer = ManualTimer::new();
    let mut sw = TimerStopwatch::new(&timer);
    sw.reset(&timer);
    timer.advance(0);
    assert_eq!(sw.elapsed(&timer), 0);
    timer.advance(1234);
    assert_eq!(sw.elapsed(&timer), 1234);
}

#[test]
fn consecutive_restarts_return_each_advance() {
    let mut timer = ManualTimer::new();
    let mut sw = TimerStopwatch::new(&timer);
    timer.advance(250);
    let first = sw.restart(&timer);
    timer.advance(40);
    let second = sw.restart(&timer);
    assert_eq!(first, 250);
    assert_eq!(second, 40);
}

#[test]
fn stopwatch_clamps_when_clock_moves_back() {
    let mut timer = ManualTimer::new();
    timer.advance(100);
    let sw = TimerStopwatch::new(&timer);
    let earlier = ManualTimer::new();
    assert_eq!(sw.elapsed(&earlier), 0);
}

#[test]
fn left_is_non_increasing_and_reaches_zero() {
    let mut timer = ManualTimer::new();
    let hg = Hourglass::new(10 * SECOND, &timer);
    let mut previous = hg.left(&timer);
    assert_eq!(previous, 10 * SECOND);
    for _ in 0..12 {
        timer.advance(SECOND);
        let now = hg.left(&timer);
        assert!(now <= previous);
        previous = now;
    }
    assert_eq!(previous, 0);
    assert!(hg.is_expired(&timer));
}

#[test]
fn left_zero_exactly_at_timeout() {
    let mut timer = ManualTimer::new();
    let hg = Hourglass::new(5 * SECOND, &timer);
    timer.advance(5 * SECOND - 1);
    assert_eq!(hg.left(&timer), 1);
    assert!(!hg.is_expired(&timer));
    timer.advance(1);
    assert_eq!(hg.left(&timer), 0);
    assert!(hg.is_expired(&timer));
}

#[test]
fn flip_carries_unused_budget_over() {
    let mut timer = ManualTimer::new();
    let mut hg = Hourglass::new(10 * SECOND, &timer);
    timer.advance(3 * SECOND);

    let left = hg.flip(&timer);
    assert_eq!(left, 7 * SECOND);
    assert_eq!(hg.timeout, 3 * SECOND);
    assert_eq!(hg.left(&timer), 3 * SECOND);

    timer.advance(3 * SECOND);
    let left = hg.flip(&timer);
    assert_eq!(left, 0);
    assert_eq!(hg.timeout, 10 * SECOND);
    assert_eq!(hg.left(&timer), 10 * SECOND);
}

#[test]
fn repeated_early_flips_shrink_the_window() {
    let mut timer = ManualTimer::new();
    let mut hg = Hourglass::new(8 * SECOND, &timer);
    timer.advance(2 * SECOND);
    assert_eq!(hg.flip(&timer), 6 * SECOND);
    assert_eq!(hg.timeout, 2 * SECOND);
    timer.advance(SECOND);
    assert_eq!(hg.flip(&timer), SECOND);
    assert_eq!(hg.timeout, 7 * SECOND);
}

#[test]
fn renew_restores_the_full_budget() {
    let mut timer = ManualTimer::new();
    let mut hg = Hourglass::new(6 * SECOND, &timer);
    timer.advance(4 * SECOND);
    hg.flip(&timer);
    assert_eq!(hg.timeout, 4 * SECOND);
    timer.advance(SECOND);
    hg.renew(&timer);
    assert_eq!(hg.timeout, 6 * SECOND);
    assert_eq!(hg.left(&timer), 6 * SECOND);
}

#[test]
fn delay_extends_the_window_in_place() {
    let mut timer = ManualTimer::new();
    let mut hg = Hourglass::new(2 * SECOND, &timer);
    timer.advance(2 * SECOND);
    assert!(hg.is_expired(&timer));
    hg.delay(3 * SECOND);
    assert_eq!(hg.timeout, 5 * SECOND);
    assert_eq!(hg.capacity, 2 * SECOND);
    assert_eq!(hg.left(&timer), 3 * SECOND);
    assert!(!hg.is_expired(&timer));
}

#[test]
fn flip_if_expired_mutates_nothing_before_expiry() {
    let mut timer = ManualTimer::new();
    let mut hg = Hourglass::new(10 * SECOND, &timer);
    timer.advance(4 * SECOND);
    let flipped = hg.flip_if_expired(&timer);
    assert!(!flipped);
    assert_eq!(hg.capacity, 10 * SECOND);
    assert_eq!(hg.timeout, 10 * SECOND);
    assert_eq!(hg.stopwatch.t0, 0);
    assert_eq!(hg.elapsed(&timer), 4 * SECOND);
}

#[test]
fn flip_if_expired_transitions_exactly_as_flip() {
    let mut timer = ManualTimer::new();
    let mut by_flip = Hourglass::new(10 * SECOND, &timer);
    let mut by_guard = by_flip.clone();
    timer.advance(11 * SECOND);

    assert!(by_guard.is_expired(&timer));
    let left = by_flip.flip(&timer);
    let flipped = by_guard.flip_if_expired(&timer);

    assert!(flipped);
    assert_eq!(left, 0);
    assert_eq!(by_guard.capacity, by_flip.capacity);
    assert_eq!(by_guard.timeout, by_flip.timeout);
    assert_eq!(by_guard.stopwatch.t0, by_flip.stopwatch.t0);
    assert_eq!(by_guard.timeout, 10 * SECOND);
}

#[test]
fn hourglass_elapsed_reports_drained_time() {
    let mut timer = ManualTimer::new();
    let hg = Hourglass::new(10 * SECOND, &timer);
    timer.advance(7 * SECOND);
    assert_eq!(hg.elapsed(&timer), 7 * SECOND);
}

#[test]
fn system_timer_drives_the_same_abstractions() {
    let timer = SystemTimer::new();
    let mut hg = Hourglass::new(u64::MAX, &timer);
    assert!(!hg.is_expired(&timer));
    assert!(hg.left(&timer) <= hg.timeout);
    let left = hg.flip(&timer);
    assert_eq!(hg.timeout, u64::MAX - left);
    let mut sw = TimerStopwatch::new(&timer);
    sw.reset(&timer);
    let first = sw.restart(&timer);
    let second = sw.elapsed(&timer);
    assert!(first < 3600 * SECOND);
    assert!(second < 3600 * SECOND);
}
