use std::time::Duration;

use lightify::reconnect::{Reconnector, MAX_ATTEMPTS, WINDOW_MS};

fn delay(reconnector: &mut Reconnector, now: u64) -> Option<Duration> {
    reconnector.next_delay(now).map(Duration::from_millis)
}

#[test]
fn five_attempts_get_increasing_delays_then_none() {
    let mut reconnector = Reconnector::default();
    let now: u64 = 7_000_000;
    let delays: Vec<_> = (0..MAX_ATTEMPTS).map(|_| delay(&mut reconnector, now)).collect();
    assert_eq!(
        delays,
        [1, 5, 15, 30, 60].map(|seconds| Some(Duration::from_secs(seconds)))
    );
    assert_eq!(delay(&mut reconnector, now), None);
}

#[test]
fn budget_comes_back_when_the_window_passes() {
    let mut reconnector = Reconnector::default();
    let start: u64 = 7_000_000;
    for _ in 0..MAX_ATTEMPTS {
        reconnector.next_delay(start);
    }
    assert_eq!(delay(&mut reconnector, start + WINDOW_MS - 1_000), None);
    assert_eq!(
        delay(&mut reconnector, start + WINDOW_MS),
        Some(Duration::from_secs(1))
    );
}

#[test]
fn expiring_one_attempt_keeps_the_rest_of_the_budget() {
    let mut reconnector = Reconnector::default();
    let start: u64 = 7_000_000;
    for seconds in 0..5u64 {
        reconnector.next_delay(start + seconds * 1_000);
    }
    assert_eq!(delay(&mut reconnector, start + WINDOW_MS - 1_000), None);
    assert_eq!(
        delay(&mut reconnector, start + WINDOW_MS),
        Some(Duration::from_secs(60))
    );
    assert_eq!(delay(&mut reconnector, start + WINDOW_MS), None);
}

#[test]
fn a_successful_attempt_restores_the_whole_budget() {
    let mut reconnector = Reconnector::default();
    let now: u64 = 7_000_000;
    for _ in 0..MAX_ATTEMPTS {
        reconnector.next_delay(now);
    }
    reconnector.reset();
    assert_eq!(delay(&mut reconnector, now), Some(Duration::from_secs(1)));
}

#[test]
fn an_attempt_stamped_after_now_still_counts() {
    let mut reconnector = Reconnector::default();
    reconnector.next_delay(10_000_000);
    assert_eq!(reconnector.next_delay(0), Some(5_000));
}

#[test]
fn the_window_starts_at_the_attempt() {
    let mut reconnector = Reconnector::default();
    reconnector.next_delay(0);
    assert_eq!(reconnector.next_delay(WINDOW_MS - 1), Some(5_000));
    let mut fresh = Reconnector::default();
    fresh.next_delay(0);
    assert_eq!(fresh.next_delay(WINDOW_MS), Some(1_000));
}

#[test]
fn no_window_holds_more_than_the_budget() {
    let mut reconnector = Reconnector::default();
    let mut granted = Vec::new();
    let mut now: u64 = 1_000_000;
    for step in 0..200u64 {
        if reconnector.next_delay(now).is_some() {
            granted.push(now);
        }
        now += 7_000 + (step % 5) * 11_000;
    }
    assert!(granted.len() > MAX_ATTEMPTS);
    for &start in &granted {
        let inside = granted
            .iter()
            .filter(|&&at| start <= at && at < start + WINDOW_MS)
            .count();
        assert!(inside <= MAX_ATTEMPTS);
    }
}

#[test]
fn refused_calls_use_no_budget() {
    let mut reconnector = Reconnector::default();
    let start: u64 = 2_000_000;
    for _ in 0..MAX_ATTEMPTS {
        reconnector.next_delay(start);
    }
    for minute in 1..10u64 {
        assert_eq!(reconnector.next_delay(start + minute * 60_000), None);
    }
    assert_eq!(
        reconnector.next_delay(start + WINDOW_MS),
        Some(1_000)
    );
}
