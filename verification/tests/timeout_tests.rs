//! Timeout tracker tests; time is passed in explicitly as milliseconds.

use open_sesame::TimeoutTracker;

#[test]
fn test_timeout_not_started() {
    let tracker = TimeoutTracker::new(100);
    assert!(!tracker.is_active(0));
    assert!(!tracker.has_elapsed(0));
    assert!(tracker.remaining(0).is_none());
}

#[test]
fn test_timeout_started() {
    let mut tracker = TimeoutTracker::new(1000);
    tracker.start(0);
    assert!(tracker.is_active(0));
    assert!(!tracker.has_elapsed(0));
    assert!(tracker.remaining(0).is_some());
}

#[test]
fn test_timeout_elapsed() {
    let mut tracker = TimeoutTracker::new(10);
    tracker.start(0);
    assert!(tracker.has_elapsed(20));
    assert!(!tracker.is_active(20));
}

#[test]
fn test_timeout_cancel() {
    let mut tracker = TimeoutTracker::new(1000);
    tracker.start(0);
    assert!(tracker.is_active(0));
    tracker.cancel();
    assert!(!tracker.is_active(0));
}

#[test]
fn test_timeout_values() {
    let mut tracker = TimeoutTracker::new(200);
    tracker.start(100);
    assert_eq!(tracker.elapsed(150), Some(50));
    assert_eq!(tracker.remaining(150), Some(150));
    assert_eq!(tracker.deadline(), Some(300));
    assert_eq!(tracker.remaining(300), None);
    tracker.set_duration(50);
    assert!(tracker.has_elapsed(150));
}
