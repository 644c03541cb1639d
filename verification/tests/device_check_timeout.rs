use soul_audio_desktop::device_check_timeout::{
    TimeoutConfig, TimeoutTracker, DEFAULT_DEVICE_CHECK_TIMEOUT_SECS,
    DEFAULT_MAX_CONSECUTIVE_TIMEOUTS,
};
use std::time::Duration;

#[test]
fn test_timeout_tracker() {
    let mut tracker = TimeoutTracker::new();
    assert_eq!(tracker.get_count(), 0);
    assert!(!tracker.is_max_reached());

    tracker.record_timeout();
    assert_eq!(tracker.get_count(), 1);
    assert!(!tracker.is_max_reached());

    tracker.record_timeout();
    tracker.record_timeout();
    assert_eq!(tracker.get_count(), 3);
    assert!(tracker.is_max_reached());

    tracker.record_success();
    assert_eq!(tracker.get_count(), 0);
    assert!(!tracker.is_max_reached());
}

#[test]
fn test_timeout_tracker_with_custom_config() {
    let config = TimeoutConfig {
        timeout: Duration::from_secs(5),
        max_consecutive_timeouts: 5,
    };
    let mut tracker = TimeoutTracker::with_config(config);

    for _ in 0..4 {
        tracker.record_timeout();
    }
    assert!(!tracker.is_max_reached());

    tracker.record_timeout();
    assert!(tracker.is_max_reached());
}

#[test]
fn timeout_config_default_is_five_seconds_and_three_timeouts() {
    let config = TimeoutConfig::default();
    assert_eq!(config.timeout, Duration::from_secs(5));
    assert_eq!(config.max_consecutive_timeouts, 3);
    assert_eq!(DEFAULT_DEVICE_CHECK_TIMEOUT_SECS, 5);
    assert_eq!(DEFAULT_MAX_CONSECUTIVE_TIMEOUTS, 3);
}

#[test]
fn timeout_tracker_reset_clears_count() {
    let mut tracker = TimeoutTracker::default();
    tracker.record_timeout();
    tracker.record_timeout();
    assert_eq!(tracker.get_count(), 2);
    tracker.reset();
    assert_eq!(tracker.get_count(), 0);
    assert!(!tracker.is_max_reached());
}

#[test]
fn timeout_tracker_zero_max_is_reached_immediately() {
    let config = TimeoutConfig {
        timeout: Duration::from_millis(10),
        max_consecutive_timeouts: 0,
    };
    let tracker = TimeoutTracker::with_config(config);
    assert!(tracker.is_max_reached());
}

#[test]
fn timeout_tracker_count_saturates() {
    let config = TimeoutConfig {
        timeout: Duration::from_millis(10),
        max_consecutive_timeouts: u32::MAX,
    };
    let mut tracker = TimeoutTracker::with_config(config);
    for _ in 0..10 {
        tracker.record_timeout();
    }
    assert_eq!(tracker.get_count(), 10);
    assert!(!tracker.is_max_reached());
}
