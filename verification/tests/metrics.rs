use rsactor::metrics::ProcessingStats;
use rsactor::{MetricsCollector, MetricsSnapshot};
use std::time::Duration;

fn nanos(d: Duration) -> u128 {
    d.as_nanos()
}

#[test]
fn test_initial_state() {
    let collector = MetricsCollector::new();
    let snapshot = collector.snapshot();

    assert_eq!(snapshot.message_count, 0);
    assert_eq!(Duration::from_nanos(snapshot.avg_processing_time), Duration::ZERO);
    assert_eq!(Duration::from_nanos(snapshot.max_processing_time), Duration::ZERO);
    assert!(snapshot.last_activity.is_none());
}

#[test]
fn test_record_message() {
    let mut collector = MetricsCollector::new();

    collector.record_message(nanos(Duration::from_millis(100)));
    collector.record_message(nanos(Duration::from_millis(200)));

    assert_eq!(collector.message_count(), 2);
    assert_eq!(
        Duration::from_nanos(collector.avg_processing_time()),
        Duration::from_millis(150)
    );
    assert_eq!(
        Duration::from_nanos(collector.max_processing_time()),
        Duration::from_millis(200)
    );
    assert!(collector.last_activity().is_some());
}

#[test]
fn test_metrics_snapshot_default() {
    let snapshot = MetricsSnapshot::default();

    assert_eq!(snapshot.message_count, 0);
    assert_eq!(Duration::from_nanos(snapshot.avg_processing_time), Duration::ZERO);
    assert_eq!(Duration::from_nanos(snapshot.max_processing_time), Duration::ZERO);
    assert_eq!(snapshot.uptime, 0);
    assert!(snapshot.last_activity.is_none());
}

#[test]
fn test_metrics_snapshot_clone() {
    let first = MetricsSnapshot {
        message_count: 42,
        avg_processing_time: Duration::from_millis(100).as_nanos() as u64,
        max_processing_time: Duration::from_millis(500).as_nanos() as u64,
        priority_message_count: 7,
        avg_priority_processing_time: Duration::from_micros(80).as_nanos() as u64,
        max_priority_processing_time: Duration::from_millis(2).as_nanos() as u64,
        uptime: Duration::from_secs(60).as_nanos(),
        last_activity: Some(1_700_000_000_000),
    };

    let cloned = first.clone();

    assert_eq!(cloned.message_count, 42);
    assert_eq!(Duration::from_nanos(cloned.avg_processing_time), Duration::from_millis(100));
    assert_eq!(Duration::from_nanos(cloned.max_processing_time), Duration::from_millis(500));
    assert_eq!(cloned.priority_message_count, 7);
    assert_eq!(
        Duration::from_nanos(cloned.avg_priority_processing_time),
        Duration::from_micros(80)
    );
    assert_eq!(
        Duration::from_nanos(cloned.max_priority_processing_time),
        Duration::from_millis(2)
    );
    assert_eq!(cloned.uptime, Duration::from_secs(60).as_nanos());
    assert!(cloned.last_activity.is_some());
}

#[test]
fn test_metrics_snapshot_debug() {
    let snapshot = MetricsSnapshot::default();
    let debug_str = format!("{:?}", snapshot);

    assert!(debug_str.contains("MetricsSnapshot"));
    assert!(debug_str.contains("message_count"));
}

#[test]
fn priority_and_idle_are_counted_apart() {
    let mut collector = MetricsCollector::new();
    collector.record_priority_message(30);
    collector.record_priority_message(10);
    collector.record_idle_event(5);
    assert_eq!(collector.message_count(), 0);
    assert_eq!(collector.priority_message_count(), 2);
    assert_eq!(collector.avg_priority_processing_time(), 20);
    assert_eq!(collector.max_priority_processing_time(), 30);
    assert_eq!(collector.idle_event_count(), 1);
    assert_eq!(collector.avg_idle_processing_time(), 5);
    assert_eq!(collector.max_idle_processing_time(), 5);
    let snap = collector.snapshot();
    assert_eq!(snap.priority_message_count, 2);
    assert_eq!(snap.avg_priority_processing_time, 20);
}

#[test]
fn huge_durations_are_capped() {
    let mut stats = ProcessingStats::new();
    stats.record(u128::MAX);
    assert_eq!(stats.count, 1);
    assert_eq!(stats.max_nanos, u64::MAX);
    assert_eq!(stats.total_nanos, u64::MAX);
    assert!(stats.average_nanos() <= stats.max_nanos);
}

#[test]
fn average_is_clamped_to_max_after_wrapping() {
    let mut stats = ProcessingStats::new();
    stats.record(u64::MAX as u128);
    stats.record(10);
    // total wrapped to 9; average 4, below max.
    assert_eq!(stats.total_nanos, 9);
    assert_eq!(stats.average_nanos(), 4);
    let forced = ProcessingStats {
        count: 1,
        total_nanos: 100,
        max_nanos: 40,
    };
    assert_eq!(forced.average_nanos(), 40);
}

#[test]
fn mark_started_is_idempotent() {
    let mut collector = MetricsCollector::new();
    collector.mark_started();
    collector.mark_started();
    let _ = collector.uptime();
    collector.record_activity_at(None);
    assert_eq!(collector.last_activity(), None);
    collector.record_activity_at(Some(123));
    assert_eq!(collector.last_activity(), Some(123));
    collector.record_activity_at(Some(u128::MAX));
    assert_eq!(collector.last_activity(), Some(u64::MAX));
}

#[test]
fn latest_recording_sets_last_activity() {
    let mut collector = MetricsCollector::new();
    assert_eq!(collector.last_activity(), None);
    collector.record_message_at(nanos(Duration::from_millis(5)), Some(1_000));
    assert_eq!(collector.last_activity(), Some(1_000));
    collector.record_idle_event_at(nanos(Duration::from_millis(7)), Some(3_000));
    assert_eq!(collector.last_activity(), Some(3_000));
    collector.record_priority_message_at(nanos(Duration::from_millis(9)), Some(2_000));
    assert_eq!(collector.last_activity(), Some(2_000));
    assert_eq!(collector.message_count(), 1);
    assert_eq!(collector.idle_event_count(), 1);
    assert_eq!(collector.priority_message_count(), 1);
    assert_eq!(collector.max_priority_processing_time(), 9_000_000);
    collector.record_message_at(nanos(Duration::from_millis(1)), None);
    assert_eq!(collector.last_activity(), None);
    assert_eq!(collector.message_count(), 2);
    assert_eq!(collector.max_processing_time(), 5_000_000);
}

/// Waits, without sleeping the thread, until `collector` reports at least
/// `min_nanos` of uptime.
fn spin_until_uptime(collector: &MetricsCollector, min_nanos: u128) {
    while collector.uptime() < min_nanos {}
}

#[test]
fn test_uptime_increases() {
    let collector = MetricsCollector::new();
    let uptime1 = collector.uptime();
    spin_until_uptime(&collector, uptime1 + nanos(Duration::from_millis(10)));
    let uptime2 = collector.uptime();

    assert!(uptime2 > uptime1);
}

#[test]
fn test_mark_started_resets_uptime_baseline() {
    let mut collector = MetricsCollector::new();
    spin_until_uptime(&collector, nanos(Duration::from_millis(20)));
    let before = collector.uptime();
    collector.mark_started();
    let after = collector.uptime();

    assert!(
        after < before,
        "mark_started should reset the uptime baseline (before={before:?}, after={after:?})"
    );
}

#[test]
fn mark_started_at_sets_the_baseline_once() {
    let mut collector = MetricsCollector::new();
    let created = collector.uptime_baseline();
    let first = std::time::Instant::now();
    collector.mark_started_at(first);
    assert_eq!(collector.uptime_baseline(), first);
    assert!(collector.uptime_baseline() >= created);
    let second = first + Duration::from_secs(5);
    collector.mark_started_at(second);
    assert_eq!(collector.uptime_baseline(), first);
}
