use clobber::{shutdown_requested, stop_asked, CloseSignal, Metrics, Settings, Stats};
use std::time::{Duration, Instant};

#[test]
fn new_stats_count_nothing() {
    let before = Instant::now();
    let stats = Stats::new();
    let after = Instant::now();
    assert_eq!(stats.bytes_read, 0);
    assert_eq!(stats.bytes_written, 0);
    assert_eq!(stats.connections, 0);
    assert_eq!(stats.connection_attempts, 0);
    assert!(before <= stats.start_time);
    assert!(stats.start_time <= stats.end_time);
    assert!(stats.end_time <= after);
}

#[test]
fn duration_runs_from_start_to_end() {
    let mut stats = Stats::new();
    stats.end_time = stats.start_time + Duration::from_millis(1500);
    assert_eq!(stats.duration(), Duration::from_millis(1500));
    stats.end_time = stats.start_time;
    assert_eq!(stats.duration(), Duration::from_secs(0));
}

#[test]
fn duration_of_an_end_before_the_start_is_nothing() {
    let mut stats = Stats::new();
    stats.start_time = stats.end_time + Duration::from_secs(5);
    assert_eq!(stats.duration(), Duration::from_secs(0));
}

#[test]
fn stats_add_up_field_by_field() {
    let mut first = Stats::new();
    first.bytes_read = 10;
    first.bytes_written = 20;
    first.connections = 3;
    first.connection_attempts = 4;
    let mut second = Stats::new();
    second.bytes_read = 1;
    second.bytes_written = 2;
    second.connections = 30;
    second.connection_attempts = 40;
    second.end_time = first.start_time + Duration::from_secs(7);
    let sum = first + second;
    assert_eq!(sum.bytes_read, 11);
    assert_eq!(sum.bytes_written, 22);
    assert_eq!(sum.connections, 33);
    assert_eq!(sum.connection_attempts, 44);
    assert_eq!(sum.start_time, first.start_time);
    assert_eq!(sum.end_time, second.end_time);
    assert_eq!(sum.duration(), Duration::from_secs(7));
}

#[test]
fn adding_empty_stats_changes_no_count() {
    let mut stats = Stats::new();
    stats.bytes_read = usize::MAX;
    stats.connections = 9;
    let sum = stats + Stats::new();
    assert_eq!(sum.bytes_read, usize::MAX);
    assert_eq!(sum.connections, 9);
}

#[test]
fn new_metrics_count_nothing() {
    let metrics = Metrics::new();
    assert_eq!(metrics, Metrics::new());
    assert_eq!(format!("{:?}", metrics), "Metrics { requests: 0, connects: 0, reconnects: 0 }");
}

#[test]
fn settings_hold_the_worker_count() {
    let settings = Settings { workers: 24 };
    assert_eq!(settings.workers, 24);
}

#[test]
fn only_an_empty_channel_lets_the_loops_go_on() {
    assert!(stop_asked(CloseSignal::Received));
    assert!(stop_asked(CloseSignal::Disconnected));
    assert!(!stop_asked(CloseSignal::Empty));
}

#[test]
fn shutdown_is_read_off_the_close_channel() {
    let (sender, receiver) = crossbeam_channel::unbounded::<()>();
    assert!(!shutdown_requested(&receiver));
    assert!(!shutdown_requested(&receiver));
    sender.send(()).unwrap();
    assert!(shutdown_requested(&receiver));
    assert!(!shutdown_requested(&receiver));
    drop(sender);
    assert!(shutdown_requested(&receiver));
    assert!(shutdown_requested(&receiver));
}

#[test]
fn shutdown_takes_one_message_at_a_look() {
    let (sender, receiver) = crossbeam_channel::bounded::<()>(4);
    sender.send(()).unwrap();
    sender.send(()).unwrap();
    assert!(shutdown_requested(&receiver));
    assert_eq!(receiver.len(), 1);
    assert!(shutdown_requested(&receiver));
    assert!(!shutdown_requested(&receiver));
}
