use auto_fast_dl::outcome::{DownloadOutcome, FailureKind, Placement};
use auto_fast_dl::stats::{SessionStats, StatsAggregator};

fn memory(bytes: u64) -> DownloadOutcome {
    DownloadOutcome::Success { bytes, placement: Placement::Memory }
}

fn disk(bytes: u64) -> DownloadOutcome {
    DownloadOutcome::Success { bytes, placement: Placement::Disk }
}

fn failed(kind: FailureKind) -> DownloadOutcome {
    DownloadOutcome::Failure { kind }
}

#[test]
fn new_aggregator_counts_nothing() {
    assert_eq!(
        StatsAggregator::new().snapshot(),
        SessionStats { total_files: 0, failed_downloads: 0, total_bytes: 0, start_time: None }
    );
}

#[test]
fn start_time_is_recorded_and_counters_stay() {
    let mut aggregator = StatsAggregator::new();
    aggregator.record_result(memory(5));
    aggregator.record_start(1_700_000_000);
    assert_eq!(
        aggregator.snapshot(),
        SessionStats {
            total_files: 1,
            failed_downloads: 0,
            total_bytes: 5,
            start_time: Some(1_700_000_000)
        }
    );
}

#[test]
fn success_counts_a_file_and_its_bytes() {
    let mut aggregator = StatsAggregator::new();
    aggregator.record_result(disk(1000));
    aggregator.record_result(memory(24));
    let stats = aggregator.snapshot();
    assert_eq!((stats.total_files, stats.failed_downloads, stats.total_bytes), (2, 0, 1024));
}

#[test]
fn failure_counts_a_failed_download_and_no_bytes() {
    let mut aggregator = StatsAggregator::new();
    for kind in [
        FailureKind::NetworkError,
        FailureKind::HttpStatusError(503),
        FailureKind::BodyReadError,
        FailureKind::DiskWriteError,
    ] {
        aggregator.record_result(failed(kind));
    }
    let stats = aggregator.snapshot();
    assert_eq!((stats.total_files, stats.failed_downloads, stats.total_bytes), (0, 4, 0));
}

#[test]
fn tick_of_n_items_with_f_failures() {
    let mut aggregator = StatsAggregator::new();
    aggregator.record_batch(&vec![memory(1), failed(FailureKind::NetworkError)]);
    let before = aggregator.snapshot();
    let outcomes = vec![
        memory(100),
        failed(FailureKind::HttpStatusError(404)),
        disk(250),
        failed(FailureKind::DiskWriteError),
        memory(0),
    ];
    aggregator.record_batch(&outcomes);
    let after = aggregator.snapshot();
    assert_eq!(after.total_files - before.total_files, 3);
    assert_eq!(after.failed_downloads - before.failed_downloads, 2);
    assert_eq!(after.total_bytes - before.total_bytes, 350);
    assert_eq!(after.start_time, before.start_time);
}

#[test]
fn empty_batch_changes_nothing() {
    let mut aggregator = StatsAggregator::new();
    aggregator.record_batch(&vec![disk(7)]);
    let before = aggregator.snapshot();
    aggregator.record_batch(&Vec::new());
    assert_eq!(aggregator.snapshot(), before);
}

#[test]
fn order_of_completion_does_not_matter() {
    let outcomes = vec![
        memory(100),
        failed(FailureKind::BodyReadError),
        disk(250),
        memory(3),
        failed(FailureKind::NetworkError),
    ];
    let mut forward = StatsAggregator::new();
    forward.record_batch(&outcomes);
    let mut reversed = outcomes.clone();
    reversed.reverse();
    let mut backward = StatsAggregator::new();
    backward.record_batch(&reversed);
    let mut one_by_one = StatsAggregator::new();
    for index in [2usize, 0, 4, 1, 3] {
        one_by_one.record_result(outcomes[index]);
    }
    assert_eq!(forward.snapshot(), backward.snapshot());
    assert_eq!(forward.snapshot(), one_by_one.snapshot());
}

#[test]
fn room_is_measured_against_the_counters() {
    let mut aggregator = StatsAggregator::new();
    assert!(aggregator.has_room_for(&vec![memory(u64::MAX)]));
    assert!(!aggregator.has_room_for(&vec![memory(u64::MAX), disk(1)]));
    assert!(aggregator.has_room_for(&vec![memory(u64::MAX), failed(FailureKind::NetworkError)]));
    aggregator.record_result(memory(u64::MAX));
    assert!(aggregator.has_room_for(&vec![memory(0)]));
    assert!(!aggregator.has_room_for(&vec![memory(1)]));
    assert!(aggregator.has_room_for(&Vec::new()));
}
