use auto_fast_dl::budget::BYTES_PER_MB;
use auto_fast_dl::downloader::{
    Downloader, DEFAULT_BATCH_SIZE, DEFAULT_MEMORY_MB, REQUEST_TIMEOUT_SECS, TICK_INTERVAL_SECS,
};
use auto_fast_dl::item::{ItemAction, ItemEvent, ItemState};
use auto_fast_dl::outcome::{DownloadOutcome, FailureKind, Placement};
use auto_fast_dl::session::{Action, Event, Phase, TelemetryPolicy};
use auto_fast_dl::sizing::BatchPlan;
use auto_fast_dl::stats::SessionStats;
use auto_fast_dl::sweep::EntryKind;
use auto_fast_dl::target::StartupError;
use auto_fast_dl::tick::TickReport;

const MB: u64 = 1024 * 1024;

fn probed(content_length: Option<&str>, available_bytes: u64) -> Event {
    Event::Probed { content_length: content_length.map(|text| text.to_string()), available_bytes }
}

fn memory(bytes: u64) -> DownloadOutcome {
    DownloadOutcome::Success { bytes, placement: Placement::Memory }
}

fn network_error() -> DownloadOutcome {
    DownloadOutcome::Failure { kind: FailureKind::NetworkError }
}

/// A session with a plan of `size` items that waits for its first tick.
fn waiting(size: usize) -> Downloader {
    let mut downloader = Downloader::new(None, None);
    assert_eq!(downloader.start("https://example.com/file", Some(size)), Ok(Action::Probe));
    assert_eq!(downloader.step_at(&probed(Some("1048576"), 1000 * MB), 100), Some(Action::Wait));
    downloader
}

#[test]
fn new_downloader_has_the_defaults() {
    let downloader = Downloader::new(None, None);
    assert_eq!(downloader.download_dir(), "downloads");
    assert_eq!(downloader.memory_budget_mb(), 300);
    assert_eq!(DEFAULT_MEMORY_MB, 300);
    assert_eq!(DEFAULT_BATCH_SIZE, 20);
    assert_eq!(downloader.phase(), Phase::Idle);
    assert_eq!(downloader.plan(), None);
    assert_eq!(downloader.previous_tick_end(), None);
    assert_eq!(
        downloader.snapshot(),
        SessionStats { total_files: 0, failed_downloads: 0, total_bytes: 0, start_time: None }
    );
}

#[test]
fn telemetry_policy_is_passed_on_with_every_batch() {
    let downloader = Downloader::new(None, None);
    assert_eq!(downloader.telemetry(), TelemetryPolicy::AtStartup);
    let mut downloader = downloader.with_telemetry(TelemetryPolicy::EveryTick);
    assert_eq!(downloader.telemetry(), TelemetryPolicy::EveryTick);
    assert_eq!(downloader.download_dir(), "downloads");
    assert_eq!(downloader.memory_budget_mb(), 300);
    assert_eq!(downloader.start("https://example.com/file", Some(2)), Ok(Action::Probe));
    assert_eq!(downloader.step_at(&probed(Some("1048576"), 1000 * MB), 100), Some(Action::Wait));
    for tick in 0u64..2 {
        assert_eq!(
            downloader.step_at(&Event::TimerElapsed, 101 + tick * 3),
            Some(Action::RunBatch { size: 2, budget_mb: 300, refresh_telemetry: true })
        );
        let outcomes = vec![memory(1), memory(1)];
        assert!(downloader.step_at(&Event::BatchFinished { outcomes }, 102 + tick * 3).is_some());
        assert_eq!(downloader.step_at(&Event::Swept, 103 + tick * 3), Some(Action::Wait));
        assert_eq!(downloader.telemetry(), TelemetryPolicy::EveryTick);
    }
}

#[test]
fn new_downloader_takes_directory_and_budget() {
    let downloader = Downloader::new(Some("spill".to_string()), Some(64));
    assert_eq!(downloader.download_dir(), "spill");
    assert_eq!(downloader.memory_budget_mb(), 64);
}

#[test]
fn ftp_target_ends_the_session_before_any_probe() {
    let mut downloader = Downloader::new(None, None);
    assert_eq!(
        downloader.start("ftp://example.com/x", None),
        Err(StartupError::InvalidTargetError)
    );
    assert_eq!(downloader.phase(), Phase::Terminated);
    assert_eq!(downloader.step_at(&probed(Some("10"), 1000), 1), None);
    assert_eq!(downloader.step_at(&Event::TimerElapsed, 2), None);
    assert_eq!(downloader.phase(), Phase::Terminated);
    assert_eq!(downloader.snapshot().start_time, None);
}

#[test]
fn valid_target_sets_off_the_probe() {
    let mut downloader = Downloader::new(None, None);
    assert_eq!(downloader.start("http://example.com/x", None), Ok(Action::Probe));
    assert_eq!(downloader.phase(), Phase::Start { requested: 20 });
    let mut downloader = Downloader::new(None, None);
    assert_eq!(downloader.start("https://example.com/x", Some(3)), Ok(Action::Probe));
    assert_eq!(downloader.phase(), Phase::Start { requested: 3 });
}

#[test]
fn probe_without_size_header_aborts_before_any_batch() {
    let mut downloader = Downloader::new(None, None);
    assert_eq!(downloader.start("https://example.com/x", None), Ok(Action::Probe));
    assert_eq!(
        downloader.step_at(&probed(None, 1000 * MB), 50),
        Some(Action::Abort { error: StartupError::SizeUnavailableError })
    );
    assert_eq!(downloader.phase(), Phase::Terminated);
    assert_eq!(downloader.plan(), None);
    assert_eq!(downloader.snapshot().start_time, None);
    assert_eq!(downloader.step_at(&Event::TimerElapsed, 51), None);
    assert_eq!(downloader.phase(), Phase::Terminated);
}

#[test]
fn probe_with_unreadable_size_aborts() {
    let mut downloader = Downloader::new(None, None);
    assert_eq!(downloader.start("https://example.com/x", None), Ok(Action::Probe));
    assert_eq!(
        downloader.step_at(&probed(Some("unknown"), 1000 * MB), 50),
        Some(Action::Abort { error: StartupError::SizeUnavailableError })
    );
    assert_eq!(downloader.phase(), Phase::Terminated);
}

#[test]
fn probe_plans_the_batches_and_stamps_the_start() {
    let mut downloader = Downloader::new(None, None);
    assert_eq!(downloader.start("https://example.com/x", None), Ok(Action::Probe));
    // 1000 MB available, 10 MB per item: safe = 200, feasible since 1000 > 20 * 10
    assert_eq!(downloader.step_at(&probed(Some("10485760"), 1000 * MB), 1234), Some(Action::Wait));
    let plan = BatchPlan { size: 20, estimated_item_size: 10 * MB };
    assert_eq!(downloader.phase(), Phase::WaitTick { plan });
    assert_eq!(downloader.plan(), Some(plan));
    assert_eq!(downloader.memory_budget_mb(), 300);
    assert_eq!(downloader.snapshot().start_time, Some(1234));
}

#[test]
fn infeasible_batch_collapses_the_budget() {
    let mut downloader = Downloader::new(None, None);
    assert_eq!(downloader.start("https://example.com/x", None), Ok(Action::Probe));
    // 50 MB available, 10 MB per item: safe = 10, and 50 > 10 * 10 fails
    assert_eq!(downloader.step_at(&probed(Some("10485760"), 50 * MB), 7), Some(Action::Wait));
    assert_eq!(downloader.plan(), Some(BatchPlan { size: 10, estimated_item_size: 10 * MB }));
    assert_eq!(downloader.memory_budget_mb(), 0);
    assert_eq!(
        downloader.step_at(&Event::TimerElapsed, 8),
        Some(Action::RunBatch { size: 10, budget_mb: 0, refresh_telemetry: false })
    );
    assert_eq!(
        downloader
            .download_file(ItemState::AwaitingBody, ItemEvent::BodyRead { bytes: 1, process_bytes: 0 }),
        (ItemState::AwaitingPersist { bytes: 1 }, Some(ItemAction::Persist))
    );
}

#[test]
fn collapsed_budget_stays_collapsed_over_ticks() {
    let mut downloader = Downloader::new(None, Some(4096));
    assert_eq!(downloader.start("https://example.com/x", Some(2)), Ok(Action::Probe));
    assert_eq!(downloader.step_at(&probed(Some("100"), 100), 0), Some(Action::Wait));
    assert_eq!(downloader.plan(), Some(BatchPlan { size: 2, estimated_item_size: 100 }));
    assert_eq!(downloader.memory_budget_mb(), 0);
    for tick in 1u64..4 {
        assert_eq!(
            downloader.step_at(&Event::TimerElapsed, tick * 10),
            Some(Action::RunBatch { size: 2, budget_mb: 0, refresh_telemetry: false })
        );
        let outcomes = vec![
            DownloadOutcome::Success { bytes: 100, placement: Placement::Disk },
            DownloadOutcome::Success { bytes: 100, placement: Placement::Disk },
        ];
        assert!(downloader.step_at(&Event::BatchFinished { outcomes }, tick * 10 + 1).is_some());
        assert_eq!(downloader.step_at(&Event::Swept, tick * 10 + 2), Some(Action::Wait));
        assert_eq!(downloader.memory_budget_mb(), 0);
    }
}

#[test]
fn budget_decides_the_placement_of_an_item() {
    let downloader = Downloader::new(None, Some(300));
    let below = ItemEvent::BodyRead { bytes: 10, process_bytes: 300 * BYTES_PER_MB - 11 };
    let at = ItemEvent::BodyRead { bytes: 10, process_bytes: 300 * BYTES_PER_MB - 10 };
    let kept = memory(10);
    assert_eq!(
        downloader.download_file(ItemState::AwaitingBody, below),
        (ItemState::Done { outcome: kept }, Some(ItemAction::Finish { outcome: kept, progress: 1 }))
    );
    assert_eq!(
        downloader.download_file(ItemState::AwaitingBody, at),
        (ItemState::AwaitingPersist { bytes: 10 }, Some(ItemAction::Persist))
    );
}

#[test]
fn timer_sets_off_a_batch_of_the_planned_size() {
    let mut downloader = waiting(3);
    assert_eq!(
        downloader.step_at(&Event::TimerElapsed, 101),
        Some(Action::RunBatch { size: 3, budget_mb: 300, refresh_telemetry: false })
    );
    let plan = BatchPlan { size: 3, estimated_item_size: MB };
    assert_eq!(downloader.phase(), Phase::RunBatch { plan, tick_start: 101 });
}

#[test]
fn cancellation_is_not_seen_while_a_batch_runs() {
    let mut downloader = waiting(2);
    downloader.step_at(&Event::TimerElapsed, 101);
    let before = downloader.phase();
    assert_eq!(downloader.step_at(&Event::CancelRequested, 102), None);
    assert_eq!(downloader.phase(), before);
    let outcomes = vec![memory(1), memory(2)];
    assert!(downloader.step_at(&Event::BatchFinished { outcomes }, 103).is_some());
    assert_eq!(downloader.step_at(&Event::CancelRequested, 104), None);
    assert!(matches!(downloader.phase(), Phase::Cleanup { .. }));
    assert_eq!(downloader.step_at(&Event::Swept, 105), Some(Action::Wait));
    assert!(matches!(
        downloader.step_at(&Event::CancelRequested, 106),
        Some(Action::Finalize { .. })
    ));
}

#[test]
fn batch_needs_one_outcome_for_each_item() {
    let mut downloader = waiting(2);
    downloader.step_at(&Event::TimerElapsed, 101);
    let before = downloader.snapshot();
    assert_eq!(downloader.step_at(&Event::BatchFinished { outcomes: vec![memory(1)] }, 102), None);
    assert_eq!(
        downloader.step_at(
            &Event::BatchFinished { outcomes: vec![memory(1), memory(1), memory(1)] },
            102
        ),
        None
    );
    assert_eq!(downloader.snapshot(), before);
    assert!(matches!(downloader.phase(), Phase::RunBatch { .. }));
}

#[test]
fn batch_is_folded_into_the_counters() {
    let mut downloader = waiting(3);
    downloader.step_at(&Event::TimerElapsed, 101);
    let outcomes = vec![
        memory(500),
        network_error(),
        DownloadOutcome::Success { bytes: 1500, placement: Placement::Disk },
    ];
    let action = downloader.step_at(&Event::BatchFinished { outcomes }, 104);
    assert_eq!(
        action,
        Some(Action::Sweep { report: TickReport { batch_size: 3, elapsed: 3, per: 3 } })
    );
    assert_eq!(
        downloader.snapshot(),
        SessionStats {
            total_files: 2,
            failed_downloads: 1,
            total_bytes: 2000,
            start_time: Some(100)
        }
    );
    assert_eq!(downloader.previous_tick_end(), Some(104));
}

#[test]
fn failures_never_end_the_run() {
    let mut downloader = waiting(2);
    downloader.step_at(&Event::TimerElapsed, 101);
    let outcomes = vec![
        network_error(),
        DownloadOutcome::Failure { kind: FailureKind::HttpStatusError(500) },
    ];
    assert!(matches!(
        downloader.step_at(&Event::BatchFinished { outcomes }, 102),
        Some(Action::Sweep { .. })
    ));
    assert_eq!(downloader.step_at(&Event::Swept, 103), Some(Action::Wait));
    assert!(matches!(downloader.phase(), Phase::WaitTick { .. }));
    assert_eq!(downloader.snapshot().failed_downloads, 2);
}

#[test]
fn first_tick_is_timed_from_its_start_and_later_ones_from_the_last_end() {
    let mut downloader = waiting(1);
    downloader.step_at(&Event::TimerElapsed, 110);
    assert_eq!(
        downloader.step_at(&Event::BatchFinished { outcomes: vec![memory(1)] }, 115),
        Some(Action::Sweep { report: TickReport { batch_size: 1, elapsed: 5, per: 5 } })
    );
    downloader.step_at(&Event::Swept, 116);
    downloader.step_at(&Event::TimerElapsed, 117);
    assert_eq!(
        downloader.step_at(&Event::BatchFinished { outcomes: vec![memory(1)] }, 119),
        Some(Action::Sweep { report: TickReport { batch_size: 1, elapsed: 4, per: 4 } })
    );
    assert_eq!(downloader.previous_tick_end(), Some(119));
}

#[test]
fn tick_within_one_second_is_rated_per_one() {
    let mut downloader = waiting(4);
    downloader.step_at(&Event::TimerElapsed, 110);
    let outcomes = vec![memory(1), memory(1), memory(1), memory(1)];
    assert_eq!(
        downloader.step_at(&Event::BatchFinished { outcomes }, 110),
        Some(Action::Sweep { report: TickReport { batch_size: 4, elapsed: 0, per: 1 } })
    );
}

#[test]
fn plan_is_reused_for_every_tick() {
    let mut downloader = waiting(2);
    let plan = downloader.plan();
    assert_eq!(plan, Some(BatchPlan { size: 2, estimated_item_size: MB }));
    for tick in 0u64..3 {
        let base = 200 + tick * 10;
        assert_eq!(
            downloader.step_at(&Event::TimerElapsed, base),
            Some(Action::RunBatch { size: 2, budget_mb: 300, refresh_telemetry: false })
        );
        assert_eq!(downloader.plan(), plan);
        let outcomes = vec![memory(1), network_error()];
        assert!(downloader.step_at(&Event::BatchFinished { outcomes }, base + 1).is_some());
        assert_eq!(downloader.plan(), plan);
        assert_eq!(downloader.step_at(&Event::Swept, base + 2), Some(Action::Wait));
        assert_eq!(downloader.plan(), plan);
    }
    let stats = downloader.snapshot();
    assert_eq!(stats.total_files + stats.failed_downloads, 6);
}

#[test]
fn cancellation_finalizes_and_exits() {
    let mut downloader = waiting(1);
    downloader.step_at(&Event::TimerElapsed, 101);
    downloader.step_at(&Event::BatchFinished { outcomes: vec![memory(9)] }, 102);
    downloader.step_at(&Event::Swept, 103);
    let summary = SessionStats {
        total_files: 1,
        failed_downloads: 0,
        total_bytes: 9,
        start_time: Some(100),
    };
    assert_eq!(
        downloader.step_at(&Event::CancelRequested, 104),
        Some(Action::Finalize { summary })
    );
    assert_eq!(downloader.phase(), Phase::Finalize);
    assert_eq!(downloader.plan(), None);
    assert_eq!(downloader.step_at(&Event::TimerElapsed, 105), None);
    assert_eq!(downloader.step_at(&Event::Swept, 105), Some(Action::Exit));
    assert_eq!(downloader.phase(), Phase::Terminated);
    assert_eq!(downloader.step_at(&Event::Swept, 106), None);
    assert_eq!(downloader.snapshot(), summary);
}

#[test]
fn cancellation_before_the_first_tick_runs_no_batch() {
    let mut downloader = waiting(5);
    assert!(matches!(
        downloader.step_at(&Event::CancelRequested, 100),
        Some(Action::Finalize { .. })
    ));
    assert_eq!(downloader.step_at(&Event::Swept, 100), Some(Action::Exit));
    let stats = downloader.snapshot();
    assert_eq!((stats.total_files, stats.failed_downloads, stats.total_bytes), (0, 0, 0));
}

#[test]
fn events_out_of_turn_change_nothing() {
    let mut downloader = Downloader::new(None, None);
    assert_eq!(downloader.step_at(&Event::TimerElapsed, 1), None);
    assert_eq!(downloader.step_at(&probed(Some("5"), 5), 1), None);
    assert_eq!(downloader.phase(), Phase::Idle);
    let mut downloader = waiting(1);
    assert_eq!(downloader.step_at(&Event::Swept, 101), None);
    assert_eq!(downloader.step_at(&probed(Some("5"), 5), 101), None);
    assert_eq!(downloader.step_at(&Event::BatchFinished { outcomes: vec![memory(1)] }, 101), None);
    assert!(matches!(downloader.phase(), Phase::WaitTick { .. }));
    assert_eq!(downloader.snapshot().total_files, 0);
}

#[test]
fn batch_is_not_admitted_when_the_clock_went_back() {
    let mut downloader = waiting(1);
    downloader.step_at(&Event::TimerElapsed, 110);
    let finished = Event::BatchFinished { outcomes: vec![memory(1)] };
    assert!(!downloader.admits(&finished, 109));
    assert!(downloader.admits(&finished, 110));
    assert!(downloader.admits(&Event::BatchFinished { outcomes: Vec::new() }, 0));
    assert!(downloader.admits(&Event::CancelRequested, 0));
    downloader.step_at(&finished, 120);
    downloader.step_at(&Event::Swept, 121);
    downloader.step_at(&Event::TimerElapsed, 122);
    // the second tick is timed from the end of the first
    assert!(!downloader.admits(&finished, 119));
    assert!(downloader.admits(&finished, 120));
}

#[test]
fn batch_is_not_admitted_when_a_counter_would_overflow() {
    let mut downloader = waiting(1);
    downloader.step_at(&Event::TimerElapsed, 110);
    downloader.step_at(&Event::BatchFinished { outcomes: vec![memory(u64::MAX)] }, 111);
    downloader.step_at(&Event::Swept, 112);
    downloader.step_at(&Event::TimerElapsed, 113);
    assert!(!downloader.admits(&Event::BatchFinished { outcomes: vec![memory(1)] }, 114));
    assert!(downloader.admits(&Event::BatchFinished { outcomes: vec![memory(0)] }, 114));
    assert!(downloader.admits(&Event::BatchFinished { outcomes: vec![network_error()] }, 114));
}

#[test]
fn step_reads_the_clock() {
    let mut downloader = Downloader::new(None, None);
    assert_eq!(downloader.start("https://example.com/x", Some(1)), Ok(Action::Probe));
    let (started, action) = downloader.step(&probed(Some("10"), 1000));
    assert_eq!(action, Some(Action::Wait));
    // later than 2020-09-13
    assert!(started > 1_600_000_000);
    assert_eq!(downloader.snapshot().start_time, Some(started));
    let (tick_start, action) = downloader.step(&Event::TimerElapsed);
    assert_eq!(action, Some(Action::RunBatch { size: 1, budget_mb: 300, refresh_telemetry: false }));
    assert!(tick_start >= started);
    let (end, action) = downloader.step(&Event::BatchFinished { outcomes: vec![memory(3)] });
    assert!(end >= tick_start);
    let elapsed = end - tick_start;
    let per = if elapsed > 0 { elapsed } else { 1 };
    assert_eq!(action, Some(Action::Sweep { report: TickReport { batch_size: 1, elapsed, per } }));
    assert_eq!(downloader.previous_tick_end(), Some(end));
    let (_, action) = downloader.step(&Event::CancelRequested);
    assert_eq!(action, None);
}

#[test]
fn step_leaves_the_session_alone_when_it_cannot_take_the_event() {
    let mut downloader = waiting(1);
    // a tick that started in the far future cannot end now
    downloader.step_at(&Event::TimerElapsed, u64::MAX);
    let before = downloader.phase();
    let (now, action) = downloader.step(&Event::BatchFinished { outcomes: vec![memory(3)] });
    assert!(now < u64::MAX);
    assert_eq!(action, None);
    assert_eq!(downloader.phase(), before);
    assert_eq!(downloader.snapshot().total_files, 0);
    assert_eq!(downloader.previous_tick_end(), None);
}

#[test]
fn feasibility_check_of_the_session() {
    let downloader = Downloader::new(None, None);
    assert!(downloader.check_memory_availability(1000 * MB, 20, 10 * MB));
    assert!(!downloader.check_memory_availability(200 * MB, 20, 10 * MB));
    assert!(!downloader.check_memory_availability(50 * MB, 10, 10 * MB));
}

#[test]
fn destinations_are_made_for_a_running_batch_only() {
    let mut downloader = waiting(3);
    assert!(downloader.destinations().is_empty());
    downloader.step_at(&Event::TimerElapsed, 101);
    let paths = downloader.destinations();
    assert_eq!(paths.len(), 3);
    for path in &paths {
        assert!(path.starts_with("downloads/"));
        assert!(path.ends_with(".dat"));
        assert_eq!(path.len(), "downloads/".len() + 40);
    }
    assert_ne!(paths[0], paths[1]);
    assert_ne!(paths[1], paths[2]);
    assert_ne!(paths[0], paths[2]);
}

#[test]
fn sweep_of_the_session_removes_regular_files() {
    let downloader = Downloader::new(None, None);
    let listing = vec![EntryKind::RegularFile, EntryKind::Other, EntryKind::RegularFile];
    assert_eq!(downloader.cleanup_files(&listing), vec![0, 2]);
    assert_eq!(downloader.cleanup_files(&Vec::new()), Vec::<usize>::new());
}

#[test]
fn banner_of_the_session() {
    let mut downloader = waiting(2);
    downloader.step_at(&Event::TimerElapsed, 101);
    let outcomes = vec![memory(3 * 1024 * MB), network_error()];
    downloader.step_at(&Event::BatchFinished { outcomes }, 160);
    let banner = downloader.completion_banner_at(175);
    assert_eq!(banner.total_files, "1");
    assert_eq!(banner.failed_downloads, "1");
    assert_eq!(banner.total_bytes, 3 * 1024 * MB);
    assert_eq!(banner.total_seconds, 75);
}

#[test]
fn banner_is_timed_by_the_clock() {
    let mut downloader = waiting(1);
    downloader.step_at(&Event::TimerElapsed, 101);
    downloader.step_at(&Event::BatchFinished { outcomes: vec![memory(2048)] }, 102);
    let (now, banner) = downloader.display_completion_banner();
    let banner = banner.expect("the clock reads a time after the start");
    assert!(now > 1_600_000_000);
    assert_eq!(banner.total_seconds, now - 100);
    assert_eq!(banner.total_files, "1");
    assert_eq!(banner.failed_downloads, "0");
    assert_eq!(banner.total_bytes, 2048);
}

#[test]
fn no_banner_for_a_session_that_starts_in_the_future() {
    let mut downloader = Downloader::new(None, None);
    assert_eq!(downloader.start("https://example.com/file", Some(1)), Ok(Action::Probe));
    assert_eq!(downloader.step_at(&probed(Some("1"), 1000), u64::MAX), Some(Action::Wait));
    let (now, banner) = downloader.display_completion_banner();
    assert!(now < u64::MAX);
    assert!(banner.is_none());
}

#[test]
fn cadence_of_the_session() {
    assert_eq!(TICK_INTERVAL_SECS, 1);
    assert_eq!(REQUEST_TIMEOUT_SECS, 30);
}
