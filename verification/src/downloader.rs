//! The downloader: a session that the caller drives by reporting events.

use crate::budget::MemoryBudget;
use crate::clock::unix_now;
use crate::item::{item_step, item_transition, ItemAction, ItemEvent, ItemState};
use crate::naming::{batch_destinations, is_destination};
use crate::report::{completion_banner, en_grouped, seconds_since_start, CompletionBanner};
use crate::session::{
    admits, in_flight, phase_is_valid, plan_of, transition, Action, Event, Phase, SessionModel,
    TelemetryPolicy,
};
use crate::sizing::{check_feasible, feasible, plan_batch, BatchPlan};
use crate::stats::{SessionStats, StatsAggregator};
use crate::sweep::{plan_sweep, sweep_targets, EntryKind};
use crate::target::{is_valid_target, probe_size, validate_target, StartupError};
use crate::tick::TickState;
use vstd::prelude::*;
use vstd::string::*;

verus! {

/// The batch size of a session that asks for none.
pub const DEFAULT_BATCH_SIZE: usize = 20;

/// The memory budget, in megabytes, of a downloader that is given none.
pub const DEFAULT_MEMORY_MB: u64 = 300;

/// The seconds between two ticks.
pub const TICK_INTERVAL_SECS: u64 = 1;

/// The seconds after which a request counts as failed.
pub const REQUEST_TIMEOUT_SECS: u64 = 30;

/// The batch size that a session asks for.
pub open spec fn requested_size(batch_size: Option<usize>) -> usize {
    match batch_size {
        Some(size) => size,
        None => DEFAULT_BATCH_SIZE,
    }
}

/// A download session. It sends no request and writes no file: the caller
/// does what each `Action` says and reports back with an `Event`.
#[derive(Debug)]
pub struct Downloader {
    download_dir: String,
    telemetry: TelemetryPolicy,
    budget: MemoryBudget,
    stats: StatsAggregator,
    tick: TickState,
    phase: Phase,
}

impl View for Downloader {
    type V = SessionModel;

    closed spec fn view(&self) -> SessionModel {
        SessionModel {
            download_dir: self.download_dir@,
            telemetry: self.telemetry,
            budget_mb: self.budget@,
            stats: self.stats@,
            previous_tick_end: self.tick@,
            phase: self.phase,
        }
    }
}

impl Downloader {
    #[verifier::type_invariant]
    spec fn keeps_phase_valid(self) -> bool {
        phase_is_valid(self.phase)
    }

    /// A downloader that writes to `download_dir` under a budget of
    /// `max_memory_mb` megabytes. The directory defaults to `downloads`, the
    /// budget to 300 MB. Memory figures are read once, at startup.
    pub fn new(download_dir: Option<String>, max_memory_mb: Option<u64>) -> (downloader: Downloader)
        ensures
            downloader@.download_dir == (match download_dir {
                Some(dir) => dir@,
                None => "downloads"@,
            }),
            downloader@.budget_mb == (match max_memory_mb {
                Some(limit) => limit,
                None => DEFAULT_MEMORY_MB,
            }),
            downloader@.stats == (SessionStats {
                total_files: 0,
                failed_downloads: 0,
                total_bytes: 0,
                start_time: None,
            }),
            downloader@.previous_tick_end is None,
            downloader@.phase is Idle,
            downloader@.telemetry is AtStartup,
    {
        let dir = match download_dir {
            Some(dir) => dir,
            None => String::from_str("downloads"),
        };
        let limit: u64 = match max_memory_mb {
            Some(limit) => limit,
            None => DEFAULT_MEMORY_MB,
        };
        Downloader {
            download_dir: dir,
            telemetry: TelemetryPolicy::AtStartup,
            budget: MemoryBudget::new(limit),
            stats: StatsAggregator::new(),
            tick: TickState::new(),
            phase: Phase::Idle,
        }
    }

    /// The same downloader with another telemetry policy. The policy is
    /// chosen before the session opens and holds for the whole run.
    pub fn with_telemetry(self, policy: TelemetryPolicy) -> (downloader: Downloader)
        requires
            self@.phase is Idle,
        ensures
            downloader@ == (SessionModel { telemetry: policy, ..self@ }),
    {
        proof {
            use_type_invariant(&self);
        }
        let mut downloader = self;
        downloader.telemetry = policy;
        downloader
    }

    /// When the caller is to read the memory figures.
    pub fn telemetry(&self) -> (policy: TelemetryPolicy)
        ensures
            policy == self@.telemetry,
    {
        self.telemetry
    }

    /// The phase of the session. A phase with a plan has one of at least
    /// one item per batch.
    pub fn phase(&self) -> (phase: Phase)
        ensures
            phase == self@.phase,
            phase_is_valid(phase),
    {
        proof {
            use_type_invariant(self);
        }
        self.phase
    }

    /// The plan of the session, once the probe has been answered and until
    /// the run is cancelled.
    pub fn plan(&self) -> (plan: Option<BatchPlan>)
        ensures
            plan == plan_of(self@.phase),
            plan matches Some(p) ==> p.size >= 1,
    {
        proof {
            use_type_invariant(self);
        }
        match self.phase {
            Phase::WaitTick { plan } => Some(plan),
            Phase::RunBatch { plan, .. } => Some(plan),
            Phase::Cleanup { plan } => Some(plan),
            _ => None,
        }
    }

    /// The counters of the session as they stand.
    pub fn snapshot(&self) -> (stats: SessionStats)
        ensures
            stats == self@.stats,
    {
        self.stats.snapshot()
    }

    /// The memory budget in megabytes; zero in disk-only mode.
    pub fn memory_budget_mb(&self) -> (limit: u64)
        ensures
            limit == self@.budget_mb,
    {
        self.budget.limit_mb()
    }

    /// The directory that content is spilled to.
    pub fn download_dir(&self) -> (dir: &str)
        ensures
            dir@ == self@.download_dir,
    {
        self.download_dir.as_str()
    }

    /// When the last tick ended, if one has.
    pub fn previous_tick_end(&self) -> (end: Option<u64>)
        ensures
            end == self@.previous_tick_end,
    {
        self.tick.previous_tick_end()
    }

    /// Opens the session for `url` with batches of `batch_size` items, 20
    /// where none is given. A target that begins with neither `http://` nor
    /// `https://` ends the session at once, before anything is asked of the
    /// network; every other target sets off the metadata probe.
    pub fn start(&mut self, url: &str, batch_size: Option<usize>) -> (first: Result<
        Action,
        StartupError,
    >)
        requires
            old(self)@.phase is Idle,
            requested_size(batch_size) >= 1,
        ensures
            is_valid_target(url@) ==> first == Ok::<Action, StartupError>(Action::Probe)
                && final(self)@ == (SessionModel {
                phase: Phase::Start { requested: requested_size(batch_size) },
                ..old(self)@
            }),
            !is_valid_target(url@) ==> first == Err::<Action, StartupError>(
                StartupError::InvalidTargetError,
            ) && final(self)@ == (SessionModel { phase: Phase::Terminated, ..old(self)@ }),
    {
        let requested: usize = match batch_size {
            Some(size) => size,
            None => DEFAULT_BATCH_SIZE,
        };
        match validate_target(url) {
            Ok(()) => {
                self.phase = Phase::Start { requested };
                Ok(Action::Probe)
            },
            Err(error) => {
                self.phase = Phase::Terminated;
                Err(error)
            },
        }
    }

    /// Takes the answer of the metadata probe: plans the batches, runs the
    /// feasibility check and stamps the session as started.
    fn on_probe(
        &mut self,
        requested: usize,
        content_length: &Option<String>,
        available_bytes: u64,
        now: u64,
    ) -> (action: Action)
        requires
            old(self)@.phase == (Phase::Start { requested }),
            requested >= 1,
        ensures
            (final(self)@, Some(action)) == transition(
                old(self)@,
                Event::Probed { content_length: *content_length, available_bytes },
                now,
            ),
    {
        let header: Option<&str> = match content_length {
            Some(text) => Some(text.as_str()),
            None => None,
        };
        match probe_size(header) {
            Err(error) => {
                self.phase = Phase::Terminated;
                Action::Abort { error }
            },
            Ok(size) => {
                let plan = plan_batch(requested, available_bytes, size);
                if !self.check_memory_availability(available_bytes, plan.size, size) {
                    self.budget.collapse();
                }
                self.stats.record_start(now);
                self.phase = Phase::WaitTick { plan };
                Action::Wait
            },
        }
    }

    /// Whether the session can take `event` at `now`.
    pub fn admits(&self, event: &Event, now: u64) -> (ok: bool)
        ensures
            ok == admits(self@, *event, now),
    {
        match self.phase {
            Phase::RunBatch { plan, tick_start } => match event {
                Event::BatchFinished { outcomes } => {
                    if outcomes.len() == plan.size {
                        self.tick.can_complete(tick_start, now) && self.stats.has_room_for(
                            outcomes,
                        )
                    } else {
                        true
                    }
                },
                _ => true,
            },
            _ => true,
        }
    }

    /// Takes `event` as reported at `now`, moves the session on and says
    /// what to do next. `None` says that the event does not belong to the
    /// current phase; the session is then as it was.
    pub fn step_at(&mut self, event: &Event, now: u64) -> (action: Option<Action>)
        requires
            admits(old(self)@, *event, now),
        ensures
            (final(self)@, action) == transition(old(self)@, *event, now),
    {
        proof {
            use_type_invariant(&*self);
        }
        match self.phase {
            Phase::Start { requested } => match event {
                Event::Probed { content_length, available_bytes } => Some(
                    self.on_probe(requested, content_length, *available_bytes, now),
                ),
                _ => None,
            },
            Phase::WaitTick { plan } => match event {
                Event::TimerElapsed => {
                    self.phase = Phase::RunBatch { plan, tick_start: now };
                    let refresh_telemetry = match self.telemetry {
                        TelemetryPolicy::EveryTick => true,
                        TelemetryPolicy::AtStartup => false,
                    };
                    Some(
                        Action::RunBatch {
                            size: plan.size,
                            budget_mb: self.budget.limit_mb(),
                            refresh_telemetry,
                        },
                    )
                },
                Event::CancelRequested => {
                    self.phase = Phase::Finalize;
                    Some(Action::Finalize { summary: self.stats.snapshot() })
                },
                _ => None,
            },
            Phase::RunBatch { plan, tick_start } => match event {
                Event::BatchFinished { outcomes } => {
                    if outcomes.len() == plan.size {
                        self.stats.record_batch(outcomes);
                        let report = self.tick.complete(plan.size, tick_start, now);
                        self.phase = Phase::Cleanup { plan };
                        Some(Action::Sweep { report })
                    } else {
                        None
                    }
                },
                _ => None,
            },
            Phase::Cleanup { plan } => match event {
                Event::Swept => {
                    self.phase = Phase::WaitTick { plan };
                    Some(Action::Wait)
                },
                _ => None,
            },
            Phase::Finalize => match event {
                Event::Swept => {
                    self.phase = Phase::Terminated;
                    Some(Action::Exit)
                },
                _ => None,
            },
            _ => None,
        }
    }

    /// Reads the clock and takes `event` as reported at that moment. The
    /// time that was read comes back with the action. Where the session
    /// cannot take the event at that time, nothing changes and there is no
    /// action.
    pub fn step(&mut self, event: &Event) -> (taken: (u64, Option<Action>))
        ensures
            admits(old(self)@, *event, taken.0) ==> (final(self)@, taken.1) == transition(
                old(self)@,
                *event,
                taken.0,
            ),
            !admits(old(self)@, *event, taken.0) ==> final(self)@ == old(self)@ && taken.1 is None,
    {
        let now: u64 = unix_now();
        if self.admits(event, now) {
            let action = self.step_at(event, now);
            (now, action)
        } else {
            (now, None)
        }
    }

    /// The feasibility check of the session: whether `batch_size` items of
    /// `estimated_file_size` bytes fit into `available_bytes` of memory.
    pub fn check_memory_availability(
        &self,
        available_bytes: u64,
        batch_size: usize,
        estimated_file_size: u64,
    ) -> (ok: bool)
        ensures
            ok == feasible(available_bytes as nat, batch_size as nat, estimated_file_size as nat),
    {
        check_feasible(available_bytes, batch_size, estimated_file_size)
    }

    /// Advances one download of the current batch by one observation, under
    /// the budget of the session.
    pub fn download_file(&self, state: ItemState, event: ItemEvent) -> (step: (
        ItemState,
        Option<ItemAction>,
    ))
        ensures
            step == item_transition(state, event, self@.budget_mb),
    {
        item_step(state, event, &self.budget)
    }

    /// One new destination in the download directory for each download in
    /// flight; none outside a batch.
    pub fn destinations(&self) -> (paths: Vec<String>)
        ensures
            paths@.len() == in_flight(self@.phase),
            forall|i: int|
                0 <= i < paths@.len() ==> is_destination(self@.download_dir, #[trigger] paths@[i]@),
    {
        let count: usize = match self.phase {
            Phase::RunBatch { plan, .. } => plan.size,
            _ => 0,
        };
        batch_destinations(self.download_dir.as_str(), count)
    }

    /// Picks from a listing of the download directory what a sweep removes:
    /// the positions of all regular files.
    pub fn cleanup_files(&self, entries: &Vec<EntryKind>) -> (targets: Vec<usize>)
        ensures
            targets@ == sweep_targets(entries@),
    {
        plan_sweep(entries)
    }

    /// The figures of the completion banner as of `now`.
    pub fn completion_banner_at(&self, now: u64) -> (banner: CompletionBanner)
        requires
            seconds_since_start(self@.stats, now) >= 0,
        ensures
            banner.total_files@ == en_grouped(self@.stats.total_files),
            banner.failed_downloads@ == en_grouped(self@.stats.failed_downloads),
            banner.total_bytes == self@.stats.total_bytes,
            banner.total_seconds == seconds_since_start(self@.stats, now),
    {
        let stats = self.stats.snapshot();
        completion_banner(&stats, now)
    }

    /// Reads the clock and gives the figures of the completion banner as of
    /// that moment, together with the time that was read. There is no
    /// banner where the clock reads a time before the start of the session.
    pub fn display_completion_banner(&self) -> (shown: (u64, Option<CompletionBanner>))
        ensures
            shown.1 is Some <==> seconds_since_start(self@.stats, shown.0) >= 0,
            shown.1 matches Some(banner) ==> {
                &&& banner.total_files@ == en_grouped(self@.stats.total_files)
                &&& banner.failed_downloads@ == en_grouped(self@.stats.failed_downloads)
                &&& banner.total_bytes == self@.stats.total_bytes
                &&& banner.total_seconds == seconds_since_start(self@.stats, shown.0)
            },
    {
        let now: u64 = unix_now();
        let started: u64 = match self.stats.snapshot().start_time {
            Some(start) => start,
            None => 0,
        };
        if now >= started {
            (now, Some(self.completion_banner_at(now)))
        } else {
            (now, None)
        }
    }
}

} // verus!
