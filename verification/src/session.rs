//! The session as a state machine: its phases, the events that the caller
//! reports, the actions it is told to perform, and the rule that connects
//! them.

use crate::outcome::DownloadOutcome;
use crate::sizing::{feasible, plan_is_valid, planned, BatchPlan};
use crate::stats::{has_room_for, stats_after, SessionStats};
use crate::target::{probed_size, StartupError};
use crate::tick::{reference_time, tick_report, TickReport};
use vstd::prelude::*;

verus! {

/// Where a session stands.
#[derive(Clone, Copy, Debug, PartialEq, Eq)]
pub enum Phase {
    /// Nothing has been asked of the session yet.
    Idle,
    /// The target was accepted; the answer of the metadata probe is awaited.
    Start { requested: usize },
    /// Between ticks: the timer runs and a cancellation is listened for.
    WaitTick { plan: BatchPlan },
    /// A batch is in flight since `tick_start`.
    RunBatch { plan: BatchPlan, tick_start: u64 },
    /// The batch is over; the download directory is being swept.
    Cleanup { plan: BatchPlan },
    /// The run was cancelled; the summary is printed and the directory is
    /// swept one last time.
    Finalize,
    /// The session is over.
    Terminated,
}

/// When the caller reads the memory figures that the placement of items
/// goes by.
#[derive(Clone, Copy, Debug, PartialEq, Eq)]
pub enum TelemetryPolicy {
    /// Once, at startup; every tick goes by that reading.
    AtStartup,
    /// Anew before every batch.
    EveryTick,
}

/// What the caller reports to the session.
#[derive(Debug, PartialEq, Eq)]
pub enum Event {
    /// The metadata probe is over: the value of the size header, if the
    /// response had one, and the memory that the system has available, in
    /// bytes.
    Probed { content_length: Option<String>, available_bytes: u64 },
    /// The interval between two ticks has passed.
    TimerElapsed,
    /// The operator asked for the run to end.
    CancelRequested,
    /// Every item of the batch has come to its outcome.
    BatchFinished { outcomes: Vec<DownloadOutcome> },
    /// The download directory has been swept.
    Swept,
}

/// What the session asks of the caller.
#[derive(Clone, Copy, Debug, PartialEq, Eq)]
pub enum Action {
    /// Ask the server for the size of the resource and read the available
    /// memory, then report `Probed`.
    Probe,
    /// Report `error` to the operator and end with a failure status.
    Abort { error: StartupError },
    /// Wait for the timer or for a cancellation, whichever comes first.
    Wait,
    /// Run `size` downloads at once under a budget of `budget_mb` megabytes,
    /// then report `BatchFinished`. With `refresh_telemetry` the memory
    /// figures are read anew before the batch starts.
    RunBatch { size: usize, budget_mb: u64, refresh_telemetry: bool },
    /// Show `report`, sweep the download directory, then report `Swept`.
    Sweep { report: TickReport },
    /// Print `summary`, sweep the download directory, then report `Swept`.
    Finalize { summary: SessionStats },
    /// End with a success status.
    Exit,
}

/// Everything a session knows.
pub struct SessionModel {
    /// The directory that content is spilled to.
    pub download_dir: Seq<char>,
    /// When the caller reads the memory figures.
    pub telemetry: TelemetryPolicy,
    /// The memory budget in megabytes; zero in disk-only mode.
    pub budget_mb: u64,
    /// The counters of the session.
    pub stats: SessionStats,
    /// When the last tick ended, if one has.
    pub previous_tick_end: Option<u64>,
    /// Where the session stands.
    pub phase: Phase,
}

/// The plan of a session, once it has one and while it runs.
pub open spec fn plan_of(phase: Phase) -> Option<BatchPlan> {
    match phase {
        Phase::WaitTick { plan } => Some(plan),
        Phase::RunBatch { plan, .. } => Some(plan),
        Phase::Cleanup { plan } => Some(plan),
        _ => None,
    }
}

/// The downloads that are in flight.
pub open spec fn in_flight(phase: Phase) -> nat {
    match phase {
        Phase::RunBatch { plan, .. } => plan.size as nat,
        _ => 0,
    }
}

/// The downloads that an action sets off.
pub open spec fn issued_by(action: Option<Action>) -> nat {
    match action {
        Some(Action::RunBatch { size, .. }) => size as nat,
        _ => 0,
    }
}

/// What every phase of a running session keeps: a request of at least one
/// item, and a plan of at least one item per batch.
pub open spec fn phase_is_valid(phase: Phase) -> bool {
    match phase {
        Phase::Start { requested } => requested >= 1,
        Phase::WaitTick { plan } => plan_is_valid(plan),
        Phase::RunBatch { plan, .. } => plan_is_valid(plan),
        Phase::Cleanup { plan } => plan_is_valid(plan),
        _ => true,
    }
}

/// The text of a size header.
pub open spec fn header_text(content_length: Option<String>) -> Option<Seq<char>> {
    match content_length {
        Some(text) => Some(text@),
        None => None,
    }
}

/// The session after the metadata probe. Without a size the session ends.
/// With one, the batches are planned, the budget drops to zero where a whole
/// batch does not fit into memory, and the session is stamped as started.
pub open spec fn after_probe(
    pre: SessionModel,
    requested: usize,
    header: Option<Seq<char>>,
    available_bytes: u64,
    now: u64,
) -> (SessionModel, Option<Action>) {
    match probed_size(header) {
        None => (
            SessionModel { phase: Phase::Terminated, ..pre },
            Some(Action::Abort { error: StartupError::SizeUnavailableError }),
        ),
        Some(size) => {
            let plan = planned(requested, available_bytes, size);
            (
                SessionModel {
                    phase: Phase::WaitTick { plan },
                    budget_mb: if feasible(available_bytes as nat, plan.size as nat, size as nat) {
                        pre.budget_mb
                    } else {
                        0
                    },
                    stats: SessionStats { start_time: Some(now), ..pre.stats },
                    ..pre
                },
                Some(Action::Wait),
            )
        },
    }
}

/// The session after a batch of `plan.size` outcomes.
pub open spec fn after_batch(
    pre: SessionModel,
    plan: BatchPlan,
    tick_start: u64,
    outcomes: Seq<DownloadOutcome>,
    now: u64,
) -> (SessionModel, Option<Action>) {
    (
        SessionModel {
            phase: Phase::Cleanup { plan },
            stats: stats_after(pre.stats, outcomes),
            previous_tick_end: Some(now),
            ..pre
        },
        Some(
            Action::Sweep {
                report: tick_report(pre.previous_tick_end, plan.size, tick_start, now),
            },
        ),
    )
}

/// The rule of the session: the state after `event` was reported at `now`,
/// and the action to perform. An event that the current phase does not wait
/// for changes nothing and yields no action; a cancellation counts only
/// between ticks, and a batch only with one outcome for each of its items.
pub open spec fn transition(pre: SessionModel, event: Event, now: u64) -> (
    SessionModel,
    Option<Action>,
) {
    match (pre.phase, event) {
        (Phase::Start { requested }, Event::Probed { content_length, available_bytes }) => after_probe(
            pre,
            requested,
            header_text(content_length),
            available_bytes,
            now,
        ),
        (Phase::WaitTick { plan }, Event::TimerElapsed) => (
            SessionModel { phase: Phase::RunBatch { plan, tick_start: now }, ..pre },
            Some(
                Action::RunBatch {
                    size: plan.size,
                    budget_mb: pre.budget_mb,
                    refresh_telemetry: pre.telemetry is EveryTick,
                },
            ),
        ),
        (Phase::WaitTick { .. }, Event::CancelRequested) => (
            SessionModel { phase: Phase::Finalize, ..pre },
            Some(Action::Finalize { summary: pre.stats }),
        ),
        (Phase::RunBatch { plan, tick_start }, Event::BatchFinished { outcomes }) => if outcomes@.len()
            == plan.size {
            after_batch(pre, plan, tick_start, outcomes@, now)
        } else {
            (pre, None)
        },
        (Phase::Cleanup { plan }, Event::Swept) => (
            SessionModel { phase: Phase::WaitTick { plan }, ..pre },
            Some(Action::Wait),
        ),
        (Phase::Finalize, Event::Swept) => (
            SessionModel { phase: Phase::Terminated, ..pre },
            Some(Action::Exit),
        ),
        _ => (pre, None),
    }
}

/// Whether the session can take `event` at `now`. Only the end of a batch
/// asks for anything: the clock must not have gone back behind the moment
/// the tick is timed from, and the counters must have room for the
/// outcomes.
pub open spec fn admits(pre: SessionModel, event: Event, now: u64) -> bool {
    match (pre.phase, event) {
        (Phase::RunBatch { plan, tick_start }, Event::BatchFinished { outcomes }) => outcomes@.len()
            == plan.size ==> {
            &&& now >= reference_time(pre.previous_tick_end, tick_start)
            &&& has_room_for(pre.stats, outcomes@)
        },
        _ => true,
    }
}

/// One report to the session: the event and the time it was made at.
pub struct Report {
    pub event: Event,
    pub now: u64,
}

/// The session after a sequence of reports.
pub open spec fn run(pre: SessionModel, reports: Seq<Report>) -> SessionModel
    decreases reports.len(),
{
    if reports.len() == 0 {
        pre
    } else {
        transition(run(pre, reports.drop_last()), reports.last().event, reports.last().now).0
    }
}

/// Whether the session can take each of `reports` in its turn.
pub open spec fn admits_all(pre: SessionModel, reports: Seq<Report>) -> bool
    decreases reports.len(),
{
    if reports.len() == 0 {
        true
    } else {
        &&& admits_all(pre, reports.drop_last())
        &&& admits(run(pre, reports.drop_last()), reports.last().event, reports.last().now)
    }
}

/// The downloads that a sequence of reports sets off.
pub open spec fn issued_during(pre: SessionModel, reports: Seq<Report>) -> nat
    decreases reports.len(),
{
    if reports.len() == 0 {
        0
    } else {
        issued_during(pre, reports.drop_last()) + issued_by(
            transition(run(pre, reports.drop_last()), reports.last().event, reports.last().now).1,
        )
    }
}

/// No step breaks what a phase must keep. A session that has a plan keeps
/// that very plan for as long as it runs: the plan is made once and used
/// for every tick. The directory and the telemetry policy never change.
pub proof fn lemma_step_keeps_plan(pre: SessionModel, event: Event, now: u64)
    requires
        phase_is_valid(pre.phase),
    ensures
        phase_is_valid(transition(pre, event, now).0.phase),
        plan_of(pre.phase) is Some && plan_of(transition(pre, event, now).0.phase) is Some
            ==> plan_of(transition(pre, event, now).0.phase) == plan_of(pre.phase),
        transition(pre, event, now).0.download_dir == pre.download_dir,
        transition(pre, event, now).0.telemetry == pre.telemetry,
{
    match (pre.phase, event) {
        (Phase::Start { requested }, Event::Probed { content_length, available_bytes }) => {
            match probed_size(header_text(content_length)) {
                Some(size) => {
                    crate::sizing::lemma_planned_is_valid(requested, available_bytes, size);
                },
                None => {},
            }
        },
        _ => {},
    }
}

/// The budget never grows. It changes at one point only, the end of the
/// metadata probe, and there it can only drop to zero.
pub proof fn lemma_budget_only_collapses(pre: SessionModel, event: Event, now: u64)
    ensures
        transition(pre, event, now).0.budget_mb == pre.budget_mb || (pre.phase is Start
            && transition(pre, event, now).0.budget_mb == 0),
        transition(pre, event, now).0.budget_mb <= pre.budget_mb,
{
}

/// The feasibility check decides the mode of the session: where a whole
/// batch does not fit into the available memory, the session leaves the
/// probe with a budget of zero.
pub proof fn lemma_infeasible_start_is_disk_only(
    pre: SessionModel,
    content_length: Option<String>,
    available_bytes: u64,
    now: u64,
)
    requires
        pre.phase is Start,
    ensures
        ({
            let post = transition(pre, Event::Probed { content_length, available_bytes }, now).0;
            post.phase matches Phase::WaitTick { plan } ==> {
                &&& probed_size(header_text(content_length)) == Some(plan.estimated_item_size)
                &&& post.budget_mb == if feasible(
                    available_bytes as nat,
                    plan.size as nat,
                    plan.estimated_item_size as nat,
                ) {
                    pre.budget_mb
                } else {
                    0
                }
            }
        }),
{
}

/// Once the session is in disk-only mode it stays there: after any reports
/// the budget is still zero, so every batch that is set off runs under a
/// budget of zero.
pub proof fn lemma_disk_only_is_permanent(pre: SessionModel, reports: Seq<Report>)
    requires
        pre.budget_mb == 0,
    ensures
        run(pre, reports).budget_mb == 0,
        forall|event: Event, now: u64|
            (#[trigger] transition(run(pre, reports), event, now)).1 matches Some(
                Action::RunBatch { budget_mb, .. },
            ) ==> budget_mb == 0,
    decreases reports.len(),
{
    if reports.len() > 0 {
        lemma_disk_only_is_permanent(pre, reports.drop_last());
        lemma_budget_only_collapses(
            run(pre, reports.drop_last()),
            reports.last().event,
            reports.last().now,
        );
    }
}

/// A probe that brings no size ends the session: the caller is told to
/// abort with `SizeUnavailableError`, nothing is planned, and the session
/// does not count as started.
pub proof fn lemma_probe_without_size_ends_the_session(
    pre: SessionModel,
    content_length: Option<String>,
    available_bytes: u64,
    now: u64,
)
    requires
        pre.phase is Start,
        probed_size(header_text(content_length)) is None,
    ensures
        transition(pre, Event::Probed { content_length, available_bytes }, now) == (
            SessionModel { phase: Phase::Terminated, ..pre },
            Some(Action::Abort { error: StartupError::SizeUnavailableError }),
        ),
{
}

/// A session that is over asks for nothing more: no report changes it or
/// yields an action. After a fatal error no request is made and no batch
/// runs.
pub proof fn lemma_terminated_is_final(pre: SessionModel, reports: Seq<Report>)
    requires
        pre.phase is Terminated,
    ensures
        run(pre, reports) == pre,
        forall|event: Event, now: u64| #[trigger]
            transition(run(pre, reports), event, now) == (pre, None::<Action>),
        issued_during(pre, reports) == 0,
    decreases reports.len(),
{
    if reports.len() > 0 {
        lemma_terminated_is_final(pre, reports.drop_last());
    }
}

/// A cancellation is seen between ticks only. In every other phase it
/// changes nothing, so a batch in flight always runs to its end.
pub proof fn lemma_cancellation_waits_for_the_tick(pre: SessionModel, now: u64)
    ensures
        !(pre.phase is WaitTick) ==> transition(pre, Event::CancelRequested, now) == (
            pre,
            None::<Action>,
        ),
        pre.phase is WaitTick ==> transition(pre, Event::CancelRequested, now).0.phase
            is Finalize,
{
}

/// No outcome of an item ends the run: a batch with one outcome for each of
/// its items leads to the sweep, however many of them failed.
pub proof fn lemma_failures_do_not_stop_the_run(
    pre: SessionModel,
    outcomes: Vec<DownloadOutcome>,
    now: u64,
)
    requires
        pre.phase is RunBatch,
        outcomes@.len() == in_flight(pre.phase),
    ensures
        transition(pre, Event::BatchFinished { outcomes }, now).0.phase is Cleanup,
        transition(pre, Event::BatchFinished { outcomes }, now).1 matches Some(Action::Sweep { .. }),
{
}

/// One step keeps the books: the downloads counted as files or as failures,
/// together with those in flight, grow by exactly the downloads that the
/// step sets off. A batch of `n` outcomes with `f` failures adds `n - f`
/// files and `f` failures.
pub proof fn lemma_step_accounts_for_attempts(pre: SessionModel, event: Event, now: u64)
    requires
        admits(pre, event, now),
    ensures
        ({
            let (post, action) = transition(pre, event, now);
            post.stats.total_files + post.stats.failed_downloads + in_flight(post.phase)
                == pre.stats.total_files + pre.stats.failed_downloads + in_flight(pre.phase)
                + issued_by(action)
        }),
{
    match (pre.phase, event) {
        (Phase::RunBatch { plan, tick_start }, Event::BatchFinished { outcomes }) => {
            crate::stats::lemma_every_outcome_counted(outcomes@);
        },
        _ => {},
    }
}

/// Over a whole run, every download that was set off is counted exactly
/// once, as a file or as a failure, unless it is still in flight.
pub proof fn lemma_run_accounts_for_attempts(pre: SessionModel, reports: Seq<Report>)
    requires
        admits_all(pre, reports),
    ensures
        run(pre, reports).stats.total_files + run(pre, reports).stats.failed_downloads + in_flight(
            run(pre, reports).phase,
        ) == pre.stats.total_files + pre.stats.failed_downloads + in_flight(pre.phase)
            + issued_during(pre, reports),
    decreases reports.len(),
{
    if reports.len() > 0 {
        lemma_run_accounts_for_attempts(pre, reports.drop_last());
        lemma_step_accounts_for_attempts(
            run(pre, reports.drop_last()),
            reports.last().event,
            reports.last().now,
        );
    }
}

} // verus!
