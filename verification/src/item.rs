//! One download attempt as a state machine.
//!
//! The caller sends the request, reads the body and writes the file. After
//! each of these it reports what happened as an `ItemEvent` and is told what
//! to do next.

use crate::budget::{fits_in_memory, placement_of, MemoryBudget};
use crate::outcome::{DownloadOutcome, FailureKind, Placement};
use vstd::prelude::*;

verus! {

/// How far one download attempt has come.
#[derive(Clone, Copy, Debug, PartialEq, Eq)]
pub enum ItemState {
    /// The request is out; no response has been seen.
    AwaitingResponse,
    /// A success status arrived; the body is being read.
    AwaitingBody,
    /// The body of `bytes` bytes is being written to disk.
    AwaitingPersist { bytes: u64 },
    /// The attempt is over.
    Done { outcome: DownloadOutcome },
}

/// What the caller observed for one download attempt.
#[derive(Clone, Copy, Debug, PartialEq, Eq)]
pub enum ItemEvent {
    /// The request failed before a response arrived.
    TransportFailed,
    /// A response arrived with this status code.
    Responded { status: u16 },
    /// Reading the body failed.
    BodyFailed,
    /// The body was read: its length, and the resident memory of the
    /// process measured right after.
    BodyRead { bytes: u64, process_bytes: u64 },
    /// Writing the content to disk failed.
    PersistFailed,
    /// The content was written to disk.
    Persisted,
}

/// What the caller does next for one download attempt.
#[derive(Clone, Copy, Debug, PartialEq, Eq)]
pub enum ItemAction {
    /// Read the whole response body into memory.
    ReadBody,
    /// Write the body to the item's destination file.
    Persist,
    /// Drop the body, advance the progress indicator by `progress` and hand
    /// `outcome` to the session statistics.
    Finish { outcome: DownloadOutcome, progress: u64 },
}

/// Status codes that count as success.
pub open spec fn is_success_status(status: u16) -> bool {
    200 <= status <= 299
}

/// The attempt ends with `outcome`.
pub open spec fn finish_with(outcome: DownloadOutcome) -> (ItemState, Option<ItemAction>) {
    (
        ItemState::Done { outcome },
        Some(ItemAction::Finish { outcome, progress: outcome.progress() as u64 }),
    )
}

/// The next state and action of an attempt. An event that does not answer
/// what the attempt is waiting for changes nothing and yields no action.
pub open spec fn item_transition(state: ItemState, event: ItemEvent, budget_mb: u64) -> (
    ItemState,
    Option<ItemAction>,
) {
    match (state, event) {
        (ItemState::AwaitingResponse, ItemEvent::TransportFailed) => finish_with(
            DownloadOutcome::Failure { kind: FailureKind::NetworkError },
        ),
        (ItemState::AwaitingResponse, ItemEvent::Responded { status }) => if is_success_status(
            status,
        ) {
            (ItemState::AwaitingBody, Some(ItemAction::ReadBody))
        } else {
            finish_with(DownloadOutcome::Failure { kind: FailureKind::HttpStatusError(status) })
        },
        (ItemState::AwaitingBody, ItemEvent::BodyFailed) => finish_with(
            DownloadOutcome::Failure { kind: FailureKind::BodyReadError },
        ),
        (ItemState::AwaitingBody, ItemEvent::BodyRead { bytes, process_bytes }) => match placement_of(
            process_bytes as nat,
            bytes as nat,
            budget_mb as nat,
        ) {
            Placement::Memory => finish_with(
                DownloadOutcome::Success { bytes, placement: Placement::Memory },
            ),
            Placement::Disk => (ItemState::AwaitingPersist { bytes }, Some(ItemAction::Persist)),
        },
        (ItemState::AwaitingPersist { bytes }, ItemEvent::Persisted) => finish_with(
            DownloadOutcome::Success { bytes, placement: Placement::Disk },
        ),
        (ItemState::AwaitingPersist { .. }, ItemEvent::PersistFailed) => finish_with(
            DownloadOutcome::Failure { kind: FailureKind::DiskWriteError },
        ),
        _ => (state, None),
    }
}

/// What the outside world has in store for one attempt: each answer it
/// would give if the attempt came to ask for it.
pub struct ItemObservation {
    /// Whether a response arrives at all.
    pub transport_ok: bool,
    /// The status code of the response.
    pub status: u16,
    /// The length of the body, or `None` where reading it fails.
    pub body: Option<u64>,
    /// The resident memory of the process once the body is read.
    pub process_bytes: u64,
    /// Whether writing the content to disk works.
    pub persist_ok: bool,
}

/// The outcome of an attempt, told in one go: the first thing that goes
/// wrong decides; content that fits the budget stays in memory, other
/// content is written to disk.
pub open spec fn described_outcome(seen: ItemObservation, budget_mb: u64) -> DownloadOutcome {
    if !seen.transport_ok {
        DownloadOutcome::Failure { kind: FailureKind::NetworkError }
    } else if !is_success_status(seen.status) {
        DownloadOutcome::Failure { kind: FailureKind::HttpStatusError(seen.status) }
    } else {
        match seen.body {
            None => DownloadOutcome::Failure { kind: FailureKind::BodyReadError },
            Some(bytes) => if fits_in_memory(
                seen.process_bytes as nat,
                bytes as nat,
                budget_mb as nat,
            ) {
                DownloadOutcome::Success { bytes, placement: Placement::Memory }
            } else if seen.persist_ok {
                DownloadOutcome::Success { bytes, placement: Placement::Disk }
            } else {
                DownloadOutcome::Failure { kind: FailureKind::DiskWriteError }
            },
        }
    }
}

/// The event with which the outside world answers an attempt in `state`.
pub open spec fn answer_to(state: ItemState, seen: ItemObservation) -> ItemEvent {
    match state {
        ItemState::AwaitingResponse => if seen.transport_ok {
            ItemEvent::Responded { status: seen.status }
        } else {
            ItemEvent::TransportFailed
        },
        ItemState::AwaitingBody => match seen.body {
            Some(bytes) => ItemEvent::BodyRead { bytes, process_bytes: seen.process_bytes },
            None => ItemEvent::BodyFailed,
        },
        _ => if seen.persist_ok {
            ItemEvent::Persisted
        } else {
            ItemEvent::PersistFailed
        },
    }
}

/// The state of an attempt after the outside world has answered once.
pub open spec fn answered(state: ItemState, seen: ItemObservation, budget_mb: u64) -> ItemState {
    item_transition(state, answer_to(state, seen), budget_mb).0
}

/// An attempt is over after at most three answers, and it ends in the
/// outcome that `described_outcome` tells.
pub proof fn lemma_attempt_ends_as_described(seen: ItemObservation, budget_mb: u64)
    ensures
        answered(
            answered(answered(ItemState::AwaitingResponse, seen, budget_mb), seen, budget_mb),
            seen,
            budget_mb,
        ) == (ItemState::Done { outcome: described_outcome(seen, budget_mb) }),
{
}

/// A finished attempt stays finished: no event changes its outcome or asks
/// for more work, so a failed item is never retried.
pub proof fn lemma_done_is_final(outcome: DownloadOutcome, event: ItemEvent, budget_mb: u64)
    ensures
        item_transition(ItemState::Done { outcome }, event, budget_mb) == (
            ItemState::Done { outcome },
            None::<ItemAction>,
        ),
{
}

/// The progress indicator advances by one for a success and not at all for
/// a failure, wherever the content was placed.
pub proof fn lemma_progress_counts_successes(state: ItemState, event: ItemEvent, budget_mb: u64)
    ensures
        item_transition(state, event, budget_mb).1 matches Some(
            ItemAction::Finish { outcome, progress },
        ) ==> progress == (if outcome is Success {
            1u64
        } else {
            0u64
        }),
{
}

/// In disk-only mode no attempt ends with its content in memory: every body
/// that was read is sent to disk.
pub proof fn lemma_disk_only_never_keeps_in_memory(state: ItemState, event: ItemEvent)
    ensures
        item_transition(state, event, 0).1 matches Some(ItemAction::Finish { outcome, .. })
            ==> !(outcome matches DownloadOutcome::Success { placement: Placement::Memory, .. }),
        (state is AwaitingBody && event is BodyRead) ==> item_transition(state, event, 0).1 == Some(
            ItemAction::Persist,
        ),
{
}

/// The state of an attempt whose request has just been sent.
pub fn begin_item() -> (state: ItemState)
    ensures
        state == ItemState::AwaitingResponse,
{
    ItemState::AwaitingResponse
}

fn finish(outcome: DownloadOutcome) -> (step: (ItemState, Option<ItemAction>))
    ensures
        step == finish_with(outcome),
{
    let progress: u64 = if outcome.is_success() {
        1
    } else {
        0
    };
    (ItemState::Done { outcome }, Some(ItemAction::Finish { outcome, progress }))
}

/// Advances one download attempt by one observation.
pub fn item_step(state: ItemState, event: ItemEvent, budget: &MemoryBudget) -> (step: (
    ItemState,
    Option<ItemAction>,
))
    ensures
        step == item_transition(state, event, budget@),
        step.1 is None ==> step.0 == state,
        (step.0 is Done && !(state is Done)) <==> step.1 matches Some(ItemAction::Finish { .. }),
{
    match state {
        ItemState::AwaitingResponse => match event {
            ItemEvent::TransportFailed => finish(
                DownloadOutcome::Failure { kind: FailureKind::NetworkError },
            ),
            ItemEvent::Responded { status } => {
                if 200 <= status && status <= 299 {
                    (ItemState::AwaitingBody, Some(ItemAction::ReadBody))
                } else {
                    finish(
                        DownloadOutcome::Failure { kind: FailureKind::HttpStatusError(status) },
                    )
                }
            },
            _ => (state, None),
        },
        ItemState::AwaitingBody => match event {
            ItemEvent::BodyFailed => finish(
                DownloadOutcome::Failure { kind: FailureKind::BodyReadError },
            ),
            ItemEvent::BodyRead { bytes, process_bytes } => {
                match budget.placement_for(process_bytes, bytes) {
                    Placement::Memory => finish(
                        DownloadOutcome::Success { bytes, placement: Placement::Memory },
                    ),
                    Placement::Disk => (
                        ItemState::AwaitingPersist { bytes },
                        Some(ItemAction::Persist),
                    ),
                }
            },
            _ => (state, None),
        },
        ItemState::AwaitingPersist { bytes } => match event {
            ItemEvent::Persisted => finish(
                DownloadOutcome::Success { bytes, placement: Placement::Disk },
            ),
            ItemEvent::PersistFailed => finish(
                DownloadOutcome::Failure { kind: FailureKind::DiskWriteError },
            ),
            _ => (state, None),
        },
        ItemState::Done { .. } => (state, None),
    }
}

} // verus!
