//! The time between ticks and the throughput of one tick.

use vstd::prelude::*;

verus! {

/// What one tick achieved. The throughput of the tick is `batch_size / per`
/// items per second.
#[derive(Clone, Copy, Debug, PartialEq, Eq)]
pub struct TickReport {
    /// The items of the batch.
    pub batch_size: usize,
    /// The seconds that the tick is charged with.
    pub elapsed: u64,
    /// The divisor of the throughput: `elapsed`, or one where that is zero.
    pub per: u64,
}

/// The moment from which a tick is timed: the end of the tick before it, or
/// its own start where it is the first.
pub open spec fn reference_time(previous_tick_end: Option<u64>, tick_start: u64) -> u64 {
    match previous_tick_end {
        Some(end) => end,
        None => tick_start,
    }
}

/// The report of a tick of `batch_size` items that started at `tick_start`
/// and ended at `now`.
pub open spec fn tick_report(
    previous_tick_end: Option<u64>,
    batch_size: usize,
    tick_start: u64,
    now: u64,
) -> TickReport
    recommends
        now >= reference_time(previous_tick_end, tick_start),
{
    let elapsed = now - reference_time(previous_tick_end, tick_start);
    TickReport {
        batch_size,
        elapsed: elapsed as u64,
        per: if elapsed > 0 {
            elapsed as u64
        } else {
            1
        },
    }
}

/// Remembers when the last tick ended. Before the first tick has ended there
/// is no such moment.
#[derive(Debug)]
pub struct TickState {
    previous_tick_end: Option<u64>,
}

impl View for TickState {
    type V = Option<u64>;

    closed spec fn view(&self) -> Option<u64> {
        self.previous_tick_end
    }
}

impl TickState {
    /// The state before any tick.
    pub fn new() -> (state: TickState)
        ensures
            state@ is None,
    {
        TickState { previous_tick_end: None }
    }

    /// When the last tick ended, if one has.
    pub fn previous_tick_end(&self) -> (end: Option<u64>)
        ensures
            end == self@,
    {
        self.previous_tick_end
    }

    /// Whether a tick that started at `tick_start` can end at `now`: the
    /// clock must not have gone back behind the moment the tick is timed
    /// from.
    pub fn can_complete(&self, tick_start: u64, now: u64) -> (ok: bool)
        ensures
            ok == (now >= reference_time(self@, tick_start)),
    {
        match self.previous_tick_end {
            Some(end) => now >= end,
            None => now >= tick_start,
        }
    }

    /// Ends a tick at `now` and reports on it.
    pub fn complete(&mut self, batch_size: usize, tick_start: u64, now: u64) -> (report: TickReport)
        requires
            now >= reference_time(old(self)@, tick_start),
        ensures
            final(self)@ == Some(now),
            report == tick_report(old(self)@, batch_size, tick_start, now),
            report.elapsed == now - reference_time(old(self)@, tick_start),
            report.per >= 1,
        no_unwind
    {
        let reference: u64 = match self.previous_tick_end {
            Some(end) => end,
            None => tick_start,
        };
        let elapsed: u64 = now - reference;
        self.previous_tick_end = Some(now);
        TickReport {
            batch_size,
            elapsed,
            per: if elapsed > 0 {
                elapsed
            } else {
                1
            },
        }
    }
}

} // verus!
