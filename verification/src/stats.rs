//! Session statistics and the operations that update them.

use crate::outcome::DownloadOutcome;
use vstd::prelude::*;

verus! {

/// The counters of a session.
#[derive(Clone, Copy, Debug, PartialEq, Eq)]
pub struct SessionStats {
    /// Downloads that succeeded.
    pub total_files: u64,
    /// Downloads that failed.
    pub failed_downloads: u64,
    /// Bytes of all successful downloads, wherever they were placed.
    pub total_bytes: u64,
    /// When the session started, once it has.
    pub start_time: Option<u64>,
}

/// How many of `outcomes` are successes.
pub open spec fn successes(outcomes: Seq<DownloadOutcome>) -> nat
    decreases outcomes.len(),
{
    if outcomes.len() == 0 {
        0
    } else {
        successes(outcomes.drop_last()) + outcomes.last().progress()
    }
}

/// How many of `outcomes` are failures.
pub open spec fn failures(outcomes: Seq<DownloadOutcome>) -> nat
    decreases outcomes.len(),
{
    if outcomes.len() == 0 {
        0
    } else {
        failures(outcomes.drop_last()) + (if outcomes.last() is Failure {
            1nat
        } else {
            0nat
        })
    }
}

/// The bytes of all successes among `outcomes`.
pub open spec fn success_bytes(outcomes: Seq<DownloadOutcome>) -> nat
    decreases outcomes.len(),
{
    if outcomes.len() == 0 {
        0
    } else {
        success_bytes(outcomes.drop_last()) + outcomes.last().counted_bytes()
    }
}

/// Whether the counters can take `outcomes` without leaving `u64`.
pub open spec fn has_room_for(stats: SessionStats, outcomes: Seq<DownloadOutcome>) -> bool {
    &&& stats.total_files + successes(outcomes) <= u64::MAX
    &&& stats.failed_downloads + failures(outcomes) <= u64::MAX
    &&& stats.total_bytes + success_bytes(outcomes) <= u64::MAX
}

/// The counters after `outcomes` have been recorded.
pub open spec fn stats_after(stats: SessionStats, outcomes: Seq<DownloadOutcome>) -> SessionStats
    recommends
        has_room_for(stats, outcomes),
{
    SessionStats {
        total_files: (stats.total_files + successes(outcomes)) as u64,
        failed_downloads: (stats.failed_downloads + failures(outcomes)) as u64,
        total_bytes: (stats.total_bytes + success_bytes(outcomes)) as u64,
        start_time: stats.start_time,
    }
}

/// Every outcome is a success or a failure, never both and never neither.
pub proof fn lemma_every_outcome_counted(outcomes: Seq<DownloadOutcome>)
    ensures
        successes(outcomes) + failures(outcomes) == outcomes.len(),
    decreases outcomes.len(),
{
    if outcomes.len() > 0 {
        lemma_every_outcome_counted(outcomes.drop_last());
    }
}

/// The tallies of a sequence with one more outcome at its end.
pub proof fn lemma_tally_push(outcomes: Seq<DownloadOutcome>, outcome: DownloadOutcome)
    ensures
        successes(outcomes.push(outcome)) == successes(outcomes) + outcome.progress(),
        failures(outcomes.push(outcome)) == failures(outcomes) + (if outcome is Failure {
            1nat
        } else {
            0nat
        }),
        success_bytes(outcomes.push(outcome)) == success_bytes(outcomes) + outcome.counted_bytes(),
{
    assert(outcomes.push(outcome).drop_last() =~= outcomes);
}

/// The tallies of a sequence from which the outcome at `index` is taken out.
pub proof fn lemma_tally_remove(outcomes: Seq<DownloadOutcome>, index: int)
    requires
        0 <= index < outcomes.len(),
    ensures
        successes(outcomes) == successes(outcomes.remove(index)) + outcomes[index].progress(),
        failures(outcomes) == failures(outcomes.remove(index)) + (if outcomes[index] is Failure {
            1nat
        } else {
            0nat
        }),
        success_bytes(outcomes) == success_bytes(outcomes.remove(index))
            + outcomes[index].counted_bytes(),
    decreases outcomes.len(),
{
    if index == outcomes.len() - 1 {
        assert(outcomes.remove(index) =~= outcomes.drop_last());
    } else {
        lemma_tally_remove(outcomes.drop_last(), index);
        assert(outcomes.remove(index).drop_last() =~= outcomes.drop_last().remove(index));
        assert(outcomes.remove(index).last() == outcomes.last());
    }
}

/// The order in which the items of a tick complete does not matter: two
/// sequences with the same outcomes, each as often as in the other, give the
/// same tallies, and so the same counters whatever they are recorded on.
pub proof fn lemma_tally_ignores_order(first: Seq<DownloadOutcome>, second: Seq<DownloadOutcome>)
    requires
        first.to_multiset() == second.to_multiset(),
    ensures
        successes(first) == successes(second),
        failures(first) == failures(second),
        success_bytes(first) == success_bytes(second),
        forall|stats: SessionStats| #[trigger]
            stats_after(stats, first) == stats_after(stats, second),
    decreases first.len(),
{
    vstd::seq_lib::to_multiset_len(first);
    vstd::seq_lib::to_multiset_len(second);
    if first.len() > 0 {
        let last = first.last();
        let end = first.len() - 1;
        assert(first[end] == last);
        vstd::seq_lib::to_multiset_contains(first, last);
        vstd::seq_lib::to_multiset_contains(second, last);
        let index = choose|i: int| 0 <= i < second.len() && second[i] == last;
        vstd::seq_lib::to_multiset_remove(first, end);
        vstd::seq_lib::to_multiset_remove(second, index);
        assert(first.drop_last() =~= first.remove(end));
        lemma_tally_ignores_order(first.drop_last(), second.remove(index));
        lemma_tally_remove(second, index);
    }
}

/// Recording two batches one after the other is recording them as one.
pub proof fn lemma_tally_concat(first: Seq<DownloadOutcome>, second: Seq<DownloadOutcome>)
    ensures
        successes(first + second) == successes(first) + successes(second),
        failures(first + second) == failures(first) + failures(second),
        success_bytes(first + second) == success_bytes(first) + success_bytes(second),
    decreases second.len(),
{
    if second.len() == 0 {
        assert(first + second =~= first);
    } else {
        lemma_tally_concat(first, second.drop_last());
        assert((first + second).drop_last() =~= first + second.drop_last());
    }
}

/// Holds the session counters and changes them only one whole outcome at a
/// time. Every update takes the aggregator exclusively, so a reader never
/// sees half of one.
#[derive(Debug)]
pub struct StatsAggregator {
    stats: SessionStats,
}

impl View for StatsAggregator {
    type V = SessionStats;

    closed spec fn view(&self) -> SessionStats {
        self.stats
    }
}

impl StatsAggregator {
    /// An aggregator with all counters at zero and no start time.
    pub fn new() -> (aggregator: StatsAggregator)
        ensures
            aggregator@ == (SessionStats {
                total_files: 0,
                failed_downloads: 0,
                total_bytes: 0,
                start_time: None,
            }),
    {
        StatsAggregator {
            stats: SessionStats {
                total_files: 0,
                failed_downloads: 0,
                total_bytes: 0,
                start_time: None,
            },
        }
    }

    /// Sets the start time of the session and leaves the counters alone.
    pub fn record_start(&mut self, timestamp: u64)
        ensures
            final(self)@ == (SessionStats { start_time: Some(timestamp), ..old(self)@ }),
        no_unwind
    {
        self.stats.start_time = Some(timestamp);
    }

    /// Whether `outcomes` can be recorded without a counter leaving `u64`.
    pub fn has_room_for(&self, outcomes: &Vec<DownloadOutcome>) -> (room: bool)
        ensures
            room == has_room_for(self@, outcomes@),
    {
        let mut files: u128 = self.stats.total_files as u128;
        let mut failed: u128 = self.stats.failed_downloads as u128;
        let mut bytes: u128 = self.stats.total_bytes as u128;
        let mut i: usize = 0;
        while i < outcomes.len()
            invariant
                i <= outcomes.len(),
                files == self.stats.total_files + successes(outcomes@.take(i as int)),
                failed == self.stats.failed_downloads + failures(outcomes@.take(i as int)),
                bytes == self.stats.total_bytes + success_bytes(outcomes@.take(i as int)),
                files <= u64::MAX + i,
                failed <= u64::MAX + i,
                bytes <= u64::MAX + i * u64::MAX,
            decreases outcomes.len() - i,
        {
            proof {
                lemma_tally_push(outcomes@.take(i as int), outcomes@[i as int]);
                assert(outcomes@.take(i as int + 1) =~= outcomes@.take(i as int).push(
                    outcomes@[i as int],
                ));
                assert((i + 1) * u64::MAX == i * u64::MAX + u64::MAX) by (nonlinear_arith);
                assert(i * u64::MAX <= usize::MAX * u64::MAX) by (nonlinear_arith)
                    requires
                        i <= usize::MAX,
                ;
            }
            match outcomes[i] {
                DownloadOutcome::Success { bytes: counted, .. } => {
                    files = files + 1;
                    bytes = bytes + (counted as u128);
                },
                DownloadOutcome::Failure { .. } => {
                    failed = failed + 1;
                },
            }
            i = i + 1;
        }
        assert(outcomes@.take(outcomes.len() as int) =~= outcomes@);
        files <= u64::MAX as u128 && failed <= u64::MAX as u128 && bytes <= u64::MAX as u128
    }

    /// Records one outcome: a success counts one file and its bytes, a
    /// failure counts one failed download.
    pub fn record_result(&mut self, outcome: DownloadOutcome)
        requires
            has_room_for(old(self)@, seq![outcome]),
        ensures
            final(self)@ == stats_after(old(self)@, seq![outcome]),
            final(self)@.total_files == old(self)@.total_files + outcome.progress(),
            final(self)@.failed_downloads == old(self)@.failed_downloads + 1 - outcome.progress(),
            final(self)@.total_bytes == old(self)@.total_bytes + outcome.counted_bytes(),
            final(self)@.start_time == old(self)@.start_time,
        no_unwind
    {
        proof {
            lemma_tally_push(Seq::empty(), outcome);
            assert(Seq::<DownloadOutcome>::empty().push(outcome) =~= seq![outcome]);
        }
        match outcome {
            DownloadOutcome::Success { bytes, .. } => {
                self.stats.total_files = self.stats.total_files + 1;
                self.stats.total_bytes = self.stats.total_bytes + bytes;
            },
            DownloadOutcome::Failure { .. } => {
                self.stats.failed_downloads = self.stats.failed_downloads + 1;
            },
        }
    }

    /// Records the outcomes of one tick.
    pub fn record_batch(&mut self, outcomes: &Vec<DownloadOutcome>)
        requires
            has_room_for(old(self)@, outcomes@),
        ensures
            final(self)@ == stats_after(old(self)@, outcomes@),
            final(self)@.total_files == old(self)@.total_files + successes(outcomes@),
            final(self)@.failed_downloads == old(self)@.failed_downloads + failures(outcomes@),
            final(self)@.total_bytes == old(self)@.total_bytes + success_bytes(outcomes@),
            final(self)@.total_files + final(self)@.failed_downloads == old(self)@.total_files
                + old(self)@.failed_downloads + outcomes@.len(),
            final(self)@.start_time == old(self)@.start_time,
        no_unwind
    {
        let mut i: usize = 0;
        while i < outcomes.len()
            invariant
                i <= outcomes.len(),
                has_room_for(old(self)@, outcomes@),
                self@ == stats_after(old(self)@, outcomes@.take(i as int)),
                has_room_for(old(self)@, outcomes@.take(i as int)),
            decreases outcomes.len() - i,
        {
            proof {
                let done = outcomes@.take(i as int);
                let rest = outcomes@.skip(i as int + 1);
                let next = outcomes@[i as int];
                lemma_tally_push(done, next);
                assert(outcomes@.take(i as int + 1) =~= done.push(next));
                lemma_tally_concat(done.push(next), rest);
                assert(done.push(next) + rest =~= outcomes@);
                lemma_tally_push(Seq::empty(), next);
                assert(Seq::<DownloadOutcome>::empty().push(next) =~= seq![next]);
            }
            self.record_result(outcomes[i]);
            i = i + 1;
        }
        proof {
            assert(outcomes@.take(outcomes.len() as int) =~= outcomes@);
            lemma_every_outcome_counted(outcomes@);
        }
    }

    /// The counters as they stand.
    pub fn snapshot(&self) -> (stats: SessionStats)
        ensures
            stats == self@,
    {
        self.stats
    }
}

} // verus!
