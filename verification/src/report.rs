//! The figures of the report that closes a session.

use crate::stats::SessionStats;
use vstd::prelude::*;

verus! {

/// What `num_format` writes for `n` in the locale `en`: the decimal digits
/// of `n` with a separator between groups of three.
pub uninterp spec fn en_grouped(n: u64) -> Seq<char>;

/// Calls `num_format::ToFormattedString::to_formatted_string` on `n` with
/// `num_format::Locale::en`. The text depends on `n` alone, since the locale
/// is a table inside the crate and not that of the system; the contract
/// gives it the name `en_grouped(n)` and says nothing more of it.
#[verifier::external_body]
fn group_thousands(n: u64) -> (text: String)
    ensures
        text@ == en_grouped(n),
{
    num_format::ToFormattedString::to_formatted_string(&n, &num_format::Locale::en)
}

/// The figures of the completion banner.
#[derive(Debug)]
pub struct CompletionBanner {
    /// The number of downloaded files, digits grouped.
    pub total_files: String,
    /// The number of failed downloads, digits grouped.
    pub failed_downloads: String,
    /// The bytes of all successful downloads.
    pub total_bytes: u64,
    /// The seconds between the start of the session and the report.
    pub total_seconds: u64,
}

/// The seconds from the start of a session to `now`. A session that never
/// started counts from the epoch.
pub open spec fn seconds_since_start(stats: SessionStats, now: u64) -> int {
    match stats.start_time {
        Some(start) => now - start,
        None => now as int,
    }
}

/// Puts the banner together from the counters and the two grouped numbers.
pub fn assemble_banner(stats: &SessionStats, now: u64, files: String, failures: String) -> (banner:
    CompletionBanner)
    requires
        seconds_since_start(*stats, now) >= 0,
    ensures
        banner.total_files == files,
        banner.failed_downloads == failures,
        banner.total_bytes == stats.total_bytes,
        banner.total_seconds == seconds_since_start(*stats, now),
{
    let start: u64 = match stats.start_time {
        Some(start) => start,
        None => 0,
    };
    CompletionBanner {
        total_files: files,
        failed_downloads: failures,
        total_bytes: stats.total_bytes,
        total_seconds: now - start,
    }
}

/// The completion banner of a session with the counters `stats`, written at
/// `now`.
pub fn completion_banner(stats: &SessionStats, now: u64) -> (banner: CompletionBanner)
    requires
        seconds_since_start(*stats, now) >= 0,
    ensures
        banner.total_files@ == en_grouped(stats.total_files),
        banner.failed_downloads@ == en_grouped(stats.failed_downloads),
        banner.total_bytes == stats.total_bytes,
        banner.total_seconds == seconds_since_start(*stats, now),
{
    let files = group_thousands(stats.total_files);
    let failures = group_thousands(stats.failed_downloads);
    assemble_banner(stats, now, files, failures)
}

} // verus!
