//! What one download attempt can end in.

use vstd::prelude::*;

verus! {

/// Where the content of a successful download was kept.
#[derive(Clone, Copy, Debug, PartialEq, Eq)]
pub enum Placement {
    /// Counted and dropped; nothing was written.
    Memory,
    /// Written to a file in the download directory.
    Disk,
}

/// Why a download attempt failed.
#[derive(Clone, Copy, Debug, PartialEq, Eq)]
pub enum FailureKind {
    /// The request could not be sent or no response arrived.
    NetworkError,
    /// The server answered with a status outside 200..=299.
    HttpStatusError(u16),
    /// The response body could not be read to its end.
    BodyReadError,
    /// The content could not be written to the download directory.
    DiskWriteError,
}

/// The result of one download attempt.
#[derive(Clone, Copy, Debug, PartialEq, Eq)]
pub enum DownloadOutcome {
    Success { bytes: u64, placement: Placement },
    Failure { kind: FailureKind },
}

impl DownloadOutcome {
    /// The bytes that this outcome adds to the session total.
    pub open spec fn counted_bytes(self) -> nat {
        match self {
            DownloadOutcome::Success { bytes, .. } => bytes as nat,
            DownloadOutcome::Failure { .. } => 0,
        }
    }

    /// By how much this outcome advances the progress indicator of its tick.
    pub open spec fn progress(self) -> nat {
        if self is Success {
            1
        } else {
            0
        }
    }

    /// Whether the attempt succeeded.
    pub fn is_success(&self) -> (ok: bool)
        ensures
            ok == (*self is Success),
    {
        match self {
            DownloadOutcome::Success { .. } => true,
            DownloadOutcome::Failure { .. } => false,
        }
    }
}

} // verus!
