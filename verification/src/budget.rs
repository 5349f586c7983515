//! The memory budget of a session and the placement decision it drives.

use crate::outcome::Placement;
use vstd::prelude::*;

verus! {

/// Bytes in one megabyte, the unit of the budget.
pub const BYTES_PER_MB: u64 = 1048576;

/// Whether content of `content_bytes` may stay in memory: the process's
/// resident memory plus the content must lie strictly below the budget.
pub open spec fn fits_in_memory(process_bytes: nat, content_bytes: nat, budget_mb: nat) -> bool {
    process_bytes + content_bytes < budget_mb * 1048576
}

/// Where content goes under a budget of `budget_mb` megabytes.
pub open spec fn placement_of(process_bytes: nat, content_bytes: nat, budget_mb: nat) -> Placement {
    if fits_in_memory(process_bytes, content_bytes, budget_mb) {
        Placement::Memory
    } else {
        Placement::Disk
    }
}

/// Under a budget of zero nothing stays in memory, whatever the process
/// uses and however small the content is.
pub proof fn lemma_zero_budget_places_on_disk(process_bytes: nat, content_bytes: nat)
    ensures
        placement_of(process_bytes, content_bytes, 0) == Placement::Disk,
{
}

/// The memory budget in megabytes. It starts at the configured value and can
/// only ever drop to zero, which puts the session into disk-only mode.
#[derive(Debug)]
pub struct MemoryBudget {
    limit_mb: u64,
}

impl View for MemoryBudget {
    type V = u64;

    closed spec fn view(&self) -> u64 {
        self.limit_mb
    }
}

impl MemoryBudget {
    /// A budget of `limit_mb` megabytes.
    pub fn new(limit_mb: u64) -> (budget: MemoryBudget)
        ensures
            budget@ == limit_mb,
    {
        MemoryBudget { limit_mb }
    }

    /// The current budget in megabytes.
    pub fn limit_mb(&self) -> (limit: u64)
        ensures
            limit == self@,
    {
        self.limit_mb
    }

    /// Whether the session is in disk-only mode.
    pub fn is_disk_only(&self) -> (disk_only: bool)
        ensures
            disk_only == (self@ == 0),
    {
        self.limit_mb == 0
    }

    /// Drops the budget to zero. Collapsing twice changes nothing more.
    pub fn collapse(&mut self)
        ensures
            final(self)@ == 0,
        no_unwind
    {
        self.limit_mb = 0;
    }

    /// Decides where content of `content_bytes` goes while the process holds
    /// `process_bytes` of resident memory.
    pub fn placement_for(&self, process_bytes: u64, content_bytes: u64) -> (placement: Placement)
        ensures
            placement == placement_of(process_bytes as nat, content_bytes as nat, self@ as nat),
    {
        let used: u128 = (process_bytes as u128) + (content_bytes as u128);
        let limit: u128 = (self.limit_mb as u128) * (BYTES_PER_MB as u128);
        if used < limit {
            Placement::Memory
        } else {
            Placement::Disk
        }
    }
}

} // verus!
