//! Batch sizing and the one-time feasibility check.
//!
//! Both take memory quantities as whole numbers. The two quantities of one
//! call must be in the same unit (bytes, or megabytes); the results do not
//! depend on which.

use vstd::prelude::*;

verus! {

/// The largest batch that memory allows: twice the number of items that fit
/// into `available`, and never less than one. The factor two is a margin for
/// an item size that was underestimated.
pub open spec fn safe_batch_size(available: nat, item: nat) -> nat
    recommends
        item > 0,
{
    let fit = (2 * available) / item;
    if fit >= 1 {
        fit
    } else {
        1
    }
}

/// The batch size for a request: the requested size, capped by
/// `safe_batch_size`. An item size of zero puts no cap on the request.
pub open spec fn batch_size_for(requested: nat, available: nat, item: nat) -> nat {
    if item == 0 {
        requested
    } else if requested <= safe_batch_size(available, item) {
        requested
    } else {
        safe_batch_size(available, item)
    }
}

/// Whether a whole batch fits into the available memory at once.
pub open spec fn feasible(available: nat, batch_size: nat, item: nat) -> bool {
    available > batch_size * item
}

/// For a positive item size, `(2 * available) / item` is the floor of the
/// real quotient `available / item * 2`: the one whole number `q` with
/// `q * item <= 2 * available < (q + 1) * item`.
pub proof fn lemma_fit_is_floor(available: nat, item: nat)
    requires
        item > 0,
    ensures
        ((2 * available) / item) * item <= 2 * available,
        2 * available < ((2 * available) / item + 1) * item,
{
    let n: int = (2 * available) as int;
    let d: int = item as int;
    assert((n / d) * d <= n && n < (n / d + 1) * d) by (nonlinear_arith)
        requires
            d > 0,
            n >= 0,
    ;
}

/// A request of at least one item is answered with a size between one and the
/// request, and with the request capped by what memory allows.
pub proof fn lemma_batch_size_bounds(requested: nat, available: nat, item: nat)
    requires
        requested >= 1,
    ensures
        1 <= batch_size_for(requested, available, item) <= requested,
        item > 0 ==> batch_size_for(requested, available, item) <= safe_batch_size(
            available,
            item,
        ),
{
}

/// Computes the number of items to fetch concurrently.
pub fn compute_batch_size(requested: usize, available: u64, item: u64) -> (size: usize)
    ensures
        size == batch_size_for(requested as nat, available as nat, item as nat),
        requested >= 1 ==> 1 <= size <= requested,
{
    if item == 0 {
        return requested;
    }
    let doubled: u128 = 2 * (available as u128);
    let fit: u128 = doubled / (item as u128);
    let safe: u128 = if fit >= 1 {
        fit
    } else {
        1
    };
    if (requested as u128) <= safe {
        requested
    } else {
        safe as usize
    }
}

/// Decides whether `batch_size` items of `item` units each fit into
/// `available` units of memory, with room to spare.
pub fn check_feasible(available: u64, batch_size: usize, item: u64) -> (ok: bool)
    ensures
        ok == feasible(available as nat, batch_size as nat, item as nat),
{
    assert(batch_size * item <= u128::MAX) by (nonlinear_arith)
        requires
            batch_size <= u64::MAX,
            item <= u64::MAX,
    ;
    let need: u128 = (batch_size as u128) * (item as u128);
    (available as u128) > need
}

/// The batch size of a session and the item size it was computed for.
#[derive(Clone, Copy, Debug, PartialEq, Eq)]
pub struct BatchPlan {
    /// The downloads of one batch.
    pub size: usize,
    /// The size of one item as the server declared it.
    pub estimated_item_size: u64,
}

/// What a plan must hold: at least one item per batch.
pub open spec fn plan_is_valid(plan: BatchPlan) -> bool {
    plan.size >= 1
}

/// The plan for a request of `requested` items of `item` units each with
/// `available` units of memory.
pub open spec fn planned(requested: usize, available: u64, item: u64) -> BatchPlan {
    BatchPlan {
        size: batch_size_for(requested as nat, available as nat, item as nat) as usize,
        estimated_item_size: item,
    }
}

/// A plan for a request of at least one item is valid, and its size is the
/// batch size for the request, unchanged by the step into `usize`.
pub proof fn lemma_planned_is_valid(requested: usize, available: u64, item: u64)
    requires
        requested >= 1,
    ensures
        plan_is_valid(planned(requested, available, item)),
        planned(requested, available, item).size == batch_size_for(
            requested as nat,
            available as nat,
            item as nat,
        ),
        planned(requested, available, item).size <= requested,
{
}

/// Plans the batches of a session from the requested size, the available
/// memory and the size of one item.
pub fn plan_batch(requested: usize, available: u64, item: u64) -> (plan: BatchPlan)
    requires
        requested >= 1,
    ensures
        plan == planned(requested, available, item),
        plan.size == batch_size_for(requested as nat, available as nat, item as nat),
        plan_is_valid(plan),
{
    BatchPlan { size: compute_batch_size(requested, available, item), estimated_item_size: item }
}

} // verus!
