//! The polling loop's verified core: what one tick does to the counters,
//! how long the idle phase lasts, and what a run of polls accumulates.
//!
//! The loop itself — sending the query, sleeping, repeating forever — runs
//! outside; every decision it takes stands here.

use vstd::prelude::*;
use crate::elastic::Counter;
use crate::elastic::ElkError;
use crate::registry::Registry;
use crate::registry::sat_add;
use crate::registry::with_value;

verus! {

/// Applies one poll outcome to the registry.
///
/// A success adds the returned count to the task's own counter and touches
/// nothing else; a failure — of either kind — adds exactly one to the shared
/// error counter and leaves the task's counter, and every other entry,
/// exactly as it was. So one failing task costs only error ticks, never
/// another task's data.
pub fn poll_step(
    registry: &mut Registry,
    task_handle: usize,
    error_handle: usize,
    outcome: Result<Counter, ElkError>,
)
    requires
        task_handle < old(registry).entries@.len(),
        error_handle < old(registry).entries@.len(),
        task_handle != error_handle,
    ensures
        final(registry).entries@.len() == old(registry).entries@.len(),
        outcome matches Ok(c) ==> final(registry).entries@ == old(registry).entries@.update(
            task_handle as int,
            with_value(
                old(registry).entries@[task_handle as int],
                sat_add(old(registry).entries@[task_handle as int].value, c.count as u64),
            ),
        ),
        outcome is Err ==> final(registry).entries@ == old(registry).entries@.update(
            error_handle as int,
            with_value(
                old(registry).entries@[error_handle as int],
                sat_add(old(registry).entries@[error_handle as int].value, 1),
            ),
        ),
        outcome is Err ==> final(registry).entries@[error_handle as int].value == sat_add(
            old(registry).entries@[error_handle as int].value,
            1,
        ),
        outcome is Err ==> final(registry).entries@[task_handle as int] == old(
            registry,
        ).entries@[task_handle as int],
{
    match outcome {
        Ok(c) => {
            registry.increment(task_handle, c.count as u64);
        },
        Err(_) => {
            registry.increment(error_handle, 1);
        },
    }
}

/// How long the idle phase between two polls lasts: the task's period,
/// in seconds.
pub fn idle_seconds(period_minutes: u32) -> (r: u64)
    ensures
        r == period_minutes as int * 60,
{
    (period_minutes as u64) * 60
}

/// The sum of the counts a run of successful polls returned.
pub open spec fn sum_counts(counts: Seq<u32>) -> int
    decreases counts.len(),
{
    if counts.len() == 0 {
        0
    } else {
        sum_counts(counts.drop_last()) + counts.last()
    }
}

/// The counter value after successful polls returning `counts`, in order,
/// have each been applied to a counter that started at `v0`.
pub open spec fn value_after_polls(v0: u64, counts: Seq<u32>) -> u64
    decreases counts.len(),
{
    if counts.len() == 0 {
        v0
    } else {
        sat_add(value_after_polls(v0, counts.drop_last()), counts.last() as u64)
    }
}

/// Law (monotonicity): a counter never moves down — after any run of
/// successful polls it reads at least what it read before.
pub proof fn lemma_counter_monotonic(v0: u64, counts: Seq<u32>)
    ensures
        value_after_polls(v0, counts) >= v0,
    decreases counts.len(),
{
    if counts.len() > 0 {
        lemma_counter_monotonic(v0, counts.drop_last());
    }
}

/// Law (accumulation): a run of successful polls returning `c1, ..., cn`
/// leaves the counter at exactly `v0 + c1 + ... + cn` while that total stays
/// in range — each poll's count is added to the running total, and nothing
/// ever resets it between polls.
pub proof fn lemma_counter_accumulates(v0: u64, counts: Seq<u32>)
    requires
        v0 + sum_counts(counts) <= u64::MAX,
    ensures
        value_after_polls(v0, counts) == v0 + sum_counts(counts),
    decreases counts.len(),
{
    if counts.len() > 0 {
        lemma_sum_counts_nonneg(counts.drop_last());
        lemma_counter_accumulates(v0, counts.drop_last());
    }
}

/// Every sum of counts is non-negative.
proof fn lemma_sum_counts_nonneg(counts: Seq<u32>)
    ensures
        sum_counts(counts) >= 0,
    decreases counts.len(),
{
    if counts.len() > 0 {
        lemma_sum_counts_nonneg(counts.drop_last());
    }
}

} // verus!
