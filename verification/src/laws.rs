//! Laws of the tranche schedule: how a whole run of successful executions
//! relates the released amounts to the order's remaining balance.

use vstd::prelude::*;

use crate::state::{order_after_execution, WhaleOrder};

verus! {

/// One successful execution of an order with anything left to release
/// strictly decreases `remaining`, by exactly the effective tranche, and the
/// order stays active exactly while something remains.
pub proof fn lemma_execution_progress(order: WhaleOrder, now: i64)
    requires
        order.wf(),
        order.remaining > 0,
    ensures
        ({
            let next = order_after_execution(order, now);
            &&& next.remaining < order.remaining
            &&& next.remaining == order.remaining - order.effective_tranche()
            &&& next.active == (next.remaining > 0)
        }),
{
}

/// A successful execution at a non-negative time keeps the order well-formed:
/// in particular the order stays within its total, and it deactivates exactly
/// when it empties, never before or after.
pub proof fn lemma_execution_preserves_wf(order: WhaleOrder, now: i64)
    requires
        order.wf(),
        now >= 0,
    ensures
        order_after_execution(order, now).wf(),
{
}

/// The order's state after a whole run of successful executions, one at each
/// time in `times`, in order.
pub open spec fn run_executions(order: WhaleOrder, times: Seq<i64>) -> WhaleOrder
    decreases times.len(),
{
    if times.len() == 0 {
        order
    } else {
        run_executions(order_after_execution(order, times[0]), times.skip(1))
    }
}

/// The sum of the effective tranches released over a whole run of successful
/// executions, one at each time in `times`.
pub open spec fn total_effective(order: WhaleOrder, times: Seq<i64>) -> int
    decreases times.len(),
{
    if times.len() == 0 {
        0
    } else {
        order.effective_tranche() + total_effective(
            order_after_execution(order, times[0]),
            times.skip(1),
        )
    }
}

/// Over any run of successful executions: `total` and `tranche` never change,
/// `remaining` never increases, the effective tranches released sum to
/// exactly what left `remaining`, and — for an order within its total, as
/// every well-formed order is — that sum never exceeds `total`. For a fresh
/// order, whose `remaining` equals its `total`, the sum is exactly the total
/// minus the final remaining amount.
pub proof fn lemma_execution_sum(order: WhaleOrder, times: Seq<i64>)
    ensures
        run_executions(order, times).total == order.total,
        run_executions(order, times).tranche == order.tranche,
        run_executions(order, times).remaining <= order.remaining,
        total_effective(order, times) == order.remaining - run_executions(order, times).remaining,
        order.remaining <= order.total ==> total_effective(order, times) <= order.total,
    decreases times.len(),
{
    if times.len() > 0 {
        lemma_execution_sum(order_after_execution(order, times[0]), times.skip(1));
    }
}

/// The sum of the keeper rewards paid over a whole run of successful
/// executions, one at each time in `times`. The reward is all that leaves the
/// holding balance, so this is the holding balance's total outflow.
pub open spec fn total_reward(order: WhaleOrder, times: Seq<i64>) -> int
    decreases times.len(),
{
    if times.len() == 0 {
        0
    } else {
        order.reward() + total_reward(order_after_execution(order, times[0]), times.skip(1))
    }
}

/// Over any run of successful executions, the keeper rewards paid — the whole
/// outflow of the order's holding balance — stay within the released amounts,
/// and so within the order's total.
pub proof fn lemma_reward_within_total(order: WhaleOrder, times: Seq<i64>)
    ensures
        total_reward(order, times) <= total_effective(order, times),
        order.remaining <= order.total ==> total_reward(order, times) <= order.total,
    decreases times.len(),
{
    lemma_execution_sum(order, times);
    if times.len() > 0 {
        lemma_reward_within_total(order_after_execution(order, times[0]), times.skip(1));
    }
}

/// A run of successful executions at non-negative times keeps the order
/// well-formed throughout; in particular, after the whole run the order is
/// active exactly when something remains.
pub proof fn lemma_run_preserves_wf(order: WhaleOrder, times: Seq<i64>)
    requires
        order.wf(),
        forall|i: int| 0 <= i < times.len() ==> times[i] >= 0,
    ensures
        run_executions(order, times).wf(),
    decreases times.len(),
{
    if times.len() > 0 {
        lemma_execution_preserves_wf(order, times[0]);
        assert forall|i: int| 0 <= i < times.skip(1).len() implies times.skip(1)[i] >= 0 by {
            assert(times.skip(1)[i] == times[i + 1]);
        }
        lemma_run_preserves_wf(order_after_execution(order, times[0]), times.skip(1));
    }
}

/// An order with a positive tranche size empties after finitely many
/// successful executions: each one releases at least one unit while anything
/// remains, so any run with at least `remaining` executions ends with nothing
/// remaining.
pub proof fn lemma_eventual_completion(order: WhaleOrder, times: Seq<i64>)
    requires
        order.tranche > 0,
        times.len() >= order.remaining,
    ensures
        run_executions(order, times).remaining == 0,
    decreases times.len(),
{
    if times.len() > 0 {
        lemma_eventual_completion(order_after_execution(order, times[0]), times.skip(1));
    }
}

} // verus!
