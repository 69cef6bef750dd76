//! Properties of the request model that hold across requests and states.
use vstd::prelude::*;
use crate::address::Address;
use crate::engine::{
    cancel_error, execute_error, forward_error, immediate_error, next_sequence, submit_error,
    submit_post, submitted_order, with_pause, with_status, ContinuumView,
};
use crate::error::ContinuumError;
use crate::state::{order_exists, order_index, pool_error, Direction, OrderStatus};

verus! {

/// One submission, as a caller sends it.
pub struct SubmitRequest {
    pub submitter: Address,
    pub pool_id: Address,
    pub amount_in: u64,
    pub min_amount_out: u64,
    pub direction: Direction,
}

/// The state after the requests, in order; a refused request changes nothing.
pub open spec fn run_submits(v: ContinuumView, reqs: Seq<SubmitRequest>) -> ContinuumView
    decreases reqs.len(),
{
    if reqs.len() == 0 {
        v
    } else {
        let w = run_submits(v, reqs.drop_last());
        let q = reqs.last();
        if submit_error(w, q.pool_id@) is None {
            submit_post(
                w,
                submitted_order(w, q.submitter, q.pool_id, q.amount_in, q.min_amount_out, q.direction),
            )
        } else {
            w
        }
    }
}

/// The sequence numbers the accepted requests were given, in order.
pub open spec fn issued_sequences(v: ContinuumView, reqs: Seq<SubmitRequest>) -> Seq<u64>
    decreases reqs.len(),
{
    if reqs.len() == 0 {
        Seq::empty()
    } else {
        let w = run_submits(v, reqs.drop_last());
        let earlier = issued_sequences(v, reqs.drop_last());
        if submit_error(w, reqs.last().pool_id@) is None {
            earlier.push(next_sequence(w))
        } else {
            earlier
        }
    }
}

/// Over any run of submissions, the accepted ones receive consecutive sequence
/// numbers, starting right after the counter, and the counter ends on the last.
pub proof fn submissions_are_gapless(v: ContinuumView, reqs: Seq<SubmitRequest>)
    ensures
        forall|i: int|
            0 <= i < issued_sequences(v, reqs).len() ==> #[trigger] issued_sequences(v, reqs)[i]
                == v.fifo_state.current_sequence + 1 + i,
        run_submits(v, reqs).fifo_state.current_sequence == v.fifo_state.current_sequence
            + issued_sequences(v, reqs).len(),
    decreases reqs.len(),
{
    if reqs.len() > 0 {
        submissions_are_gapless(v, reqs.drop_last());
    }
}

/// Executing a sequence that no order carries fails with `SequenceMismatch`.
pub proof fn unknown_sequence_is_mismatch(v: ContinuumView, s: u64)
    requires
        !v.fifo_state.emergency_pause,
        !order_exists(v.orders, s),
    ensures
        execute_error(v, s) == Some(ContinuumError::SequenceMismatch),
{
}

/// An accepted execution changes the order that carries the declared sequence,
/// to executed, and no other order.
pub proof fn execution_touches_only_its_order(v: ContinuumView, s: u64)
    requires
        v.wf(),
        execute_error(v, s) is None,
    ensures
        order_exists(v.orders, s),
        v.orders[order_index(v.orders, s)].sequence == s,
        with_status(v, s, OrderStatus::Executed).orders[order_index(v.orders, s)].status
            == OrderStatus::Executed,
        forall|i: int|
            0 <= i < v.orders.len() && i != order_index(v.orders, s) ==> #[trigger] with_status(
                v,
                s,
                OrderStatus::Executed,
            ).orders[i] == v.orders[i],
{
}

/// An executed or cancelled order can be neither executed nor cancelled again.
pub proof fn resolved_orders_stay_resolved(v: ContinuumView, s: u64, caller: Seq<u8>)
    requires
        order_exists(v.orders, s),
        v.orders[order_index(v.orders, s)].status != OrderStatus::Pending,
    ensures
        execute_error(v, s) is Some,
        cancel_error(v, caller, s) is Some,
{
}

/// Accepted executions and cancellations leave every resolved order as it was.
pub proof fn resolution_is_terminal(v: ContinuumView, s: u64, caller: Seq<u8>, i: int)
    requires
        0 <= i < v.orders.len(),
        v.orders[i].status != OrderStatus::Pending,
    ensures
        execute_error(v, s) is None ==> with_status(v, s, OrderStatus::Executed).orders[i]
            == v.orders[i],
        cancel_error(v, caller, s) is None ==> with_status(v, s, OrderStatus::Cancelled).orders[i]
            == v.orders[i],
{
}

/// Among callers of a live order's cancellation, exactly its submitter succeeds;
/// any other identity is refused with `Unauthorized`.
pub proof fn only_submitter_cancels(v: ContinuumView, s: u64, caller: Seq<u8>)
    requires
        !v.fifo_state.emergency_pause,
        order_exists(v.orders, s),
        v.orders[order_index(v.orders, s)].status == OrderStatus::Pending,
    ensures
        caller != v.orders[order_index(v.orders, s)].submitter@ ==> cancel_error(v, caller, s)
            == Some(ContinuumError::Unauthorized),
        caller == v.orders[order_index(v.orders, s)].submitter@ ==> cancel_error(
            v,
            caller,
            s,
        ) is None,
{
}

/// While paused, submit, execute, cancel and the immediate paths all fail with
/// `Paused`.
pub proof fn pause_refuses_everything(
    v: ContinuumView,
    pool_id: Seq<u8>,
    s: u64,
    caller: Seq<u8>,
)
    requires
        v.fifo_state.emergency_pause,
    ensures
        submit_error(v, pool_id) == Some(ContinuumError::Paused),
        execute_error(v, s) == Some(ContinuumError::Paused),
        cancel_error(v, caller, s) == Some(ContinuumError::Paused),
        immediate_error(v, pool_id) == Some(ContinuumError::Paused),
{
}

/// Lifting the pause keeps the counter, so the next accepted submission gets
/// the number right after the last one issued.
pub proof fn unpause_resumes_counter(v: ContinuumView, pool_id: Seq<u8>)
    ensures
        with_pause(v, false).fifo_state.current_sequence == v.fifo_state.current_sequence,
        submit_error(with_pause(v, false), pool_id) is None ==> next_sequence(with_pause(v, false))
            == v.fifo_state.current_sequence + 1,
{
}

/// A pool without an active registry entry is never forwarded to: the
/// immediate paths, and the execution of any order on it, are refused first.
pub proof fn inactive_pool_never_forwarded(v: ContinuumView, pool_id: Seq<u8>, s: u64)
    requires
        pool_error(v.registry, pool_id) is Some,
    ensures
        forward_error(v, pool_id) is Some,
        immediate_error(v, pool_id) is Some,
        order_exists(v.orders, s) && v.orders[order_index(v.orders, s)].pool_id@ == pool_id
            ==> execute_error(v, s) is Some,
{
}

} // verus!
