use vstd::prelude::*;

use crate::channel::PoolView;
use crate::message::{terminate_messages, work_messages, Message};

verus! {

/// Once shutdown has begun and every worker has been handed its stop signal,
/// every accepted task has been handed to a worker exactly once, in the
/// order it was accepted, and nothing is left on the channel. The same holds
/// as soon as the channel is found empty after shutdown.
pub proof fn lemma_shutdown_runs_every_task<T>(v: PoolView<T>)
    requires
        v.wf(),
        v.closed,
        v.stopped() == v.workers || v.pending().len() == 0,
    ensures
        v.pending().len() == 0,
        v.stopped() == v.workers,
        v.handed_out() == work_messages(v.submitted) + terminate_messages::<T>(v.workers),
        v.handed_out().len() == v.submitted.len() + v.workers,
        forall|i: int|
            0 <= i < v.submitted.len() ==> #[trigger] v.handed_out()[i] == Message::Work(
                v.submitted[i],
            ),
{
    assert(v.sent().len() == v.submitted.len() + v.workers);
    assert(v.delivered == v.sent().len());
    assert(v.handed_out() =~= v.sent());
    let h = v.handed_out();
    assert forall|i: int| 0 <= i < v.submitted.len() implies #[trigger] h[i] == Message::Work(
        v.submitted[i],
    ) by {
        assert(h[i] == work_messages(v.submitted)[i]);
    }
}

/// Shutting down twice leaves the pool exactly as shutting down once, and
/// the channel carries one stop signal per worker, never more.
pub proof fn lemma_shutdown_idempotent<T>(v: PoolView<T>)
    requires
        v.wf(),
    ensures
        v.close().close() == v.close(),
        v.close().sent() == work_messages(v.submitted) + terminate_messages::<T>(v.workers),
        v.close().close().sent() == v.close().sent(),
{
}

/// Taking from a non-empty channel hands out its front message and nothing
/// else: the handed-out sequence grows by that message and the pending one
/// loses it, so no message is ever seen twice or lost.
pub proof fn lemma_take_exactly_once<T>(v: PoolView<T>)
    requires
        v.wf(),
        v.pending().len() > 0,
    ensures
        v.advance().wf(),
        v.advance().handed_out() == v.handed_out().push(v.pending()[0]),
        v.pending() == seq![v.pending()[0]] + v.advance().pending(),
        v.advance().handed_out() + v.advance().pending() == v.sent(),
{
    let a = v.advance();
    assert(a.sent() == v.sent());
    assert(a.handed_out() =~= v.handed_out().push(v.pending()[0]));
    assert(v.pending() =~= seq![v.pending()[0]] + a.pending());
    assert(a.handed_out() + a.pending() =~= v.sent());
}

/// Every stop signal sits behind every task: no worker can be told to stop
/// while a task accepted before shutdown is still queued.
pub proof fn lemma_tasks_before_stop_signals<T>(v: PoolView<T>)
    requires
        v.wf(),
    ensures
        forall|i: int, j: int|
            0 <= i < j < v.sent().len() && (#[trigger] v.sent()[i]) is Terminate ==> (
            #[trigger] v.sent()[j]) is Terminate,
        v.stopped() > 0 ==> forall|i: int|
            0 <= i < v.submitted.len() ==> #[trigger] v.handed_out()[i] == Message::Work(
                v.submitted[i],
            ),
{
    if v.stopped() > 0 {
        let h = v.handed_out();
        assert forall|i: int| 0 <= i < v.submitted.len() implies #[trigger] h[i]
            == Message::Work(v.submitted[i]) by {
            assert(h[i] == v.sent()[i]);
            assert(v.sent()[i] == work_messages(v.submitted)[i]);
        }
    }
}

} // verus!
