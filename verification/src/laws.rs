use crate::isolate::{loop_step, IsolateView, LoopActionView, ResponseView, TIMEOUT_REQ_ID};
use crate::state::ReplyView;
use vstd::prelude::*;

verus! {

/// What the event loop has done once it has taken every completion that it
/// can take without waiting: the replies that it delivered, oldest first, and
/// the context and the channel as it left them.
pub struct Drained {
    pub delivered: Seq<ResponseView>,
    pub isolate: IsolateView,
    pub pending: Seq<ReplyView>,
}

/// Steps the event loop for as long as a step takes a completion out of the
/// channel.
pub open spec fn drain(isolate: IsolateView, pending: Seq<ReplyView>, now: u64) -> Drained
    decreases pending.len(),
{
    if !isolate.is_idle() && pending.len() > 0 {
        let step = loop_step(isolate, pending, now);
        let rest = drain(step.isolate, step.pending, now);
        Drained {
            delivered: seq![step.action->Respond_0] + rest.delivered,
            isolate: rest.isolate,
            pending: rest.pending,
        }
    } else {
        Drained { delivered: Seq::empty(), isolate, pending }
    }
}

/// The context after it has counted `n` more outstanding operations, one
/// asynchronous dispatch at a time.
pub open spec fn spawn_all(isolate: IsolateView, n: nat) -> IsolateView
    decreases n,
{
    if n == 0 {
        isolate
    } else {
        spawn_all(isolate, (n - 1) as nat).spawned()
    }
}

/// Counting `n` operations adds `n` to the count and changes nothing else.
pub proof fn lemma_spawn_all_counts(isolate: IsolateView, n: nat)
    ensures
        spawn_all(isolate, n) == (IsolateView { ntasks: isolate.ntasks + n, ..isolate }),
    decreases n,
{
    if n > 0 {
        lemma_spawn_all_counts(isolate, (n - 1) as nat);
    }
}

/// Completions leave the channel in the order in which they arrived. Where
/// every completion in the channel was counted, the event loop delivers each
/// of them, the oldest first, each under the identifier and with the payload
/// that it arrived with, and takes one off the count for each.
pub proof fn lemma_completions_are_delivered_in_arrival_order(
    isolate: IsolateView,
    pending: Seq<ReplyView>,
    now: u64,
)
    requires
        pending.len() <= isolate.ntasks,
    ensures
        drain(isolate, pending, now).delivered.len() == pending.len(),
        forall|i: int|
            0 <= i < pending.len() ==> #[trigger] drain(isolate, pending, now).delivered[i]
                == isolate.response(pending[i]),
        drain(isolate, pending, now).isolate == (IsolateView {
            ntasks: isolate.ntasks - pending.len(),
            ..isolate
        }),
        drain(isolate, pending, now).pending.len() == 0,
    decreases pending.len(),
{
    if !isolate.is_idle() && pending.len() > 0 {
        let step = loop_step(isolate, pending, now);
        let rest = drain(step.isolate, step.pending, now);
        lemma_completions_are_delivered_in_arrival_order(step.isolate, step.pending, now);
        let run = drain(isolate, pending, now);
        assert(run.delivered == seq![step.action->Respond_0] + rest.delivered);
        assert forall|i: int| 0 <= i < pending.len() implies #[trigger] run.delivered[i]
            == isolate.response(pending[i]) by {
            if i > 0 {
                assert(run.delivered[i] == rest.delivered[i - 1]);
                assert(step.pending[i - 1] == pending[i]);
            }
        }
    }
}

/// Every asynchronous operation that was spawned is delivered once, and the
/// loop is idle then and not before. Take a context that is idle, let it
/// count `completions.len()` operations, and let these resolve to
/// `completions`, in this order. After the first `k` of them have arrived
/// and the event loop has run, it has delivered exactly these `k`, the count
/// stands at what is left, which is never below zero, and the context is
/// idle if and only if all have been delivered.
pub proof fn lemma_every_spawned_operation_is_delivered(
    fresh: IsolateView,
    completions: Seq<ReplyView>,
    now: u64,
    k: int,
)
    requires
        fresh.is_idle(),
        0 <= k <= completions.len(),
    ensures
        ({
            let n = completions.len();
            let run = drain(spawn_all(fresh, n), completions.take(k), now);
            &&& run.delivered.len() == k
            &&& forall|i: int|
                0 <= i < k ==> #[trigger] run.delivered[i] == fresh.response(completions[i])
            &&& run.pending.len() == 0
            &&& run.isolate.ntasks == n - k
            &&& run.isolate.ntasks >= 0
            &&& run.isolate.is_idle() <==> k == n
            &&& loop_step(run.isolate, run.pending, now).action is Idle <==> k == n
        }),
{
    let n = completions.len();
    let loaded = spawn_all(fresh, n);
    lemma_spawn_all_counts(fresh, n);
    let arrived = completions.take(k);
    lemma_completions_are_delivered_in_arrival_order(loaded, arrived, now);
    let run = drain(loaded, arrived, now);
    assert forall|i: int| 0 <= i < k implies #[trigger] run.delivered[i] == fresh.response(
        completions[i],
    ) by {
        assert(arrived[i] == completions[i]);
        assert(run.delivered[i] == loaded.response(arrived[i]));
    }
}

/// The timeout reply never comes before the deadline. With nothing in the
/// channel and a deadline set, the event loop waits for exactly the time that
/// is left while the deadline lies ahead, and gives the timeout reply, which
/// carries the reserved identifier and no payload, only once the clock has
/// reached the deadline. Neither step changes the context.
pub proof fn lemma_timeout_waits_for_the_deadline(isolate: IsolateView, due: u64, now: u64)
    requires
        isolate.timeout_due == Some(due),
    ensures
        ({
            let step = loop_step(isolate, Seq::empty(), now);
            &&& step.isolate == isolate
            &&& step.pending == Seq::<ReplyView>::empty()
            &&& now < due ==> step.action == LoopActionView::Wait(Some((due - now) as u64))
            &&& now >= due ==> step.action == LoopActionView::Respond(isolate.timeout_response())
            &&& step.action is Respond <==> now >= due
        }),
        isolate.timeout_response().req_id == TIMEOUT_REQ_ID,
        isolate.timeout_response().buf.len() == 0,
{
}

/// A context without outstanding operations and without a deadline ends the
/// event loop at once, whatever the clock says, and stays as it is.
pub proof fn lemma_idle_loop_returns_at_once(isolate: IsolateView, now: u64)
    requires
        isolate.is_idle(),
    ensures
        loop_step(isolate, Seq::empty(), now) == (crate::isolate::LoopStep {
            isolate,
            pending: Seq::empty(),
            action: LoopActionView::Idle,
        }),
{
}

} // verus!
