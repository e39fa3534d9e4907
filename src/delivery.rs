use vstd::prelude::*;

use crate::dispatcher::{halted, next_action, DispatchAction, DispatcherView};
use crate::message::{intact, MessageView};
use crate::worker::{
    delete_done, forward_answered, idle_action, pending, post_answered, post_failed, stop, take,
    ActionView, PhaseView, WorkerView,
};

verus! {

/// How the outside world answers the calls made for one message: the POST
/// either fails in transport (`None`) or returns a 2xx flag and a body, and the
/// send to the output queue succeeds or not.
pub struct Replies {
    pub post: Option<(bool, Seq<char>)>,
    pub forward_ok: bool,
}

/// The worker's next state and call once `a` has been answered as `r` says.
pub open spec fn answer(w: WorkerView, a: ActionView, r: Replies) -> (WorkerView, ActionView) {
    match a {
        ActionView::Post { .. } => match r.post {
            Some((success, response)) => post_answered(w, success, response),
            None => post_failed(w),
        },
        ActionView::Forward { .. } => forward_answered(w, r.forward_ok),
        ActionView::Delete { .. } => delete_done(w),
        _ => (w, a),
    }
}

/// The calls a worker makes after `a`, up to `fuel` of them, until it waits
/// for the next message or exits.
pub open spec fn follow(w: WorkerView, a: ActionView, r: Replies, fuel: nat) -> (
    WorkerView,
    Seq<ActionView>,
)
    decreases fuel,
{
    if fuel == 0 || a is Take || a is Exit {
        (w, Seq::empty())
    } else {
        let (next, b) = answer(w, a, r);
        let (last, rest) = follow(next, b, r, (fuel - 1) as nat);
        (last, seq![b] + rest)
    }
}

/// The calls that one delivery of `m` leads to, the last being the wait for the
/// next message (or the exit), with the worker's state afterwards. A message
/// needs at most three calls: POST, send, delete.
pub open spec fn deliver(w: WorkerView, m: MessageView, r: Replies) -> (
    WorkerView,
    Seq<ActionView>,
) {
    let (next, a) = take(w, m);
    let (last, rest) = follow(next, a, r, 3);
    (last, seq![a] + rest)
}

/// Whether a delete of `receipt_handle` stands at position `i` of `calls`.
pub open spec fn deletes_at(calls: Seq<ActionView>, i: int, receipt_handle: Seq<char>) -> bool {
    calls[i] == (ActionView::Delete { receipt_handle })
}

/// A message whose reported digest does not match its body is dropped by an
/// idle worker: no POST, no send to the output queue, no delete.
pub proof fn lemma_mismatch_is_dropped(w: WorkerView, m: MessageView, r: Replies)
    requires
        w.phase is Idle,
        !intact(m),
    ensures
        deliver(w, m, r).0 == w,
        deliver(w, m, r).1 == seq![idle_action(w.stopping)],
{
    reveal_with_fuel(follow, 2);
    assert(deliver(w, m, r).1 =~= seq![idle_action(w.stopping)]);
}

/// When the POST does not return 2xx, or does not reach the endpoint, nothing is
/// sent to the output queue and the message is not deleted.
pub proof fn lemma_failed_post_is_not_acknowledged(w: WorkerView, m: MessageView, r: Replies)
    requires
        w.phase is Idle,
        !(r.post matches Some((success, _)) && success),
    ensures
        forall|i: int|
            0 <= i < deliver(w, m, r).1.len() ==> !(#[trigger] deliver(w, m, r).1[i] is Forward)
                && !(deliver(w, m, r).1[i] is Delete),
        deliver(w, m, r).0 == w,
        intact(m) && !w.stopping ==> deliver(w, m, r).1 == seq![
            ActionView::Post { body: m.body, message_id: m.message_id },
            ActionView::Take,
        ],
{
    reveal_with_fuel(follow, 3);
    if intact(m) && !w.stopping {
        assert(deliver(w, m, r).1 =~= seq![
            ActionView::Post { body: m.body, message_id: m.message_id },
            ActionView::Take,
        ]);
    } else {
        assert(deliver(w, m, r).1 =~= seq![idle_action(w.stopping)]);
    }
}

/// With no output queue, an intact message whose POST returns 2xx is deleted
/// exactly once, by its receipt handle, right after the POST.
pub proof fn lemma_acknowledged_without_output(
    w: WorkerView,
    m: MessageView,
    response: Seq<char>,
    r: Replies,
)
    requires
        w.phase is Idle,
        !w.stopping,
        !w.forward,
        intact(m),
        r.post == Some((true, response)),
    ensures
        deliver(w, m, r).1 == seq![
            ActionView::Post { body: m.body, message_id: m.message_id },
            ActionView::Delete { receipt_handle: m.receipt_handle },
            ActionView::Take,
        ],
        deliver(w, m, r).0 == w,
        forall|i: int|
            0 <= i < deliver(w, m, r).1.len() && #[trigger] deletes_at(
                deliver(w, m, r).1,
                i,
                m.receipt_handle,
            ) ==> i == 1,
        forall|i: int|
            0 <= i < deliver(w, m, r).1.len() ==> !(#[trigger] deliver(w, m, r).1[i] is Forward),
{
    reveal_with_fuel(follow, 4);
    assert(deliver(w, m, r).1 =~= seq![
        ActionView::Post { body: m.body, message_id: m.message_id },
        ActionView::Delete { receipt_handle: m.receipt_handle },
        ActionView::Take,
    ]);
}

/// With an output queue, an intact message whose POST returns 2xx has the
/// response body sent to the output queue exactly once; when that send
/// succeeds the message is then deleted exactly once, and when it fails the
/// message is not deleted.
pub proof fn lemma_acknowledged_with_output(
    w: WorkerView,
    m: MessageView,
    response: Seq<char>,
    r: Replies,
)
    requires
        w.phase is Idle,
        !w.stopping,
        w.forward,
        intact(m),
        r.post == Some((true, response)),
    ensures
        r.forward_ok ==> deliver(w, m, r).1 == seq![
            ActionView::Post { body: m.body, message_id: m.message_id },
            ActionView::Forward { body: response },
            ActionView::Delete { receipt_handle: m.receipt_handle },
            ActionView::Take,
        ],
        !r.forward_ok ==> deliver(w, m, r).1 == seq![
            ActionView::Post { body: m.body, message_id: m.message_id },
            ActionView::Forward { body: response },
            ActionView::Take,
        ],
        deliver(w, m, r).0 == w,
{
    reveal_with_fuel(follow, 4);
    if r.forward_ok {
        assert(deliver(w, m, r).1 =~= seq![
            ActionView::Post { body: m.body, message_id: m.message_id },
            ActionView::Forward { body: response },
            ActionView::Delete { receipt_handle: m.receipt_handle },
            ActionView::Take,
        ]);
    } else {
        assert(deliver(w, m, r).1 =~= seq![
            ActionView::Post { body: m.body, message_id: m.message_id },
            ActionView::Forward { body: response },
            ActionView::Take,
        ]);
    }
}

/// Whether the move from `w` to `next` begins new work: a POST that was not
/// already in flight, or a send to the output queue that neither was in flight
/// nor answers the POST that was.
pub open spec fn begins_call(w: WorkerView, next: WorkerView) -> bool {
    ||| next.phase is Posting && !(w.phase is Posting)
    ||| next.phase is Forwarding && !(w.phase is Forwarding) && !(w.phase is Posting)
}

/// Once shutdown is signalled, no step of a worker begins new work: no new POST,
/// and no send to the output queue but the one that answers the POST in flight.
/// The worker stays stopping. A POST in flight when the signal comes is still
/// awaited, and the message it carries is finished.
pub proof fn lemma_no_new_work_after_shutdown(
    w: WorkerView,
    m: MessageView,
    success: bool,
    response: Seq<char>,
    ok: bool,
)
    requires
        w.stopping,
    ensures
        !begins_call(w, take(w, m).0) && take(w, m).0.stopping,
        !begins_call(w, post_answered(w, success, response).0) && post_answered(
            w,
            success,
            response,
        ).0.stopping,
        !begins_call(w, post_failed(w).0) && post_failed(w).0.stopping,
        !begins_call(w, forward_answered(w, ok).0) && forward_answered(w, ok).0.stopping,
        !begins_call(w, delete_done(w).0) && delete_done(w).0.stopping,
        !begins_call(w, stop(w).0) && stop(w).0.stopping,
        w.phase is Posting ==> !(post_answered(w, success, response).0.phase is Posting) && !(
        post_failed(w).0.phase is Posting),
        w.phase is Idle ==> take(w, m).1 == ActionView::Exit,
        w.phase matches PhaseView::Posting(p) ==> success && w.forward ==> post_answered(
            w,
            success,
            response,
        ).1 == (ActionView::Forward { body: response }),
        w.phase matches PhaseView::Posting(p) ==> success && !w.forward ==> post_answered(
            w,
            success,
            response,
        ).1 == (ActionView::Delete { receipt_handle: p.receipt_handle }),
{
}

/// A worker that is stopping with a POST in flight finishes its message when
/// the POST returns 2xx: the response goes to the output queue when one is set
/// and the send succeeds, then the message is deleted, and only then does the
/// worker exit.
pub proof fn lemma_shutdown_finishes_message(w: WorkerView, m: MessageView, response: Seq<char>, r: Replies)
    requires
        w.phase == PhaseView::Posting(m),
        w.stopping,
        r.post == Some((true, response)),
    ensures
        w.forward && r.forward_ok ==> follow(w, pending(w), r, 3).1 == seq![
            ActionView::Forward { body: response },
            ActionView::Delete { receipt_handle: m.receipt_handle },
            ActionView::Exit,
        ],
        !w.forward ==> follow(w, pending(w), r, 3).1 == seq![
            ActionView::Delete { receipt_handle: m.receipt_handle },
            ActionView::Exit,
        ],
{
    reveal_with_fuel(follow, 4);
    if w.forward && r.forward_ok {
        assert(follow(w, pending(w), r, 3).1 =~= seq![
            ActionView::Forward { body: response },
            ActionView::Delete { receipt_handle: m.receipt_handle },
            ActionView::Exit,
        ]);
    } else if !w.forward {
        assert(follow(w, pending(w), r, 3).1 =~= seq![
            ActionView::Delete { receipt_handle: m.receipt_handle },
            ActionView::Exit,
        ]);
    }
}

/// Shutdown of an idle pool: every idle worker exits at once on the signal, and
/// the dispatcher stops.
pub proof fn lemma_shutdown_drains_idle_pool(workers: Seq<WorkerView>, d: DispatcherView)
    requires
        forall|i: int| 0 <= i < workers.len() ==> (#[trigger] workers[i]).phase is Idle,
    ensures
        forall|i: int|
            0 <= i < workers.len() ==> #[trigger] stop(workers[i]).1 == ActionView::Exit
                && stop(workers[i]).0.stopping,
        next_action(halted(d)) == DispatchAction::Stop,
{
}

/// Signalling shutdown to a worker with a POST in flight does not abandon it:
/// the worker keeps waiting on that POST.
pub proof fn lemma_shutdown_awaits_post(w: WorkerView)
    requires
        w.phase is Posting,
    ensures
        stop(w).0.phase == w.phase,
        stop(w).1 == pending(w),
        stop(w).1 is Post,
{
}

/// Delivery is at least once: after an intact message has been handled the
/// worker is as it was, so the same message delivered again is posted again.
pub proof fn lemma_redelivery_posts_again(w: WorkerView, m: MessageView, r: Replies)
    requires
        w.phase is Idle,
        !w.stopping,
        intact(m),
    ensures
        deliver(w, m, r).0 == w,
        deliver(deliver(w, m, r).0, m, r) == deliver(w, m, r),
        deliver(w, m, r).1[0] == (ActionView::Post { body: m.body, message_id: m.message_id }),
        deliver(deliver(w, m, r).0, m, r).1[0] == (ActionView::Post {
            body: m.body,
            message_id: m.message_id,
        }),
{
    reveal_with_fuel(follow, 4);
    match r.post {
        Some((success, response)) => if success {
            if w.forward {
                lemma_acknowledged_with_output(w, m, response, r);
            } else {
                lemma_acknowledged_without_output(w, m, response, r);
            }
        } else {
            lemma_failed_post_is_not_acknowledged(w, m, r);
        },
        None => {
            lemma_failed_post_is_not_acknowledged(w, m, r);
        },
    }
}

} // verus!
