use vstd::prelude::*;

use crate::message::{intact, Message, MessageView};

verus! {

/// The call a worker asks to be made next.
#[derive(Debug, PartialEq, Eq)]
pub enum WorkerAction {
    /// Wait for the next message on the dispatch channel, or for shutdown.
    Take,
    /// POST the body to the endpoint, with the message identifier as a header.
    Post { body: String, message_id: String },
    /// Send the endpoint's response body to the output queue.
    Forward { body: String },
    /// Delete the delivery from the input queue.
    Delete { receipt_handle: String },
    /// Leave the worker loop.
    Exit,
}

/// A worker's call, its strings seen as sequences of characters.
pub enum ActionView {
    Take,
    Post { body: Seq<char>, message_id: Seq<char> },
    Forward { body: Seq<char> },
    Delete { receipt_handle: Seq<char> },
    Exit,
}

impl View for WorkerAction {
    type V = ActionView;

    open spec fn view(&self) -> ActionView {
        match self {
            WorkerAction::Take => ActionView::Take,
            WorkerAction::Post { body, message_id } => ActionView::Post {
                body: body@,
                message_id: message_id@,
            },
            WorkerAction::Forward { body } => ActionView::Forward { body: body@ },
            WorkerAction::Delete { receipt_handle } => ActionView::Delete {
                receipt_handle: receipt_handle@,
            },
            WorkerAction::Exit => ActionView::Exit,
        }
    }
}

/// The call a worker has in flight.
enum Phase {
    Idle,
    Posting(Message),
    Forwarding { receipt_handle: String, body: String },
    Deleting { receipt_handle: String },
}

/// The call a worker has in flight, its strings seen as sequences of characters.
pub enum PhaseView {
    Idle,
    Posting(MessageView),
    Forwarding { receipt_handle: Seq<char>, body: Seq<char> },
    Deleting { receipt_handle: Seq<char> },
}

/// The state of a worker: whether responses go on to an output queue, whether
/// shutdown has been signalled, and which call is in flight.
pub struct WorkerView {
    pub forward: bool,
    pub stopping: bool,
    pub phase: PhaseView,
}

/// One worker of the pool. It takes messages one at a time and carries each
/// through POST, the optional send to the output queue, and the delete.
pub struct Worker {
    forward: bool,
    stopping: bool,
    phase: Phase,
}

impl View for Worker {
    type V = WorkerView;

    closed spec fn view(&self) -> WorkerView {
        WorkerView {
            forward: self.forward,
            stopping: self.stopping,
            phase: match self.phase {
                Phase::Idle => PhaseView::Idle,
                Phase::Posting(m) => PhaseView::Posting(m@),
                Phase::Forwarding { receipt_handle, body } => PhaseView::Forwarding {
                    receipt_handle: receipt_handle@,
                    body: body@,
                },
                Phase::Deleting { receipt_handle } => PhaseView::Deleting {
                    receipt_handle: receipt_handle@,
                },
            },
        }
    }
}

/// What an idle worker waits for: the next message, or nothing once stopping.
pub open spec fn idle_action(stopping: bool) -> ActionView {
    if stopping {
        ActionView::Exit
    } else {
        ActionView::Take
    }
}

/// The call a worker in state `w` is waiting on.
pub open spec fn pending(w: WorkerView) -> ActionView {
    match w.phase {
        PhaseView::Idle => idle_action(w.stopping),
        PhaseView::Posting(m) => ActionView::Post { body: m.body, message_id: m.message_id },
        PhaseView::Forwarding { body, .. } => ActionView::Forward { body },
        PhaseView::Deleting { receipt_handle } => ActionView::Delete { receipt_handle },
    }
}

/// Moves the worker to `phase` and reports the call that phase waits on.
pub open spec fn enter(w: WorkerView, phase: PhaseView) -> (WorkerView, ActionView) {
    let next = WorkerView { phase, ..w };
    (next, pending(next))
}

/// Processing of `m` begins: an idle worker that is not stopping posts it; in
/// any other state the message is not taken up.
pub open spec fn begin(w: WorkerView, m: MessageView) -> (WorkerView, ActionView) {
    if w.phase is Idle && !w.stopping {
        enter(w, PhaseView::Posting(m))
    } else {
        (w, pending(w))
    }
}

/// A message arrives from the dispatch channel. It is processed if it is intact
/// and dropped otherwise, to be redelivered by the queue.
pub open spec fn take(w: WorkerView, m: MessageView) -> (WorkerView, ActionView) {
    if intact(m) {
        begin(w, m)
    } else {
        (w, pending(w))
    }
}

/// The endpoint answered the POST. A non-2xx status leaves the message to be
/// redelivered. A 2xx status leads to the delete, through the output queue when
/// one is configured, also when shutdown came while the POST was in flight: the
/// message in hand is finished.
pub open spec fn post_answered(w: WorkerView, success: bool, response: Seq<char>) -> (
    WorkerView,
    ActionView,
) {
    match w.phase {
        PhaseView::Posting(m) => if !success {
            enter(w, PhaseView::Idle)
        } else if !w.forward {
            enter(w, PhaseView::Deleting { receipt_handle: m.receipt_handle })
        } else {
            enter(w, PhaseView::Forwarding { receipt_handle: m.receipt_handle, body: response })
        },
        _ => (w, pending(w)),
    }
}

/// The POST did not reach the endpoint: the message is left to be redelivered.
pub open spec fn post_failed(w: WorkerView) -> (WorkerView, ActionView) {
    match w.phase {
        PhaseView::Posting(_) => enter(w, PhaseView::Idle),
        _ => (w, pending(w)),
    }
}

/// The send to the output queue finished: on success the delete follows; on
/// failure the message is left to be redelivered.
pub open spec fn forward_answered(w: WorkerView, ok: bool) -> (WorkerView, ActionView) {
    match w.phase {
        PhaseView::Forwarding { receipt_handle, .. } => if ok {
            enter(w, PhaseView::Deleting { receipt_handle })
        } else {
            enter(w, PhaseView::Idle)
        },
        _ => (w, pending(w)),
    }
}

/// The delete finished, whatever its outcome: the worker is idle again.
pub open spec fn delete_done(w: WorkerView) -> (WorkerView, ActionView) {
    match w.phase {
        PhaseView::Deleting { .. } => enter(w, PhaseView::Idle),
        _ => (w, pending(w)),
    }
}

/// Shutdown is signalled: the call in flight is still awaited, and an idle
/// worker exits.
pub open spec fn stop(w: WorkerView) -> (WorkerView, ActionView) {
    let next = WorkerView { stopping: true, ..w };
    (next, pending(next))
}

impl Worker {
    /// An idle worker; `forward` says whether an output queue is configured.
    pub fn new(forward: bool) -> (w: Worker)
        ensures
            w@ == (WorkerView { forward, stopping: false, phase: PhaseView::Idle }),
    {
        Worker { forward, stopping: false, phase: Phase::Idle }
    }

    fn pending_action(&self) -> (r: WorkerAction)
        ensures
            r@ == pending(self@),
    {
        match &self.phase {
            Phase::Idle => if self.stopping {
                WorkerAction::Exit
            } else {
                WorkerAction::Take
            },
            Phase::Posting(m) => WorkerAction::Post {
                body: m.body.clone(),
                message_id: m.message_id.clone(),
            },
            Phase::Forwarding { body, .. } => WorkerAction::Forward { body: body.clone() },
            Phase::Deleting { receipt_handle } => WorkerAction::Delete {
                receipt_handle: receipt_handle.clone(),
            },
        }
    }

    /// The call this worker is waiting on.
    pub fn next_action(&self) -> (r: WorkerAction)
        ensures
            r@ == pending(self@),
    {
        self.pending_action()
    }

    /// Begins the processing of `m`, without the integrity check: the POST of
    /// its body comes first.
    pub fn process_message(&mut self, m: Message) -> (r: WorkerAction)
        ensures
            (final(self)@, r@) == begin(old(self)@, m@),
    {
        let idle = match self.phase {
            Phase::Idle => true,
            _ => false,
        };
        if idle && !self.stopping {
            self.phase = Phase::Posting(m);
        }
        self.pending_action()
    }

    /// A message was taken from the dispatch channel: it is processed when its
    /// digest matches its body, and dropped otherwise.
    pub fn on_message(&mut self, m: Message) -> (r: WorkerAction)
        ensures
            (final(self)@, r@) == take(old(self)@, m@),
    {
        if m.check_hash() {
            self.process_message(m)
        } else {
            self.pending_action()
        }
    }

    /// The endpoint answered the POST with a status (`success` when 2xx) and a body.
    pub fn on_post_answered(&mut self, success: bool, response: String) -> (r: WorkerAction)
        ensures
            (final(self)@, r@) == post_answered(old(self)@, success, response@),
    {
        let next = match &self.phase {
            Phase::Posting(m) => if !success {
                Some(Phase::Idle)
            } else if !self.forward {
                Some(Phase::Deleting { receipt_handle: m.receipt_handle.clone() })
            } else {
                Some(Phase::Forwarding { receipt_handle: m.receipt_handle.clone(), body: response })
            },
            _ => None,
        };
        if let Some(p) = next {
            self.phase = p;
        }
        self.pending_action()
    }

    /// The POST failed in transport or timed out.
    pub fn on_post_failed(&mut self) -> (r: WorkerAction)
        ensures
            (final(self)@, r@) == post_failed(old(self)@),
    {
        let posting = match self.phase {
            Phase::Posting(_) => true,
            _ => false,
        };
        if posting {
            self.phase = Phase::Idle;
        }
        self.pending_action()
    }

    /// The send to the output queue finished; `ok` when it succeeded.
    pub fn on_forward_answered(&mut self, ok: bool) -> (r: WorkerAction)
        ensures
            (final(self)@, r@) == forward_answered(old(self)@, ok),
    {
        let next = match &self.phase {
            Phase::Forwarding { receipt_handle, .. } => if ok {
                Some(Phase::Deleting { receipt_handle: receipt_handle.clone() })
            } else {
                Some(Phase::Idle)
            },
            _ => None,
        };
        if let Some(p) = next {
            self.phase = p;
        }
        self.pending_action()
    }

    /// The delete from the input queue finished, successfully or not.
    pub fn on_delete_done(&mut self) -> (r: WorkerAction)
        ensures
            (final(self)@, r@) == delete_done(old(self)@),
    {
        let deleting = match self.phase {
            Phase::Deleting { .. } => true,
            _ => false,
        };
        if deleting {
            self.phase = Phase::Idle;
        }
        self.pending_action()
    }

    /// Shutdown was signalled.
    pub fn on_shutdown(&mut self) -> (r: WorkerAction)
        ensures
            (final(self)@, r@) == stop(old(self)@),
    {
        self.stopping = true;
        self.pending_action()
    }
}

} // verus!
