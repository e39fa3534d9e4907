use vstd::prelude::*;

use crate::message::{Message, MessageView};

verus! {

/// What the dispatcher does next.
#[derive(Debug, PartialEq, Eq)]
pub enum DispatchAction {
    /// Receive a batch of at most `max` messages from the input queue.
    Receive { max: usize },
    /// Wait until a worker takes a message from the dispatch channel.
    WaitForWorker,
    /// Leave the dispatch loop.
    Stop,
}

/// What to do with the result of a receive.
#[derive(Debug, PartialEq, Eq)]
pub enum ReceiveStep {
    /// Nothing came: sleep this many milliseconds before the next receive.
    Sleep { msec: u64 },
    /// Hand these messages, in this order, to the dispatch channel.
    Dispatch(Vec<Message>),
}

/// What to do with a receive's result, with each message seen through its view.
pub enum ReceiveStepView {
    Sleep { msec: u64 },
    Dispatch(Seq<MessageView>),
}

/// The views of a sequence of messages.
pub open spec fn views(ms: Seq<Message>) -> Seq<MessageView> {
    ms.map_values(|m: Message| m@)
}

impl View for ReceiveStep {
    type V = ReceiveStepView;

    open spec fn view(&self) -> ReceiveStepView {
        match self {
            ReceiveStep::Sleep { msec } => ReceiveStepView::Sleep { msec: *msec },
            ReceiveStep::Dispatch(ms) => ReceiveStepView::Dispatch(views(ms@)),
        }
    }
}

/// The dispatcher's state: the size of the worker pool, the batch size asked of
/// the queue, the idle sleep, how many dispatched messages no worker has taken
/// yet, the received messages that wait for room in the dispatch channel (in
/// the order received), and whether shutdown has been signalled.
pub struct DispatcherView {
    pub capacity: nat,
    pub batch_limit: nat,
    pub sleep_msec: u64,
    pub outstanding: nat,
    pub backlog: Seq<MessageView>,
    pub stopped: bool,
}

/// The dispatch channel holds no more messages waiting for a worker than there
/// are workers.
pub open spec fn bounded(d: DispatcherView) -> bool {
    d.outstanding <= d.capacity
}

/// How many more messages may be handed to the dispatch channel before a
/// worker takes one.
pub open spec fn room(d: DispatcherView) -> nat {
    if d.outstanding <= d.capacity {
        (d.capacity - d.outstanding) as nat
    } else {
        0
    }
}

/// The dispatcher's next action: stop once shutdown is signalled; wait for a
/// worker while received messages still wait for room or the channel is full;
/// otherwise receive a batch of the configured size.
pub open spec fn next_action(d: DispatcherView) -> DispatchAction {
    if d.stopped {
        DispatchAction::Stop
    } else if d.backlog.len() > 0 || room(d) == 0 {
        DispatchAction::WaitForWorker
    } else {
        DispatchAction::Receive { max: d.batch_limit as usize }
    }
}

/// Hands the front of the backlog to the dispatch channel, as much of it as
/// there is room for; the rest keeps waiting, in order.
pub open spec fn release(d: DispatcherView) -> (DispatcherView, Seq<MessageView>) {
    let n = if d.backlog.len() <= room(d) {
        d.backlog.len()
    } else {
        room(d)
    };
    (
        DispatcherView {
            outstanding: d.outstanding + n,
            backlog: d.backlog.subrange(n as int, d.backlog.len() as int),
            ..d
        },
        d.backlog.take(n as int),
    )
}

/// A receive returned `batch` (`None` when the queue returned no list). An
/// absent or empty batch means a sleep. Otherwise the batch joins the end of
/// the backlog, and the backlog's front is dispatched as far as there is room.
pub open spec fn received(d: DispatcherView, batch: Option<Seq<MessageView>>) -> (
    DispatcherView,
    ReceiveStepView,
) {
    match batch {
        Some(b) if b.len() > 0 => {
            let (next, out) = release(DispatcherView { backlog: d.backlog + b, ..d });
            (next, ReceiveStepView::Dispatch(out))
        },
        _ => (d, ReceiveStepView::Sleep { msec: d.sleep_msec }),
    }
}

/// A receive failed: the dispatcher sleeps and tries again.
pub open spec fn receive_failed(d: DispatcherView) -> (DispatcherView, ReceiveStepView) {
    (d, ReceiveStepView::Sleep { msec: d.sleep_msec })
}

/// A worker took a message from the dispatch channel: the slot it freed goes
/// to the front of the backlog.
pub open spec fn taken(d: DispatcherView) -> (DispatcherView, Seq<MessageView>) {
    release(
        DispatcherView {
            outstanding: if d.outstanding > 0 {
                (d.outstanding - 1) as nat
            } else {
                0
            },
            ..d
        },
    )
}

/// Shutdown was signalled.
pub open spec fn halted(d: DispatcherView) -> DispatcherView {
    DispatcherView { stopped: true, ..d }
}

/// The slots of the dispatch channel: its capacity and how many dispatched
/// messages no worker has taken yet, never more than the capacity.
struct Slots {
    capacity: usize,
    outstanding: usize,
}

impl Slots {
    #[verifier::type_invariant]
    spec fn within_capacity(&self) -> bool {
        self.outstanding <= self.capacity
    }

    spec fn free(&self) -> nat {
        (self.capacity - self.outstanding) as nat
    }

    fn new(capacity: usize) -> (s: Slots)
        ensures
            s.capacity == capacity,
            s.outstanding == 0,
    {
        Slots { capacity, outstanding: 0 }
    }

    fn room(&self) -> (r: usize)
        ensures
            r == self.capacity - self.outstanding,
            self.outstanding <= self.capacity,
    {
        proof {
            use_type_invariant(self);
        }
        self.capacity - self.outstanding
    }

    fn fill(&mut self, n: usize)
        requires
            n <= old(self).free(),
        ensures
            final(self).capacity == old(self).capacity,
            final(self).outstanding == old(self).outstanding + n,
            final(self).outstanding <= final(self).capacity,
    {
        proof {
            use_type_invariant(&*self);
        }
        self.outstanding = self.outstanding + n;
    }

    fn free_one(&mut self)
        ensures
            final(self).capacity == old(self).capacity,
            final(self).outstanding == if old(self).outstanding > 0 {
                old(self).outstanding - 1
            } else {
                0
            },
            final(self).outstanding <= final(self).capacity,
    {
        proof {
            use_type_invariant(&*self);
        }
        if self.outstanding > 0 {
            self.outstanding = self.outstanding - 1;
        }
    }

    fn within(&self)
        ensures
            self.outstanding <= self.capacity,
    {
        proof {
            use_type_invariant(self);
        }
    }
}

/// The single task that polls the input queue and feeds the workers.
pub struct Dispatcher {
    slots: Slots,
    batch_limit: usize,
    sleep_msec: u64,
    backlog: Vec<Message>,
    stopped: bool,
}

impl View for Dispatcher {
    type V = DispatcherView;

    closed spec fn view(&self) -> DispatcherView {
        DispatcherView {
            capacity: self.slots.capacity as nat,
            batch_limit: self.batch_limit as nat,
            sleep_msec: self.sleep_msec,
            outstanding: self.slots.outstanding as nat,
            backlog: views(self.backlog@),
            stopped: self.stopped,
        }
    }
}

impl Dispatcher {
    /// A dispatcher for `workers` workers that asks for up to `batch_limit`
    /// messages per receive and sleeps `sleep_msec` milliseconds when idle.
    pub fn new(workers: usize, batch_limit: usize, sleep_msec: u64) -> (d: Dispatcher)
        ensures
            d@ == (DispatcherView {
                capacity: workers as nat,
                batch_limit: batch_limit as nat,
                sleep_msec,
                outstanding: 0,
                backlog: Seq::empty(),
                stopped: false,
            }),
            bounded(d@),
    {
        let d = Dispatcher {
            slots: Slots::new(workers),
            batch_limit,
            sleep_msec,
            backlog: Vec::new(),
            stopped: false,
        };
        proof {
            assert(views(d.backlog@) =~= Seq::empty());
        }
        d
    }

    /// How many dispatched messages no worker has taken yet; never more than
    /// there are workers.
    pub fn outstanding(&self) -> (r: usize)
        ensures
            r == self@.outstanding,
            bounded(self@),
    {
        self.slots.within();
        self.slots.outstanding
    }

    /// How many received messages wait for room in the dispatch channel.
    pub fn backlog_len(&self) -> (r: usize)
        ensures
            r == self@.backlog.len(),
    {
        self.backlog.len()
    }

    /// What the dispatcher does next.
    pub fn next_action(&self) -> (r: DispatchAction)
        ensures
            r == next_action(self@),
    {
        if self.stopped {
            DispatchAction::Stop
        } else if self.backlog.len() > 0 || self.slots.room() == 0 {
            DispatchAction::WaitForWorker
        } else {
            DispatchAction::Receive { max: self.batch_limit }
        }
    }

    fn release(&mut self) -> (out: Vec<Message>)
        ensures
            (final(self)@, views(out@)) == release(old(self)@),
            bounded(final(self)@),
    {
        let room = self.slots.room();
        let n = if self.backlog.len() <= room {
            self.backlog.len()
        } else {
            room
        };
        let ghost whole = self.backlog@;
        let mut out = self.backlog.split_off(n);
        std::mem::swap(&mut out, &mut self.backlog);
        self.slots.fill(n);
        proof {
            assert(views(out@) =~= views(whole).take(n as int));
            assert(views(self.backlog@) =~= views(whole).subrange(n as int, whole.len() as int));
        }
        out
    }

    /// A receive returned `batch`; `None` when the queue returned no list.
    pub fn on_received(&mut self, batch: Option<Vec<Message>>) -> (r: ReceiveStep)
        ensures
            (final(self)@, r@) == received(
                old(self)@,
                match batch {
                    Some(b) => Some(views(b@)),
                    None => None,
                },
            ),
            bounded(final(self)@),
    {
        self.slots.within();
        match batch {
            Some(mut b) => {
                if b.len() == 0 {
                    return ReceiveStep::Sleep { msec: self.sleep_msec };
                }
                let ghost before = self.backlog@;
                let ghost added = b@;
                self.backlog.append(&mut b);
                proof {
                    assert(views(self.backlog@) =~= views(before) + views(added));
                }
                ReceiveStep::Dispatch(self.release())
            },
            None => ReceiveStep::Sleep { msec: self.sleep_msec },
        }
    }

    /// A receive failed.
    pub fn on_receive_failed(&mut self) -> (r: ReceiveStep)
        ensures
            (final(self)@, r@) == receive_failed(old(self)@),
            bounded(final(self)@),
    {
        self.slots.within();
        ReceiveStep::Sleep { msec: self.sleep_msec }
    }

    /// A worker took a message from the dispatch channel; returns the messages
    /// to hand to the channel now, in order.
    pub fn on_taken(&mut self) -> (out: Vec<Message>)
        ensures
            (final(self)@, views(out@)) == taken(old(self)@),
            bounded(final(self)@),
    {
        self.slots.free_one();
        self.release()
    }

    /// Shutdown was signalled.
    pub fn on_shutdown(&mut self)
        ensures
            final(self)@ == halted(old(self)@),
            bounded(final(self)@),
    {
        self.slots.within();
        self.stopped = true;
    }
}

/// No step of the dispatcher goes beyond the bound, a step hands out no more
/// messages than there is room for, and a receive is asked for only when the
/// channel has room and no received message is still waiting.
pub proof fn lemma_dispatch_is_bounded(d: DispatcherView, batch: Option<Seq<MessageView>>)
    requires
        bounded(d),
    ensures
        bounded(received(d, batch).0),
        bounded(receive_failed(d).0),
        bounded(taken(d).0),
        bounded(halted(d)),
        received(d, batch).1 matches ReceiveStepView::Dispatch(out) ==> d.outstanding + out.len()
            <= d.capacity,
        next_action(d) is Receive ==> d.backlog.len() == 0 && d.outstanding < d.capacity,
{
}

/// A receive loses and repeats nothing: the messages it dispatches, followed by
/// those left waiting, are the earlier backlog followed by the batch, in order.
/// A worker taking a message likewise only moves the backlog's front into the
/// channel.
pub proof fn lemma_dispatch_keeps_every_message(d: DispatcherView, b: Seq<MessageView>)
    ensures
        b.len() > 0 ==> (received(d, Some(b)).1 matches ReceiveStepView::Dispatch(out) && out
            + received(d, Some(b)).0.backlog == d.backlog + b),
        taken(d).1 + taken(d).0.backlog == d.backlog,
{
    let (next, out) = release(DispatcherView { backlog: d.backlog + b, ..d });
    assert(out + next.backlog =~= d.backlog + b);
    assert(taken(d).1 + taken(d).0.backlog =~= d.backlog);
}

/// An event of the dispatch loop.
pub enum DispatchEvent {
    /// A receive returned this batch (`None` when the queue returned no list).
    Received(Option<Seq<MessageView>>),
    /// A receive failed.
    Failed,
    /// A worker took a message from the dispatch channel.
    Taken,
}

/// One event's effect: the next state and the messages handed to the channel.
pub open spec fn on_event(d: DispatcherView, e: DispatchEvent) -> (DispatcherView, Seq<MessageView>) {
    match e {
        DispatchEvent::Received(batch) => match received(d, batch) {
            (next, ReceiveStepView::Dispatch(out)) => (next, out),
            (next, _) => (next, Seq::empty()),
        },
        DispatchEvent::Failed => (receive_failed(d).0, Seq::empty()),
        DispatchEvent::Taken => taken(d),
    }
}

/// The state after a run of events, and every message handed to the dispatch
/// channel along the way, in order.
pub open spec fn run(d: DispatcherView, events: Seq<DispatchEvent>) -> (DispatcherView, Seq<MessageView>)
    decreases events.len(),
{
    if events.len() == 0 {
        (d, Seq::empty())
    } else {
        let (next, out) = on_event(d, events[0]);
        let (last, rest) = run(next, events.drop_first());
        (last, out + rest)
    }
}

/// Every message of the batches received during a run, in order.
pub open spec fn batches(events: Seq<DispatchEvent>) -> Seq<MessageView>
    decreases events.len(),
{
    if events.len() == 0 {
        Seq::empty()
    } else {
        let here = match events[0] {
            DispatchEvent::Received(Some(b)) => b,
            _ => Seq::empty(),
        };
        here + batches(events.drop_first())
    }
}

/// Over any run, the messages handed to the dispatch channel, followed by those
/// still waiting, are the earlier backlog followed by every received batch: each
/// received message is dispatched once, in the order received, and none is
/// dropped. The bound on the channel holds throughout.
pub proof fn lemma_run_dispatches_in_order(d: DispatcherView, events: Seq<DispatchEvent>)
    requires
        bounded(d),
    ensures
        run(d, events).1 + run(d, events).0.backlog == d.backlog + batches(events),
        bounded(run(d, events).0),
    decreases events.len(),
{
    if events.len() > 0 {
        let (next, out) = on_event(d, events[0]);
        let rest = events.drop_first();
        let here = match events[0] {
            DispatchEvent::Received(Some(b)) => b,
            _ => Seq::<MessageView>::empty(),
        };
        match events[0] {
            DispatchEvent::Received(Some(b)) => {
                lemma_dispatch_keeps_every_message(d, b);
                if b.len() == 0 {
                    assert(out =~= Seq::empty());
                }
            },
            DispatchEvent::Taken => {
                lemma_dispatch_keeps_every_message(d, Seq::empty());
            },
            _ => {
                assert(out =~= Seq::empty());
            },
        }
        assert(out + next.backlog =~= d.backlog + here);
        lemma_dispatch_is_bounded(
            d,
            match events[0] {
                DispatchEvent::Received(batch) => batch,
                _ => None,
            },
        );
        lemma_run_dispatches_in_order(next, rest);
        let (last, later) = run(next, rest);
        assert(batches(events) == here + batches(rest));
        assert(run(d, events).1 == out + later);
        assert((out + later) + last.backlog =~= (out + next.backlog) + batches(rest)) by {
            assert(later + last.backlog == next.backlog + batches(rest));
            assert((out + later) + last.backlog =~= out + (later + last.backlog));
            assert((out + next.backlog) + batches(rest) =~= out + (next.backlog + batches(rest)));
        }
        assert((d.backlog + here) + batches(rest) =~= d.backlog + (here + batches(rest)));
    }
}

} // verus!
