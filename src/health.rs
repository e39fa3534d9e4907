use vstd::prelude::*;

verus! {

/// What the readiness gate does after an event.
#[derive(Clone, Copy, Debug, PartialEq, Eq, Structural)]
pub enum GateAction {
    /// The endpoint is not ready: sleep this many seconds, then check again.
    Sleep { seconds: u64 },
    /// The endpoint answered 2xx: start the workers and the dispatcher.
    Open,
    /// Shutdown came first: leave without starting anything.
    Abandon,
}

/// Where the readiness gate stands.
#[derive(Clone, Copy, Debug, PartialEq, Eq, Structural)]
pub enum GateState {
    Checking,
    Open,
    Cancelled,
}

/// The readiness gate's state: its retry interval and where it stands.
pub struct GateView {
    pub interval_seconds: u64,
    pub state: GateState,
}

/// The readiness gate's answer to one health check: it opens on the first success and
/// otherwise asks for a sleep of the configured interval; once open or
/// cancelled it stays so.
pub open spec fn checked(g: GateView, ok: bool) -> (GateView, GateAction) {
    match g.state {
        GateState::Checking => if ok {
            (GateView { state: GateState::Open, ..g }, GateAction::Open)
        } else {
            (g, GateAction::Sleep { seconds: g.interval_seconds })
        },
        GateState::Open => (g, GateAction::Open),
        GateState::Cancelled => (g, GateAction::Abandon),
    }
}

/// Shutdown was signalled: a gate still checking is cancelled.
pub open spec fn cancelled(g: GateView) -> (GateView, GateAction) {
    match g.state {
        GateState::Open => (g, GateAction::Open),
        _ => (GateView { state: GateState::Cancelled, ..g }, GateAction::Abandon),
    }
}

/// The actions that a run of health checks with these outcomes leads to, up
/// to the first that is not a sleep.
pub open spec fn gate_run(g: GateView, results: Seq<bool>) -> Seq<GateAction>
    decreases results.len(),
{
    if results.len() == 0 {
        Seq::empty()
    } else {
        let (next, a) = checked(g, results[0]);
        if a is Sleep {
            seq![a] + gate_run(next, results.drop_first())
        } else {
            seq![a]
        }
    }
}

/// The readiness gate that holds back the workers until the endpoint is healthy.
pub struct HealthGate {
    interval_seconds: u64,
    state: GateState,
}

impl View for HealthGate {
    type V = GateView;

    closed spec fn view(&self) -> GateView {
        GateView { interval_seconds: self.interval_seconds, state: self.state }
    }
}

impl HealthGate {
    /// A closed gate that checks again every `interval_seconds` seconds.
    pub fn new(interval_seconds: u64) -> (g: HealthGate)
        ensures
            g@ == (GateView { interval_seconds, state: GateState::Checking }),
    {
        HealthGate { interval_seconds, state: GateState::Checking }
    }

    /// Where the readiness gate stands.
    pub fn state(&self) -> (r: GateState)
        ensures
            r == self@.state,
    {
        self.state
    }

    /// A health check finished; `ok` when the endpoint answered 2xx.
    pub fn on_checked(&mut self, ok: bool) -> (r: GateAction)
        ensures
            (final(self)@, r) == checked(old(self)@, ok),
    {
        match self.state {
            GateState::Checking => if ok {
                self.state = GateState::Open;
                GateAction::Open
            } else {
                GateAction::Sleep { seconds: self.interval_seconds }
            },
            GateState::Open => GateAction::Open,
            GateState::Cancelled => GateAction::Abandon,
        }
    }

    /// Shutdown was signalled.
    pub fn on_shutdown(&mut self) -> (r: GateAction)
        ensures
            (final(self)@, r) == cancelled(old(self)@),
    {
        match self.state {
            GateState::Open => GateAction::Open,
            _ => {
                self.state = GateState::Cancelled;
                GateAction::Abandon
            },
        }
    }
}

/// The readiness gate retries exactly until the first success: when the first success
/// comes at attempt `k`, the readiness gate sleeps the configured interval after each of
/// the `k` failures before it and then opens.
pub proof fn lemma_gate_opens_at_first_success(g: GateView, results: Seq<bool>, k: int)
    requires
        g.state == GateState::Checking,
        0 <= k < results.len(),
        results[k],
        forall|j: int| 0 <= j < k ==> !results[j],
    ensures
        gate_run(g, results) == Seq::new(k as nat, |i: int| GateAction::Sleep { seconds: g.interval_seconds })
            + seq![GateAction::Open],
    decreases k,
{
    if k == 0 {
        assert(gate_run(g, results) =~= seq![GateAction::Open]);
        assert(Seq::new(0, |i: int| GateAction::Sleep { seconds: g.interval_seconds }) + seq![
            GateAction::Open,
        ] =~= seq![GateAction::Open]);
    } else {
        let rest = results.drop_first();
        assert forall|j: int| 0 <= j < k - 1 implies !rest[j] by {
            assert(rest[j] == results[j + 1]);
        }
        lemma_gate_opens_at_first_success(g, rest, k - 1);
        assert(gate_run(g, results) =~= Seq::new(
            k as nat,
            |i: int| GateAction::Sleep { seconds: g.interval_seconds },
        ) + seq![GateAction::Open]);
    }
}

/// Without a success the readiness gate never opens: it sleeps the configured interval
/// after every failed check.
pub proof fn lemma_gate_stays_closed(g: GateView, results: Seq<bool>)
    requires
        g.state == GateState::Checking,
        forall|j: int| 0 <= j < results.len() ==> !results[j],
    ensures
        gate_run(g, results) == Seq::new(
            results.len(),
            |i: int| GateAction::Sleep { seconds: g.interval_seconds },
        ),
    decreases results.len(),
{
    if results.len() == 0 {
        assert(gate_run(g, results) =~= Seq::new(
            0,
            |i: int| GateAction::Sleep { seconds: g.interval_seconds },
        ));
    } else {
        let rest = results.drop_first();
        assert forall|j: int| 0 <= j < rest.len() implies !rest[j] by {
            assert(rest[j] == results[j + 1]);
        }
        lemma_gate_stays_closed(g, rest);
        assert(gate_run(g, results) =~= Seq::new(
            results.len(),
            |i: int| GateAction::Sleep { seconds: g.interval_seconds },
        ));
    }
}

} // verus!
