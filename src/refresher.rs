use vstd::prelude::*;
use crate::gateway::Resource;
use crate::signature::SignatureStatus;

verus! {

/// Default wait after a confirmation before dependent state is read again,
/// in milliseconds. The ledger's read paths may lag behind a confirmation.
pub const SETTLE_DELAY_MS: u64 = 1000;

/// How far the refresher is with the confirmation it last observed.
#[derive(Clone, Copy, Debug, PartialEq, Eq)]
pub enum RefreshPhase {
    /// No confirmation is pending.
    Idle,
    /// A confirmation was observed; the settle delay runs.
    Settling,
    /// The resource was fetched again for the confirmation observed.
    Refreshed,
}

/// What the refresher is told.
#[derive(Debug, PartialEq, Eq)]
pub enum RefreshEvent {
    /// The signature machine was seen in this status.
    Observed(SignatureStatus),
    /// The settle delay asked for has passed.
    SettleElapsed,
}

/// What the refresher asks its caller to do next.
#[derive(Clone, Copy, Debug, PartialEq, Eq)]
pub enum RefreshAction {
    Nothing,
    /// Wait this many milliseconds, then report `SettleElapsed`.
    WaitMillis(u64),
    /// Fetch this resource again from the gateway.
    Refetch(Resource),
}

/// Fetches a resource again once, a settle delay after each confirmation.
pub struct DependentResourceRefresher {
    pub resource: Resource,
    pub settle_delay_ms: u64,
    pub phase: RefreshPhase,
}

/// The abstract state of a refresher.
pub struct RefresherState {
    pub resource: Resource,
    pub settle_delay_ms: u64,
    pub phase: RefreshPhase,
}

impl DependentResourceRefresher {
    pub open spec fn view(&self) -> RefresherState {
        RefresherState { resource: self.resource, settle_delay_ms: self.settle_delay_ms, phase: self.phase }
    }
}

/// One transition. A confirmation starts the settle delay unless one is
/// already being handled; the end of the delay triggers the fetch; any other
/// status (a new attempt) re-arms the refresher and drops a pending delay.
pub open spec fn refresh_step(r: RefresherState, e: RefreshEvent) -> (RefresherState, RefreshAction) {
    match e {
        RefreshEvent::Observed(s) => if s is Done {
            if r.phase is Idle {
                (RefresherState { phase: RefreshPhase::Settling, ..r }, RefreshAction::WaitMillis(r.settle_delay_ms))
            } else {
                (r, RefreshAction::Nothing)
            }
        } else {
            (RefresherState { phase: RefreshPhase::Idle, ..r }, RefreshAction::Nothing)
        },
        RefreshEvent::SettleElapsed => if r.phase is Settling {
            (RefresherState { phase: RefreshPhase::Refreshed, ..r }, RefreshAction::Refetch(r.resource))
        } else {
            (r, RefreshAction::Nothing)
        },
    }
}

/// The state after the first `i` events.
pub open spec fn state_after(r: RefresherState, events: Seq<RefreshEvent>, i: int) -> RefresherState
    decreases i,
{
    if i <= 0 {
        r
    } else {
        refresh_step(state_after(r, events, i - 1), events[i - 1]).0
    }
}

/// The action asked after each event of a run.
pub open spec fn refresh_actions(r: RefresherState, events: Seq<RefreshEvent>) -> Seq<RefreshAction> {
    Seq::new(events.len(), |i: int| refresh_step(state_after(r, events, i), events[i]).1)
}

impl DependentResourceRefresher {
    /// An idle refresher of `resource` with the given settle delay.
    pub fn new(resource: Resource, settle_delay_ms: u64) -> (r: DependentResourceRefresher)
        ensures
            r@ == (RefresherState { resource, settle_delay_ms, phase: RefreshPhase::Idle }),
    {
        DependentResourceRefresher { resource, settle_delay_ms, phase: RefreshPhase::Idle }
    }

    /// Observes the signature machine in status `s`; returns what the caller
    /// must do next.
    pub fn observe(&mut self, s: &SignatureStatus) -> (a: RefreshAction)
        ensures
            (final(self)@, a) == refresh_step(old(self)@, RefreshEvent::Observed(*s)),
    {
        let done = match s {
            SignatureStatus::Done(_) => true,
            _ => false,
        };
        if done {
            match self.phase {
                RefreshPhase::Idle => {
                    self.phase = RefreshPhase::Settling;
                    RefreshAction::WaitMillis(self.settle_delay_ms)
                },
                _ => RefreshAction::Nothing,
            }
        } else {
            self.phase = RefreshPhase::Idle;
            RefreshAction::Nothing
        }
    }

    /// Told that the settle delay has passed; returns what the caller must do next.
    pub fn settle_elapsed(&mut self) -> (a: RefreshAction)
        ensures
            (final(self)@, a) == refresh_step(old(self)@, RefreshEvent::SettleElapsed),
    {
        match self.phase {
            RefreshPhase::Settling => {
                self.phase = RefreshPhase::Refreshed;
                RefreshAction::Refetch(self.resource)
            },
            _ => RefreshAction::Nothing,
        }
    }
}

/// Whether every status observed in a run is a confirmation: the machine
/// reached `Done` once and stays there, however often it is observed.
pub open spec fn observes_only_done(events: Seq<RefreshEvent>) -> bool {
    forall|i: int| 0 <= i < events.len() ==> (#[trigger] events[i] matches RefreshEvent::Observed(s) ==> s is Done)
}

proof fn lemma_phase_idle(r: RefresherState, events: Seq<RefreshEvent>, p: int, i: int)
    requires
        r.phase is Idle,
        0 <= i <= p <= events.len(),
        forall|k: int| 0 <= k < p ==> #[trigger] events[k] is SettleElapsed,
    ensures
        state_after(r, events, i) == r,
    decreases i,
{
    if i > 0 {
        lemma_phase_idle(r, events, p, i - 1);
        assert(events[i - 1] is SettleElapsed);
    }
}

proof fn lemma_phase_settling(r: RefresherState, events: Seq<RefreshEvent>, p: int, q: int, i: int)
    requires
        r.phase is Idle,
        observes_only_done(events),
        0 <= p < i <= q <= events.len(),
        events[p] is Observed,
        forall|k: int| 0 <= k < p ==> #[trigger] events[k] is SettleElapsed,
        forall|k: int| p < k < q ==> #[trigger] events[k] is Observed,
    ensures
        state_after(r, events, i) == (RefresherState { phase: RefreshPhase::Settling, ..r }),
    decreases i,
{
    if i == p + 1 {
        lemma_phase_idle(r, events, p, p);
        assert(events[p] matches RefreshEvent::Observed(s) ==> s is Done);
    } else {
        lemma_phase_settling(r, events, p, q, i - 1);
        assert(events[i - 1] is Observed);
        assert(events[i - 1] matches RefreshEvent::Observed(s) ==> s is Done);
    }
}

proof fn lemma_phase_refreshed(r: RefresherState, events: Seq<RefreshEvent>, p: int, q: int, i: int)
    requires
        r.phase is Idle,
        observes_only_done(events),
        0 <= p < q < i <= events.len(),
        events[p] is Observed,
        events[q] is SettleElapsed,
        forall|k: int| 0 <= k < p ==> #[trigger] events[k] is SettleElapsed,
        forall|k: int| p < k < q ==> #[trigger] events[k] is Observed,
    ensures
        state_after(r, events, i) == (RefresherState { phase: RefreshPhase::Refreshed, ..r }),
    decreases i,
{
    if i == q + 1 {
        lemma_phase_settling(r, events, p, q, q);
    } else {
        lemma_phase_refreshed(r, events, p, q, i - 1);
        assert(events[i - 1] matches RefreshEvent::Observed(s) ==> s is Done);
    }
}

/// Once the signature machine has reached `Done`, observed at event `p` and
/// at any later events, and the settle delay ends at event `q`, an idle
/// refresher asks for the delay at `p`, fetches its resource at `q`, once,
/// and asks nothing else.
pub proof fn lemma_single_refetch(r: RefresherState, events: Seq<RefreshEvent>, p: int, q: int)
    requires
        r.phase is Idle,
        observes_only_done(events),
        0 <= p < q < events.len(),
        events[p] is Observed,
        events[q] is SettleElapsed,
        forall|k: int| 0 <= k < p ==> #[trigger] events[k] is SettleElapsed,
        forall|k: int| p < k < q ==> #[trigger] events[k] is Observed,
    ensures
        refresh_actions(r, events)[p] == RefreshAction::WaitMillis(r.settle_delay_ms),
        refresh_actions(r, events)[q] == RefreshAction::Refetch(r.resource),
        forall|i: int| 0 <= i < events.len() && i != p && i != q
            ==> #[trigger] refresh_actions(r, events)[i] is Nothing,
{
    let acts = refresh_actions(r, events);
    lemma_phase_idle(r, events, p, p);
    assert(events[p] matches RefreshEvent::Observed(s) ==> s is Done);
    lemma_phase_settling(r, events, p, q, q);
    assert forall|i: int| 0 <= i < events.len() && i != p && i != q implies #[trigger] acts[i] is Nothing by {
        if i < p {
            lemma_phase_idle(r, events, p, i);
        } else if i < q {
            lemma_phase_settling(r, events, p, q, i);
            assert(events[i] matches RefreshEvent::Observed(s) ==> s is Done);
        } else {
            lemma_phase_refreshed(r, events, p, q, i);
            assert(events[i] matches RefreshEvent::Observed(s) ==> s is Done);
        }
    }
}

/// Before the settle delay has ended, an idle refresher that has observed the
/// confirmation at event `p` fetches nothing.
pub proof fn lemma_no_refetch_before_delay(r: RefresherState, events: Seq<RefreshEvent>, p: int)
    requires
        r.phase is Idle,
        observes_only_done(events),
        0 <= p < events.len(),
        events[p] is Observed,
        forall|k: int| 0 <= k < p ==> #[trigger] events[k] is SettleElapsed,
        forall|k: int| p < k < events.len() ==> #[trigger] events[k] is Observed,
    ensures
        refresh_actions(r, events)[p] == RefreshAction::WaitMillis(r.settle_delay_ms),
        forall|i: int| 0 <= i < events.len() && i != p ==> #[trigger] refresh_actions(r, events)[i] is Nothing,
{
    let acts = refresh_actions(r, events);
    let n = events.len() as int;
    lemma_phase_idle(r, events, p, p);
    assert(events[p] matches RefreshEvent::Observed(s) ==> s is Done);
    assert forall|i: int| 0 <= i < events.len() && i != p implies #[trigger] acts[i] is Nothing by {
        if i < p {
            lemma_phase_idle(r, events, p, i);
        } else {
            lemma_phase_settling(r, events, p, n, i);
            assert(events[i] matches RefreshEvent::Observed(s) ==> s is Done);
        }
    }
}

} // verus!
