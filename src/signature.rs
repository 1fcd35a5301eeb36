use vstd::prelude::*;
use crate::gateway::{GatewayError, TransactionId};

verus! {

/// Why an attempt to sign and submit a transaction failed.
#[derive(Clone, Debug, PartialEq, Eq)]
pub enum FlowError {
    /// Assembly or submission failed at the gateway.
    Gateway(GatewayError),
    /// The wallet refused to sign.
    SigningRefused,
}

/// Where an attempt to sign and submit a transaction stands.
#[derive(Clone, Debug, PartialEq, Eq)]
pub enum SignatureStatus {
    /// Nothing has been asked yet.
    Start,
    /// A signature or a submission is in flight.
    Waiting,
    /// The ledger confirmed the transaction under this identifier.
    Done(TransactionId),
    /// The attempt failed.
    Failed(FlowError),
}

/// Whether a status ends an attempt.
pub open spec fn is_terminal(s: SignatureStatus) -> bool {
    s is Done || s is Failed
}

/// What the machine is told.
#[derive(Debug, PartialEq, Eq)]
pub enum SignatureEvent {
    /// The user asks to sign the assembled transaction.
    SignRequested,
    /// The wallet signed it.
    Signed,
    /// The wallet refused to sign.
    SignRefused,
    /// The gateway answered the submission.
    Submitted(Result<TransactionId, GatewayError>),
}

/// What the machine asks its caller to do next.
#[derive(Clone, Copy, Debug, PartialEq, Eq)]
pub enum SignatureAction {
    Nothing,
    /// Ask the wallet to sign the transaction.
    RequestSignature,
    /// Submit the signed transaction to the gateway.
    Submit,
}

/// The wallet-signature state machine. Its status is `Waiting` from the
/// moment a signature is asked until the submission is answered; while it
/// waits, `submitting` tells whether the wallet has signed.
pub struct InvokeSignatureMachine {
    pub status: SignatureStatus,
    pub submitting: bool,
}

/// The abstract state of the machine.
pub struct MachineState {
    pub status: SignatureStatus,
    pub submitting: bool,
}

impl InvokeSignatureMachine {
    pub open spec fn view(&self) -> MachineState {
        MachineState { status: self.status, submitting: self.submitting }
    }
}

/// The state in which every machine starts.
pub open spec fn initial_state() -> MachineState {
    MachineState { status: SignatureStatus::Start, submitting: false }
}

/// One transition: the next state and the action asked of the caller.
/// A new attempt may start from `Start` or after a failure; an event that
/// does not fit the state changes nothing.
pub open spec fn spec_step(m: MachineState, e: SignatureEvent) -> (MachineState, SignatureAction) {
    match e {
        SignatureEvent::SignRequested => if m.status is Start || m.status is Failed {
            (MachineState { status: SignatureStatus::Waiting, submitting: false }, SignatureAction::RequestSignature)
        } else {
            (m, SignatureAction::Nothing)
        },
        SignatureEvent::Signed => if m.status is Waiting && !m.submitting {
            (MachineState { status: SignatureStatus::Waiting, submitting: true }, SignatureAction::Submit)
        } else {
            (m, SignatureAction::Nothing)
        },
        SignatureEvent::SignRefused => if m.status is Waiting && !m.submitting {
            (
                MachineState { status: SignatureStatus::Failed(FlowError::SigningRefused), submitting: false },
                SignatureAction::Nothing,
            )
        } else {
            (m, SignatureAction::Nothing)
        },
        SignatureEvent::Submitted(r) => if m.status is Waiting && m.submitting {
            match r {
                Ok(id) => (MachineState { status: SignatureStatus::Done(id), submitting: false }, SignatureAction::Nothing),
                Err(err) => (
                    MachineState { status: SignatureStatus::Failed(FlowError::Gateway(err)), submitting: false },
                    SignatureAction::Nothing,
                ),
            }
        } else {
            (m, SignatureAction::Nothing)
        },
    }
}

/// The statuses that a machine passes through on a run of events, the
/// first being its status before any event.
pub open spec fn status_trace(m: MachineState, events: Seq<SignatureEvent>) -> Seq<SignatureStatus>
    decreases events.len(),
{
    if events.len() == 0 {
        seq![m.status]
    } else {
        seq![m.status] + status_trace(spec_step(m, events[0]).0, events.drop_first())
    }
}

impl InvokeSignatureMachine {
    /// A machine in `Start`.
    pub fn new() -> (r: InvokeSignatureMachine)
        ensures
            r@ == initial_state(),
    {
        InvokeSignatureMachine { status: SignatureStatus::Start, submitting: false }
    }

    /// Whether a signature or a submission is in flight.
    pub fn is_waiting(&self) -> (r: bool)
        ensures
            r == (self.status is Waiting),
    {
        match self.status {
            SignatureStatus::Waiting => true,
            _ => false,
        }
    }

    /// Takes one event and returns what the caller must do next.
    pub fn step(&mut self, e: SignatureEvent) -> (a: SignatureAction)
        ensures
            (final(self)@, a) == spec_step(old(self)@, e),
    {
        let can_start = match self.status {
            SignatureStatus::Start => true,
            SignatureStatus::Failed(_) => true,
            _ => false,
        };
        let waiting = self.is_waiting();
        match e {
            SignatureEvent::SignRequested => {
                if can_start {
                    self.status = SignatureStatus::Waiting;
                    self.submitting = false;
                    SignatureAction::RequestSignature
                } else {
                    SignatureAction::Nothing
                }
            },
            SignatureEvent::Signed => {
                if waiting && !self.submitting {
                    self.submitting = true;
                    SignatureAction::Submit
                } else {
                    SignatureAction::Nothing
                }
            },
            SignatureEvent::SignRefused => {
                if waiting && !self.submitting {
                    self.status = SignatureStatus::Failed(FlowError::SigningRefused);
                    SignatureAction::Nothing
                } else {
                    SignatureAction::Nothing
                }
            },
            SignatureEvent::Submitted(r) => {
                if waiting && self.submitting {
                    self.submitting = false;
                    match r {
                        Ok(id) => {
                            self.status = SignatureStatus::Done(id);
                        },
                        Err(err) => {
                            self.status = SignatureStatus::Failed(FlowError::Gateway(err));
                        },
                    }
                    SignatureAction::Nothing
                } else {
                    SignatureAction::Nothing
                }
            },
        }
    }
}

/// From `Start`, one event leads to `Start` or to `Waiting`, never straight
/// to `Done` or `Failed`.
pub proof fn lemma_start_goes_to_waiting(e: SignatureEvent)
    ensures
        spec_step(initial_state(), e).0.status is Start || spec_step(initial_state(), e).0.status is Waiting,
{
}

/// A machine that starts in `Start` and is driven by any events visits
/// `Waiting` before each time it is `Done` or `Failed`.
pub proof fn lemma_waiting_before_terminal(events: Seq<SignatureEvent>)
    ensures
        ({
            let t = status_trace(initial_state(), events);
            forall|k: int| 0 <= k < t.len() && is_terminal(#[trigger] t[k])
                ==> exists|j: int| 0 <= j < k && (#[trigger] t[j]) is Waiting
        }),
{
    lemma_trace_from_open(initial_state(), events);
}

proof fn lemma_trace_from_open(m: MachineState, events: Seq<SignatureEvent>)
    requires
        m.status is Start || m.status is Waiting,
    ensures
        ({
            let t = status_trace(m, events);
            forall|k: int| 0 <= k < t.len() && is_terminal(#[trigger] t[k])
                ==> exists|j: int| 0 <= j < k && (#[trigger] t[j]) is Waiting
        }),
    decreases events.len(),
{
    let t = status_trace(m, events);
    if events.len() > 0 {
        let m2 = spec_step(m, events[0]).0;
        let t2 = status_trace(m2, events.drop_first());
        assert(t == seq![m.status] + t2);
        if m.status is Waiting {
            assert forall|k: int| 0 <= k < t.len() && is_terminal(#[trigger] t[k])
                implies exists|j: int| 0 <= j < k && (#[trigger] t[j]) is Waiting by {
                assert(t[0] is Waiting);
            }
        } else {
            lemma_trace_from_open(m2, events.drop_first());
            assert forall|k: int| 0 <= k < t.len() && is_terminal(#[trigger] t[k])
                implies exists|j: int| 0 <= j < k && (#[trigger] t[j]) is Waiting by {
                assert(k >= 1);
                assert(t[k] == t2[k - 1]);
                let j2 = choose|j2: int| 0 <= j2 < k - 1 && (#[trigger] t2[j2]) is Waiting;
                assert(t[j2 + 1] == t2[j2]);
            }
        }
    }
}

} // verus!
