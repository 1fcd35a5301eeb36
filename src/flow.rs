use vstd::prelude::*;
use crate::assembler::{begin_assembly, complete_assembly, PendingAssembly, UnsignedTransaction};
use crate::gateway::{BlockReference, GatewayError, Resource, TransactionId};
use crate::instructions::{spec_instructions, Template};
use crate::refresher::{refresh_step, DependentResourceRefresher, RefreshAction, RefreshEvent, RefreshPhase,
    RefresherState, SETTLE_DELAY_MS};
use crate::signature::{initial_state, spec_step, InvokeSignatureMachine, SignatureAction, SignatureEvent};
use crate::wallet::{Identity, WalletAdapter};

verus! {

/// Where the assembly of a flow's transaction stands.
pub enum AssemblyState {
    NotStarted,
    /// Instructions are composed; the block reference of this generation is awaited.
    Fetching(PendingAssembly),
    Ready(UnsignedTransaction),
    Failed(GatewayError),
}

/// What a flow asks its caller to do next.
#[derive(Clone, Copy, Debug, PartialEq, Eq)]
pub enum FlowAction {
    Nothing,
    /// Fetch a recent block reference and report it with this generation.
    FetchBlockReference(u64),
    /// Ask the wallet to sign the assembled transaction.
    RequestSignature,
    /// Submit the signed transaction to the gateway.
    Submit,
    /// Wait this many milliseconds, then report that the delay has passed.
    WaitMillis(u64),
    /// Fetch this resource again from the gateway.
    Refetch(Resource),
}

/// The resource that a template's transaction changes.
pub open spec fn spec_resource_of(t: Template) -> Resource {
    match t {
        Template::TopUp { .. } => Resource::SolBalance,
        Template::OpenAccount { .. } => Resource::Escrow,
        Template::Stake { .. } => Resource::OreBalance,
    }
}

/// The resource that a template's transaction changes.
pub fn resource_of(t: &Template) -> (r: Resource)
    ensures
        r == spec_resource_of(*t),
{
    match t {
        Template::TopUp { .. } => Resource::SolBalance,
        Template::OpenAccount { .. } => Resource::Escrow,
        Template::Stake { .. } => Resource::OreBalance,
    }
}

/// The generation that follows `g`.
pub open spec fn next_generation(g: u64) -> u64 {
    if g == u64::MAX { 0 } else { (g + 1) as u64 }
}

/// The action of a flow after the machine asked `a` and the refresher `r`.
pub open spec fn combine(a: SignatureAction, r: RefreshAction) -> FlowAction {
    match a {
        SignatureAction::RequestSignature => FlowAction::RequestSignature,
        SignatureAction::Submit => FlowAction::Submit,
        SignatureAction::Nothing => match r {
            RefreshAction::Nothing => FlowAction::Nothing,
            RefreshAction::WaitMillis(ms) => FlowAction::WaitMillis(ms),
            RefreshAction::Refetch(res) => FlowAction::Refetch(res),
        },
    }
}

fn combine_actions(a: SignatureAction, r: RefreshAction) -> (f: FlowAction)
    ensures
        f == combine(a, r),
{
    match a {
        SignatureAction::RequestSignature => FlowAction::RequestSignature,
        SignatureAction::Submit => FlowAction::Submit,
        SignatureAction::Nothing => match r {
            RefreshAction::Nothing => FlowAction::Nothing,
            RefreshAction::WaitMillis(ms) => FlowAction::WaitMillis(ms),
            RefreshAction::Refetch(res) => FlowAction::Refetch(res),
        },
    }
}

/// One transaction of a template, from assembly through signature and
/// submission to the refresh of the state that it changes. Each assembly
/// gets a new generation; a block reference fetched for an older one is
/// discarded.
pub struct TransactionFlow {
    pub template: Template,
    pub collector: Identity,
    pub generation: u64,
    pub assembly: AssemblyState,
    pub machine: InvokeSignatureMachine,
    pub refresher: DependentResourceRefresher,
}

impl TransactionFlow {
    /// A flow of template `t` whose fee goes to `collector`; nothing is assembled yet.
    pub fn new(t: Template, collector: Identity) -> (r: TransactionFlow)
        ensures
            r.template == t,
            r.collector == collector,
            r.generation == 0,
            r.assembly is NotStarted,
            r.machine@ == initial_state(),
            r.refresher@ == (RefresherState {
                resource: spec_resource_of(t),
                settle_delay_ms: SETTLE_DELAY_MS,
                phase: RefreshPhase::Idle,
            }),
    {
        let resource = resource_of(&t);
        TransactionFlow {
            template: t,
            collector,
            generation: 0,
            assembly: AssemblyState::NotStarted,
            machine: InvokeSignatureMachine::new(),
            refresher: DependentResourceRefresher::new(resource, SETTLE_DELAY_MS),
        }
    }

    /// Starts a new assembly for the current wallet, superseding any earlier
    /// one. A disconnected wallet fails it at once and no block reference is
    /// asked for; otherwise the instructions are composed and the block
    /// reference of the new generation is asked for.
    pub fn start_assembly(&mut self, wallet: &WalletAdapter) -> (a: FlowAction)
        ensures
            final(self).generation == next_generation(old(self).generation),
            final(self).template == old(self).template,
            final(self).collector == old(self).collector,
            final(self).machine@ == old(self).machine@,
            final(self).refresher@ == old(self).refresher@,
            match *wallet {
                WalletAdapter::Disconnected => a == FlowAction::Nothing
                    && final(self).assembly == AssemblyState::Failed(GatewayError::WalletAdapterDisconnected),
                WalletAdapter::Connected(s) => a == FlowAction::FetchBlockReference(final(self).generation)
                    && (final(self).assembly matches AssemblyState::Fetching(p) && p.payer == s.identity
                    && p.instructions@ == spec_instructions(old(self).template, s, old(self).collector)),
            },
    {
        self.generation = if self.generation == u64::MAX { 0 } else { self.generation + 1 };
        match begin_assembly(wallet, &self.template, self.collector) {
            Ok(p) => {
                self.assembly = AssemblyState::Fetching(p);
                FlowAction::FetchBlockReference(self.generation)
            },
            Err(e) => {
                self.assembly = AssemblyState::Failed(e);
                FlowAction::Nothing
            },
        }
    }

    /// Takes the block reference fetched for `generation`. It completes the
    /// assembly awaiting it, which fails with the gateway's error unchanged;
    /// one fetched for a superseded assembly is discarded.
    pub fn block_reference_fetched(&mut self, generation: u64, block: Result<BlockReference, GatewayError>) -> (a: FlowAction)
        ensures
            a == FlowAction::Nothing,
            final(self).generation == old(self).generation,
            final(self).template == old(self).template,
            final(self).collector == old(self).collector,
            final(self).machine@ == old(self).machine@,
            final(self).refresher@ == old(self).refresher@,
            (generation == old(self).generation && old(self).assembly is Fetching) ==> match block {
                Ok(b) => (final(self).assembly matches AssemblyState::Ready(tx)
                    && tx.instructions@ == old(self).assembly->Fetching_0.instructions@
                    && tx.payer == old(self).assembly->Fetching_0.payer && tx.block == b),
                Err(e) => final(self).assembly == AssemblyState::Failed(e),
            },
            !(generation == old(self).generation && old(self).assembly is Fetching)
                ==> final(self).assembly == old(self).assembly,
    {
        if generation != self.generation {
            return FlowAction::Nothing;
        }
        let mut assembly = AssemblyState::NotStarted;
        std::mem::swap(&mut assembly, &mut self.assembly);
        match assembly {
            AssemblyState::Fetching(p) => {
                match complete_assembly(p, block) {
                    Ok(tx) => {
                        self.assembly = AssemblyState::Ready(tx);
                    },
                    Err(e) => {
                        self.assembly = AssemblyState::Failed(e);
                    },
                }
            },
            other => {
                self.assembly = other;
            },
        }
        FlowAction::Nothing
    }

    /// Whether the transaction is assembled and can be signed.
    pub fn is_ready(&self) -> (r: bool)
        ensures
            r == (self.assembly is Ready),
    {
        match self.assembly {
            AssemblyState::Ready(_) => true,
            _ => false,
        }
    }

    /// Passes one event to the signature machine, then lets the refresher
    /// observe the machine's new status.
    fn drive(&mut self, e: SignatureEvent) -> (a: FlowAction)
        ensures
            final(self).machine@ == spec_step(old(self).machine@, e).0,
            final(self).refresher@ == refresh_step(
                old(self).refresher@,
                RefreshEvent::Observed(spec_step(old(self).machine@, e).0.status),
            ).0,
            a == combine(
                spec_step(old(self).machine@, e).1,
                refresh_step(old(self).refresher@, RefreshEvent::Observed(spec_step(old(self).machine@, e).0.status)).1,
            ),
            final(self).generation == old(self).generation,
            final(self).template == old(self).template,
            final(self).collector == old(self).collector,
            final(self).assembly == old(self).assembly,
    {
        let sa = self.machine.step(e);
        let ra = self.refresher.observe(&self.machine.status);
        combine_actions(sa, ra)
    }

    /// The user asks to sign. Only an assembled transaction can be signed:
    /// before that, the machine stays where it is.
    pub fn request_signature(&mut self) -> (a: FlowAction)
        ensures
            final(self).generation == old(self).generation,
            final(self).template == old(self).template,
            final(self).collector == old(self).collector,
            final(self).assembly == old(self).assembly,
            old(self).assembly is Ready ==> {
                &&& final(self).machine@ == spec_step(old(self).machine@, SignatureEvent::SignRequested).0
                &&& final(self).refresher@ == refresh_step(
                    old(self).refresher@,
                    RefreshEvent::Observed(final(self).machine@.status),
                ).0
                &&& a == combine(
                    spec_step(old(self).machine@, SignatureEvent::SignRequested).1,
                    refresh_step(old(self).refresher@, RefreshEvent::Observed(final(self).machine@.status)).1,
                )
            },
            !(old(self).assembly is Ready) ==> a == FlowAction::Nothing && final(self).machine@ == old(self).machine@
                && final(self).refresher@ == old(self).refresher@,
    {
        if self.is_ready() {
            self.drive(SignatureEvent::SignRequested)
        } else {
            FlowAction::Nothing
        }
    }

    /// The wallet signed the transaction.
    pub fn signed(&mut self) -> (a: FlowAction)
        ensures
            final(self).machine@ == spec_step(old(self).machine@, SignatureEvent::Signed).0,
            final(self).refresher@ == refresh_step(old(self).refresher@, RefreshEvent::Observed(final(self).machine@.status)).0,
            a == combine(
                spec_step(old(self).machine@, SignatureEvent::Signed).1,
                refresh_step(old(self).refresher@, RefreshEvent::Observed(final(self).machine@.status)).1,
            ),
            final(self).generation == old(self).generation,
            final(self).template == old(self).template,
            final(self).collector == old(self).collector,
            final(self).assembly == old(self).assembly,
    {
        self.drive(SignatureEvent::Signed)
    }

    /// The wallet refused to sign.
    pub fn sign_refused(&mut self) -> (a: FlowAction)
        ensures
            final(self).machine@ == spec_step(old(self).machine@, SignatureEvent::SignRefused).0,
            final(self).refresher@ == refresh_step(old(self).refresher@, RefreshEvent::Observed(final(self).machine@.status)).0,
            a == combine(
                spec_step(old(self).machine@, SignatureEvent::SignRefused).1,
                refresh_step(old(self).refresher@, RefreshEvent::Observed(final(self).machine@.status)).1,
            ),
            final(self).generation == old(self).generation,
            final(self).template == old(self).template,
            final(self).collector == old(self).collector,
            final(self).assembly == old(self).assembly,
    {
        self.drive(SignatureEvent::SignRefused)
    }

    /// The gateway answered the submission.
    pub fn submitted(&mut self, result: Result<TransactionId, GatewayError>) -> (a: FlowAction)
        ensures
            final(self).machine@ == spec_step(old(self).machine@, SignatureEvent::Submitted(result)).0,
            final(self).refresher@ == refresh_step(old(self).refresher@, RefreshEvent::Observed(final(self).machine@.status)).0,
            a == combine(
                spec_step(old(self).machine@, SignatureEvent::Submitted(result)).1,
                refresh_step(old(self).refresher@, RefreshEvent::Observed(final(self).machine@.status)).1,
            ),
            final(self).generation == old(self).generation,
            final(self).template == old(self).template,
            final(self).collector == old(self).collector,
            final(self).assembly == old(self).assembly,
    {
        self.drive(SignatureEvent::Submitted(result))
    }

    /// The settle delay has passed.
    pub fn settle_elapsed(&mut self) -> (a: FlowAction)
        ensures
            final(self).machine@ == old(self).machine@,
            final(self).refresher@ == refresh_step(old(self).refresher@, RefreshEvent::SettleElapsed).0,
            a == combine(SignatureAction::Nothing, refresh_step(old(self).refresher@, RefreshEvent::SettleElapsed).1),
            final(self).generation == old(self).generation,
            final(self).template == old(self).template,
            final(self).collector == old(self).collector,
            final(self).assembly == old(self).assembly,
    {
        let ra = self.refresher.settle_elapsed();
        combine_actions(SignatureAction::Nothing, ra)
    }
}

} // verus!
