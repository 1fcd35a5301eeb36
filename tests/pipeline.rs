use ore_pipeline::assembler::{begin_assembly, complete_assembly};
use ore_pipeline::flow::{AssemblyState, FlowAction, TransactionFlow};
use ore_pipeline::gateway::{BlockReference, GatewayError, Resource, TransactionId};
use ore_pipeline::instructions::{
    build_instructions, compute_units, protocol_fee, Instruction, PriorityFee, Template, HEAVY_COMPUTE_UNITS,
    LIGHT_COMPUTE_UNITS, MAX_PRIORITY_FEE,
};
use ore_pipeline::refresher::{DependentResourceRefresher, RefreshAction, SETTLE_DELAY_MS};
use ore_pipeline::snapshot::Snapshot;
use ore_pipeline::signature::{FlowError, InvokeSignatureMachine, SignatureAction, SignatureEvent, SignatureStatus};
use ore_pipeline::wallet::{Identity, Signer, WalletAdapter};

fn id(b: u8) -> Identity {
    Identity { key: [b; 32] }
}

fn signer() -> Signer {
    Signer { identity: id(1), escrow: id(2), token_account: id(3) }
}

fn collector() -> Identity {
    id(9)
}

fn block() -> BlockReference {
    BlockReference { hash: [7; 32] }
}

fn tx_id() -> TransactionId {
    TransactionId { signature: [5; 64] }
}

fn is_budget(ix: &Instruction) -> bool {
    matches!(ix, Instruction::SetComputeUnitLimit { .. } | Instruction::SetComputeUnitPrice { .. })
}

fn all_templates() -> Vec<Template> {
    vec![
        Template::TopUp { amount: 50_000_000 },
        Template::OpenAccount { amount: 50_000_000 },
        Template::Stake { amount: 1_000, priority_fee: PriorityFee::zero() },
        Template::Stake { amount: 1_000, priority_fee: PriorityFee::new(100_000).unwrap() },
    ]
}

#[test]
fn fee_is_a_fiftieth_rounded_down() {
    assert_eq!(protocol_fee(50_000_000), 1_000_000);
    assert_eq!(protocol_fee(0), 0);
    assert_eq!(protocol_fee(49), 0);
    assert_eq!(protocol_fee(101), 2);
    assert_eq!(protocol_fee(u64::MAX), u64::MAX / 50);
    for a in [0u64, 1, 49, 50, 51, 999, 50_000_000, u64::MAX] {
        assert!(protocol_fee(a) <= a);
    }
}

#[test]
fn top_up_and_open_account_scenario() {
    let s = signer();
    let top_up = build_instructions(&Template::TopUp { amount: 50_000_000 }, &s, collector());
    assert_eq!(top_up.len(), 3);
    assert_eq!(top_up[0], Instruction::SetComputeUnitLimit { units: 50_000 });
    assert_eq!(top_up[1], Instruction::Transfer { from: id(1), to: id(2), lamports: 50_000_000 });
    assert_eq!(top_up[2], Instruction::Transfer { from: id(1), to: id(9), lamports: 1_000_000 });

    let open = build_instructions(&Template::OpenAccount { amount: 50_000_000 }, &s, collector());
    assert_eq!(open.len(), 4);
    assert_eq!(open[0], Instruction::SetComputeUnitLimit { units: 500_000 });
    assert_eq!(open[1], Instruction::OpenEscrow { signer: id(1), payer: id(1) });
    assert_eq!(open[2], Instruction::Transfer { from: id(1), to: id(2), lamports: 50_000_000 });
    assert_eq!(open[3], Instruction::Transfer { from: id(1), to: id(9), lamports: 1_000_000 });
}

#[test]
fn budget_instruction_leads_every_template() {
    for t in all_templates() {
        let ixs = build_instructions(&t, &signer(), collector());
        assert!(matches!(ixs[0], Instruction::SetComputeUnitLimit { .. }));
        let first_other = ixs.iter().position(|ix| !is_budget(ix)).unwrap();
        assert!(ixs[first_other..].iter().all(|ix| !is_budget(ix)));
    }
}

#[test]
fn stake_template_instructions() {
    let s = signer();
    let plain = build_instructions(&Template::Stake { amount: 42, priority_fee: PriorityFee::zero() }, &s, collector());
    assert_eq!(
        plain,
        vec![
            Instruction::SetComputeUnitLimit { units: 500_000 },
            Instruction::Stake { signer: id(1), token_account: id(3), amount: 42 },
        ]
    );
    let fee = PriorityFee::new(300_000).unwrap();
    let priced = build_instructions(&Template::Stake { amount: 42, priority_fee: fee }, &s, collector());
    assert_eq!(
        priced,
        vec![
            Instruction::SetComputeUnitLimit { units: 500_000 },
            Instruction::SetComputeUnitPrice { micro_lamports: 300_000 },
            Instruction::Stake { signer: id(1), token_account: id(3), amount: 42 },
        ]
    );
}

#[test]
fn compute_units_by_template() {
    assert_eq!(compute_units(&Template::TopUp { amount: 1 }), LIGHT_COMPUTE_UNITS);
    assert_eq!(compute_units(&Template::OpenAccount { amount: 1 }), HEAVY_COMPUTE_UNITS);
    assert_eq!(compute_units(&Template::Stake { amount: 1, priority_fee: PriorityFee::zero() }), HEAVY_COMPUTE_UNITS);
}

#[test]
fn priority_fee_bounds() {
    assert_eq!(MAX_PRIORITY_FEE, 50_000_000);
    assert_eq!(PriorityFee::new(0).unwrap().value(), 0);
    assert_eq!(PriorityFee::new(50_000_000).unwrap().value(), 50_000_000);
    assert!(PriorityFee::new(50_000_001).is_none());
    assert!(PriorityFee::new(u64::MAX).is_none());
    assert_eq!(PriorityFee::clamped(70_000_000).value(), 50_000_000);
    assert_eq!(PriorityFee::clamped(100_000).value(), 100_000);
    let t = Template::Stake { amount: 1, priority_fee: PriorityFee::clamped(u64::MAX) };
    let ixs = build_instructions(&t, &signer(), collector());
    assert_eq!(ixs[1], Instruction::SetComputeUnitPrice { micro_lamports: 50_000_000 });
}

#[test]
fn disconnected_wallet_fails_without_fetch() {
    let r = begin_assembly(&WalletAdapter::Disconnected, &Template::TopUp { amount: 10 }, collector());
    assert!(matches!(r, Err(GatewayError::WalletAdapterDisconnected)));

    let mut flow = TransactionFlow::new(Template::TopUp { amount: 10 }, collector());
    let a = flow.start_assembly(&WalletAdapter::Disconnected);
    assert_eq!(a, FlowAction::Nothing);
    assert!(matches!(flow.assembly, AssemblyState::Failed(GatewayError::WalletAdapterDisconnected)));
    assert_eq!(flow.request_signature(), FlowAction::Nothing);
    assert_eq!(flow.machine.status, SignatureStatus::Start);
}

#[test]
fn assembly_binds_block_reference() {
    let w = WalletAdapter::Connected(signer());
    let p = begin_assembly(&w, &Template::TopUp { amount: 100 }, collector()).unwrap();
    assert_eq!(p.payer, id(1));
    let tx = complete_assembly(p, Ok(block())).unwrap();
    assert_eq!(tx.block, block());
    assert_eq!(tx.payer, id(1));
    assert_eq!(tx.instructions.len(), 3);
    assert_eq!(tx.instructions[2], Instruction::Transfer { from: id(1), to: id(9), lamports: 2 });
}

#[test]
fn gateway_errors_pass_through_assembly() {
    let w = WalletAdapter::Connected(signer());
    let errors = vec![
        GatewayError::RpcRequestFailed("connection reset".to_string()),
        GatewayError::AccountNotFound,
        GatewayError::DeserializationFailed,
        GatewayError::Timeout,
    ];
    for e in errors {
        let p = begin_assembly(&w, &Template::OpenAccount { amount: 100 }, collector()).unwrap();
        assert_eq!(complete_assembly(p, Err(e.clone())).err(), Some(e));
    }
}

#[test]
fn block_reference_timeout_never_reaches_waiting() {
    let mut flow = TransactionFlow::new(Template::TopUp { amount: 50_000_000 }, collector());
    let a = flow.start_assembly(&WalletAdapter::Connected(signer()));
    assert_eq!(a, FlowAction::FetchBlockReference(1));
    assert_eq!(flow.block_reference_fetched(1, Err(GatewayError::Timeout)), FlowAction::Nothing);
    assert!(matches!(flow.assembly, AssemblyState::Failed(GatewayError::Timeout)));
    assert_eq!(flow.request_signature(), FlowAction::Nothing);
    assert_eq!(flow.machine.status, SignatureStatus::Start);
    assert!(!flow.machine.is_waiting());
}

#[test]
fn stale_block_reference_is_discarded() {
    let mut flow = TransactionFlow::new(Template::TopUp { amount: 100 }, collector());
    assert_eq!(flow.start_assembly(&WalletAdapter::Connected(signer())), FlowAction::FetchBlockReference(1));
    let other = Signer { identity: id(4), escrow: id(5), token_account: id(6) };
    assert_eq!(flow.start_assembly(&WalletAdapter::Connected(other)), FlowAction::FetchBlockReference(2));
    flow.block_reference_fetched(1, Ok(block()));
    assert!(matches!(flow.assembly, AssemblyState::Fetching(_)));
    assert!(!flow.is_ready());
    flow.block_reference_fetched(2, Ok(block()));
    assert!(flow.is_ready());
    match &flow.assembly {
        AssemblyState::Ready(tx) => assert_eq!(tx.payer, id(4)),
        _ => panic!("transaction not assembled"),
    }
}

#[test]
fn machine_visits_waiting_before_done() {
    let mut m = InvokeSignatureMachine::new();
    assert_eq!(m.status, SignatureStatus::Start);
    assert_eq!(m.step(SignatureEvent::Submitted(Ok(tx_id()))), SignatureAction::Nothing);
    assert_eq!(m.status, SignatureStatus::Start);
    assert_eq!(m.step(SignatureEvent::Signed), SignatureAction::Nothing);
    assert_eq!(m.status, SignatureStatus::Start);
    assert_eq!(m.step(SignatureEvent::SignRequested), SignatureAction::RequestSignature);
    assert_eq!(m.status, SignatureStatus::Waiting);
    assert_eq!(m.step(SignatureEvent::Signed), SignatureAction::Submit);
    assert_eq!(m.status, SignatureStatus::Waiting);
    assert_eq!(m.step(SignatureEvent::Submitted(Ok(tx_id()))), SignatureAction::Nothing);
    assert_eq!(m.status, SignatureStatus::Done(tx_id()));
    assert_eq!(m.step(SignatureEvent::SignRequested), SignatureAction::Nothing);
    assert_eq!(m.status, SignatureStatus::Done(tx_id()));
}

#[test]
fn machine_failures_and_retry() {
    let mut m = InvokeSignatureMachine::new();
    m.step(SignatureEvent::SignRequested);
    assert_eq!(m.step(SignatureEvent::SignRefused), SignatureAction::Nothing);
    assert_eq!(m.status, SignatureStatus::Failed(FlowError::SigningRefused));
    assert_eq!(m.step(SignatureEvent::SignRequested), SignatureAction::RequestSignature);
    assert_eq!(m.status, SignatureStatus::Waiting);
    m.step(SignatureEvent::Signed);
    m.step(SignatureEvent::Submitted(Err(GatewayError::Timeout)));
    assert_eq!(m.status, SignatureStatus::Failed(FlowError::Gateway(GatewayError::Timeout)));
}

#[test]
fn refresher_fetches_once_after_delay() {
    let mut r = DependentResourceRefresher::new(Resource::Escrow, SETTLE_DELAY_MS);
    assert_eq!(r.observe(&SignatureStatus::Waiting), RefreshAction::Nothing);
    assert_eq!(r.settle_elapsed(), RefreshAction::Nothing);
    let done = SignatureStatus::Done(tx_id());
    assert_eq!(r.observe(&done), RefreshAction::WaitMillis(1000));
    assert_eq!(r.observe(&done), RefreshAction::Nothing);
    assert_eq!(r.observe(&done), RefreshAction::Nothing);
    assert_eq!(r.settle_elapsed(), RefreshAction::Refetch(Resource::Escrow));
    assert_eq!(r.observe(&done), RefreshAction::Nothing);
    assert_eq!(r.settle_elapsed(), RefreshAction::Nothing);
}

#[test]
fn full_top_up_flow() {
    let mut flow = TransactionFlow::new(Template::TopUp { amount: 50_000_000 }, collector());
    assert_eq!(flow.start_assembly(&WalletAdapter::Connected(signer())), FlowAction::FetchBlockReference(1));
    assert_eq!(flow.block_reference_fetched(1, Ok(block())), FlowAction::Nothing);
    assert!(flow.is_ready());
    assert_eq!(flow.request_signature(), FlowAction::RequestSignature);
    assert!(flow.machine.is_waiting());
    assert_eq!(flow.signed(), FlowAction::Submit);
    assert_eq!(flow.submitted(Ok(tx_id())), FlowAction::WaitMillis(SETTLE_DELAY_MS));
    assert_eq!(flow.machine.status, SignatureStatus::Done(tx_id()));
    assert_eq!(flow.settle_elapsed(), FlowAction::Refetch(Resource::SolBalance));
    assert_eq!(flow.settle_elapsed(), FlowAction::Nothing);
}

#[test]
fn stake_flow_refreshes_token_balance() {
    let t = Template::Stake { amount: 7, priority_fee: PriorityFee::zero() };
    let mut flow = TransactionFlow::new(t, collector());
    flow.start_assembly(&WalletAdapter::Connected(signer()));
    flow.block_reference_fetched(1, Ok(block()));
    flow.request_signature();
    assert_eq!(flow.sign_refused(), FlowAction::Nothing);
    assert_eq!(flow.machine.status, SignatureStatus::Failed(FlowError::SigningRefused));
    assert_eq!(flow.request_signature(), FlowAction::RequestSignature);
    flow.signed();
    assert_eq!(flow.submitted(Ok(tx_id())), FlowAction::WaitMillis(1000));
    assert_eq!(flow.settle_elapsed(), FlowAction::Refetch(Resource::OreBalance));
}

#[test]
fn wallet_adapter_signer() {
    assert_eq!(WalletAdapter::Disconnected.signer(), None);
    assert!(!WalletAdapter::Disconnected.is_connected());
    let w = WalletAdapter::Connected(signer());
    assert_eq!(w.signer(), Some(signer()));
    assert!(w.is_connected());
}

#[test]
fn connect_derives_escrow_address() {
    let s = Signer::connect(id(1), id(3)).unwrap();
    assert_eq!(s.identity, id(1));
    assert_eq!(s.token_account, id(3));
    assert_ne!(s.escrow, id(1));
    let again = Signer::connect(id(1), id(3)).unwrap();
    assert_eq!(again.escrow, s.escrow);
    let other = Signer::connect(id(8), id(3)).unwrap();
    assert_ne!(other.escrow, s.escrow);
}

#[test]
fn snapshot_replaces_and_discards_superseded() {
    let mut s: Snapshot<u64> = Snapshot::new();
    assert!(s.latest.is_none());
    let g1 = s.begin_fetch();
    let g2 = s.begin_fetch();
    assert_eq!((g1, g2), (1, 2));
    assert!(!s.fetched(g1, Ok(10)));
    assert!(s.latest.is_none());
    assert!(s.fetched(g2, Ok(20)));
    assert_eq!(s.latest, Some(Ok(20)));
    assert!(!s.fetched(g2, Ok(30)));
    assert_eq!(s.latest, Some(Ok(20)));
    let g3 = s.begin_fetch();
    assert!(s.fetched(g3, Err(GatewayError::AccountNotFound)));
    assert_eq!(s.latest, Some(Err(GatewayError::AccountNotFound)));
}
