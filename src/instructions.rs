use vstd::prelude::*;
use crate::wallet::{Identity, Signer};

verus! {

/// Divisor of the protocol fee: the fee is one fiftieth (2%) of the primary amount.
pub const FEE_DIVISOR: u64 = 50;

/// Compute-unit bound of the lighter templates (a plain top-up).
pub const LIGHT_COMPUTE_UNITS: u32 = 50_000;

/// Compute-unit bound of the templates that create accounts or call the program.
pub const HEAVY_COMPUTE_UNITS: u32 = 500_000;

/// Largest priority fee, in micro-lamports per compute unit.
pub const MAX_PRIORITY_FEE: u64 = 50_000_000;

/// The protocol fee charged on a primary transfer of `amount`, rounded down.
pub open spec fn spec_protocol_fee(amount: nat) -> nat {
    amount / 50
}

/// The protocol fee on `amount`: 2% of it, rounded down by integer division.
pub fn protocol_fee(amount: u64) -> (fee: u64)
    ensures
        fee as nat == spec_protocol_fee(amount as nat),
        fee <= amount,
{
    amount / FEE_DIVISOR
}

/// A fee rate, in micro-lamports per compute unit, never above `MAX_PRIORITY_FEE`.
#[derive(Clone, Copy, Debug, PartialEq, Eq)]
pub struct PriorityFee {
    micro_lamports: u64,
}

impl PriorityFee {
    /// The rate held.
    pub closed spec fn view(&self) -> u64 {
        self.micro_lamports
    }

    #[verifier::type_invariant]
    spec fn in_range(&self) -> bool {
        self.micro_lamports <= MAX_PRIORITY_FEE
    }

    /// A fee of `micro_lamports`, or `None` when it is above the largest fee.
    pub fn new(micro_lamports: u64) -> (r: Option<PriorityFee>)
        ensures
            micro_lamports <= MAX_PRIORITY_FEE <==> r is Some,
            r matches Some(f) ==> f@ == micro_lamports,
    {
        if micro_lamports <= MAX_PRIORITY_FEE {
            Some(PriorityFee { micro_lamports })
        } else {
            None
        }
    }

    /// A fee of `micro_lamports`, lowered to the largest fee when above it.
    pub fn clamped(micro_lamports: u64) -> (r: PriorityFee)
        ensures
            r@ == (if micro_lamports <= MAX_PRIORITY_FEE { micro_lamports } else { MAX_PRIORITY_FEE }),
    {
        if micro_lamports <= MAX_PRIORITY_FEE {
            PriorityFee { micro_lamports }
        } else {
            PriorityFee { micro_lamports: MAX_PRIORITY_FEE }
        }
    }

    /// No fee.
    pub fn zero() -> (r: PriorityFee)
        ensures
            r@ == 0,
    {
        PriorityFee { micro_lamports: 0 }
    }

    /// The rate held, which is never above the largest fee.
    pub fn value(&self) -> (r: u64)
        ensures
            r == self@,
            r <= MAX_PRIORITY_FEE,
    {
        proof {
            use_type_invariant(self);
        }
        self.micro_lamports
    }
}

/// A ledger instruction, as the pipeline composes it.
#[derive(Clone, Copy, Debug, PartialEq, Eq)]
pub enum Instruction {
    /// Bounds the compute units of the whole transaction.
    SetComputeUnitLimit { units: u32 },
    /// Sets the fee rate of the whole transaction.
    SetComputeUnitPrice { micro_lamports: u64 },
    /// Moves `lamports` from `from` to `to`.
    Transfer { from: Identity, to: Identity, lamports: u64 },
    /// Opens the escrow account of `signer`, paid by `payer`.
    OpenEscrow { signer: Identity, payer: Identity },
    /// Stakes `amount` tokens of `signer` from its token account.
    Stake { signer: Identity, token_account: Identity, amount: u64 },
}

/// Whether an instruction is a compute-budget directive.
pub open spec fn is_budget(ix: Instruction) -> bool {
    ix is SetComputeUnitLimit || ix is SetComputeUnitPrice
}

/// Whether a sequence starts with the compute-unit bound and holds its budget
/// directives before any other instruction.
pub open spec fn budget_ordered(s: Seq<Instruction>) -> bool {
    &&& s.len() > 0
    &&& s[0] is SetComputeUnitLimit
    &&& forall|i: int, j: int| 0 <= i < j < s.len() && is_budget(#[trigger] s[j]) ==> is_budget(#[trigger] s[i])
}

/// The fixed set of transactions that the pipeline builds.
#[derive(Clone, Copy, Debug, PartialEq, Eq)]
pub enum Template {
    /// Funds the signer's escrow account with `amount` lamports.
    TopUp { amount: u64 },
    /// Opens the signer's escrow account and funds it with `amount` lamports.
    OpenAccount { amount: u64 },
    /// Stakes `amount` tokens, at the given priority fee.
    Stake { amount: u64, priority_fee: PriorityFee },
}

/// The compute-unit bound of a template.
pub open spec fn spec_compute_units(t: Template) -> u32 {
    match t {
        Template::TopUp { .. } => LIGHT_COMPUTE_UNITS,
        _ => HEAVY_COMPUTE_UNITS,
    }
}

/// The instructions of a template, in order, for a signer and the fee collector.
pub open spec fn spec_instructions(t: Template, signer: Signer, collector: Identity) -> Seq<Instruction> {
    let limit = Instruction::SetComputeUnitLimit { units: spec_compute_units(t) };
    let me = signer.identity;
    match t {
        Template::TopUp { amount } => seq![
            limit,
            Instruction::Transfer { from: me, to: signer.escrow, lamports: amount },
            Instruction::Transfer { from: me, to: collector, lamports: spec_protocol_fee(amount as nat) as u64 },
        ],
        Template::OpenAccount { amount } => seq![
            limit,
            Instruction::OpenEscrow { signer: me, payer: me },
            Instruction::Transfer { from: me, to: signer.escrow, lamports: amount },
            Instruction::Transfer { from: me, to: collector, lamports: spec_protocol_fee(amount as nat) as u64 },
        ],
        Template::Stake { amount, priority_fee } => {
            let stake = Instruction::Stake { signer: me, token_account: signer.token_account, amount };
            if priority_fee@ == 0 {
                seq![limit, stake]
            } else {
                seq![limit, Instruction::SetComputeUnitPrice { micro_lamports: priority_fee@ }, stake]
            }
        },
    }
}

/// The compute-unit bound of a template: lighter for a plain top-up than for
/// the templates that create accounts or call the program.
pub fn compute_units(t: &Template) -> (r: u32)
    ensures
        r == spec_compute_units(*t),
{
    match t {
        Template::TopUp { .. } => LIGHT_COMPUTE_UNITS,
        _ => HEAVY_COMPUTE_UNITS,
    }
}

/// The ordered instructions of template `t` for `signer`, with the protocol fee
/// paid to `collector`. Budget directives come first; a priority fee is set
/// only when it is not zero.
pub fn build_instructions(t: &Template, signer: &Signer, collector: Identity) -> (r: Vec<Instruction>)
    ensures
        r@ == spec_instructions(*t, *signer, collector),
        budget_ordered(r@),
        forall|i: int| 0 <= i < r@.len() ==> (#[trigger] r@[i] matches Instruction::SetComputeUnitPrice { micro_lamports }
            ==> micro_lamports <= MAX_PRIORITY_FEE),
{
    let me = signer.identity;
    let mut ixs: Vec<Instruction> = Vec::new();
    ixs.push(Instruction::SetComputeUnitLimit { units: compute_units(t) });
    match t {
        Template::TopUp { amount } => {
            ixs.push(Instruction::Transfer { from: me, to: signer.escrow, lamports: *amount });
            ixs.push(Instruction::Transfer { from: me, to: collector, lamports: protocol_fee(*amount) });
        },
        Template::OpenAccount { amount } => {
            ixs.push(Instruction::OpenEscrow { signer: me, payer: me });
            ixs.push(Instruction::Transfer { from: me, to: signer.escrow, lamports: *amount });
            ixs.push(Instruction::Transfer { from: me, to: collector, lamports: protocol_fee(*amount) });
        },
        Template::Stake { amount, priority_fee } => {
            let fee = priority_fee.value();
            if fee != 0 {
                ixs.push(Instruction::SetComputeUnitPrice { micro_lamports: fee });
            }
            ixs.push(Instruction::Stake { signer: me, token_account: signer.token_account, amount: *amount });
        },
    }
    assert(ixs@ =~= spec_instructions(*t, *signer, collector));
    proof {
        lemma_budget_first(*t, *signer, collector);
    }
    ixs
}

/// Every template's instructions start with the compute-unit bound, and its
/// budget directives all come before any other instruction.
pub proof fn lemma_budget_first(t: Template, signer: Signer, collector: Identity)
    ensures
        spec_instructions(t, signer, collector).len() > 0,
        spec_instructions(t, signer, collector)[0] == (Instruction::SetComputeUnitLimit { units: spec_compute_units(t) }),
        forall|i: int, j: int|
            0 <= i < j < spec_instructions(t, signer, collector).len()
                && is_budget(#[trigger] spec_instructions(t, signer, collector)[j])
                ==> is_budget(#[trigger] spec_instructions(t, signer, collector)[i]),
{
}

/// In the templates that carry a fee transfer, the last instruction pays the
/// collector a fiftieth of the primary amount, rounded down, which never
/// exceeds the primary amount paid just before it.
pub proof fn lemma_fee_transfer(t: Template, signer: Signer, collector: Identity)
    requires
        t is TopUp || t is OpenAccount,
    ensures
        ({
            let s = spec_instructions(t, signer, collector);
            let amount = match t {
                Template::TopUp { amount } => amount,
                Template::OpenAccount { amount } => amount,
                Template::Stake { amount, .. } => amount,
            };
            &&& s.len() >= 3
            &&& s[s.len() - 2] == (Instruction::Transfer { from: signer.identity, to: signer.escrow, lamports: amount })
            &&& s[s.len() - 1] == (Instruction::Transfer {
                from: signer.identity,
                to: collector,
                lamports: spec_protocol_fee(amount as nat) as u64,
            })
            &&& spec_protocol_fee(amount as nat) <= amount
        }),
{
}

} // verus!
