use vstd::prelude::*;
use crate::gateway::{BlockReference, GatewayError};
use crate::instructions::{budget_ordered, build_instructions, spec_instructions, Instruction, Template};
use crate::wallet::{Identity, WalletAdapter};

verus! {

/// Instructions composed for a payer, waiting for a block reference.
pub struct PendingAssembly {
    pub instructions: Vec<Instruction>,
    pub payer: Identity,
}

/// A transaction ready to be signed: its instructions, its payer and the block
/// reference that binds it. The reference expires after a while, and the
/// ledger then rejects the transaction.
pub struct UnsignedTransaction {
    pub instructions: Vec<Instruction>,
    pub payer: Identity,
    pub block: BlockReference,
}

impl UnsignedTransaction {
    /// The compute-unit bound leads, and budget directives precede the rest.
    pub open spec fn wf(&self) -> bool {
        budget_ordered(self.instructions@)
    }
}

/// Composes the instructions of template `t` for the connected signer. A
/// disconnected wallet fails at once, before any call to the gateway.
pub fn begin_assembly(wallet: &WalletAdapter, t: &Template, collector: Identity) -> (r: Result<PendingAssembly, GatewayError>)
    ensures
        match *wallet {
            WalletAdapter::Disconnected => r == Err::<PendingAssembly, GatewayError>(GatewayError::WalletAdapterDisconnected),
            WalletAdapter::Connected(s) => r matches Ok(p) && p.payer == s.identity
                && p.instructions@ == spec_instructions(*t, s, collector) && budget_ordered(p.instructions@),
        },
{
    match wallet {
        WalletAdapter::Disconnected => Err(GatewayError::WalletAdapterDisconnected),
        WalletAdapter::Connected(s) => {
            let instructions = build_instructions(t, s, collector);
            Ok(PendingAssembly { instructions, payer: s.identity })
        },
    }
}

/// Binds the pending instructions to the block reference fetched for them;
/// the gateway's error, if any, is passed on unchanged.
pub fn complete_assembly(pending: PendingAssembly, block: Result<BlockReference, GatewayError>) -> (r: Result<UnsignedTransaction, GatewayError>)
    ensures
        match block {
            Ok(b) => r matches Ok(tx) && tx.instructions@ == pending.instructions@ && tx.payer == pending.payer
                && tx.block == b,
            Err(e) => r == Err::<UnsignedTransaction, GatewayError>(e),
        },
{
    match block {
        Ok(b) => Ok(UnsignedTransaction { instructions: pending.instructions, payer: pending.payer, block: b }),
        Err(e) => Err(e),
    }
}

} // verus!
