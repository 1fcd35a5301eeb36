use vstd::prelude::*;

verus! {

/// How a request along the pipeline failed. Every failure is terminal for its
/// request and is never partially applied.
#[derive(Clone, Debug, PartialEq, Eq)]
pub enum GatewayError {
    WalletAdapterDisconnected,
    RpcRequestFailed(String),
    AccountNotFound,
    DeserializationFailed,
    Timeout,
}

/// A recent ledger checkpoint that binds a transaction for validity and expiry.
#[derive(Clone, Copy, Debug, PartialEq, Eq)]
pub struct BlockReference {
    pub hash: [u8; 32],
}

/// The identifier that the ledger assigns to a confirmed transaction.
#[derive(Clone, Copy, Debug, PartialEq, Eq)]
pub struct TransactionId {
    pub signature: [u8; 64],
}

/// A read-only snapshot that a confirmed transaction may change, and which is
/// fetched again after it.
#[derive(Clone, Copy, Debug, PartialEq, Eq)]
pub enum Resource {
    SolBalance,
    Escrow,
    OreBalance,
}

} // verus!
