//! A verified model of the transaction pipeline of a wallet-connected ledger
//! dashboard: instruction composition, block-reference binding, the wallet
//! signature state machine and the refresh of dependent state after a
//! confirmed transaction.
use vstd::prelude::*;

pub mod wallet;
pub mod gateway;
pub mod instructions;
pub mod assembler;
pub mod signature;
pub mod flow;
pub mod snapshot;
pub mod refresher;

verus! {

} // verus!
