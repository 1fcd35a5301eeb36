use vstd::prelude::*;

verus! {

/// An opaque public key on the ledger.
#[derive(Clone, Copy, Debug, PartialEq, Eq)]
pub struct Identity {
    pub key: [u8; 32],
}

/// The connected signer, with the accounts that the ledger derives from its key:
/// its escrow account and its token account. They are fixed once connected.
#[derive(Clone, Copy, Debug, PartialEq, Eq)]
pub struct Signer {
    pub identity: Identity,
    pub escrow: Identity,
    pub token_account: Identity,
}

/// The escrow account that the relayer program derives from an owner's key,
/// or `None` where no derivation exists.
pub uninterp spec fn escrow_address_of(owner: Seq<u8>) -> Option<Seq<u8>>;

/// Relies on solana's `Pubkey::try_find_program_address`: the program address
/// of the relayer's escrow seed and the owner's key, a function of that key
/// alone; `None` where no bump seed gives one.
#[verifier::external_body]
fn escrow_address(owner: &Identity) -> (r: Option<Identity>)
    ensures
        escrow_address_of(owner.key@) == (match r {
            Some(e) => Some(e.key@),
            None => None,
        }),
{
    let key = solana_sdk::pubkey::Pubkey::new_from_array(owner.key);
    let seeds: [&[u8]; 2] = [ore_relayer_api::consts::ESCROW, key.as_ref()];
    solana_sdk::pubkey::Pubkey::try_find_program_address(&seeds, &ore_relayer_api::id())
        .map(|(pda, _)| Identity { key: pda.to_bytes() })
}

impl Signer {
    /// The signer of `identity`, holding its token account and the escrow
    /// account derived from its key; `None` where no escrow address exists.
    pub fn connect(identity: Identity, token_account: Identity) -> (r: Option<Signer>)
        ensures
            r is Some <==> escrow_address_of(identity.key@) is Some,
            r matches Some(s) ==> s.identity == identity && s.token_account == token_account
                && escrow_address_of(identity.key@) == Some(s.escrow.key@),
    {
        match escrow_address(&identity) {
            Some(escrow) => Some(Signer { identity, escrow, token_account }),
            None => None,
        }
    }
}

/// Where the current signer comes from.
#[derive(Clone, Copy, Debug, PartialEq, Eq)]
pub enum WalletAdapter {
    Disconnected,
    Connected(Signer),
}

impl WalletAdapter {
    /// The connected signer, if any.
    pub fn signer(&self) -> (r: Option<Signer>)
        ensures
            r == (match *self {
                WalletAdapter::Disconnected => None,
                WalletAdapter::Connected(s) => Some(s),
            }),
    {
        match self {
            WalletAdapter::Disconnected => None,
            WalletAdapter::Connected(s) => Some(*s),
        }
    }

    /// Whether a signer is connected.
    pub fn is_connected(&self) -> (r: bool)
        ensures
            r == (*self is Connected),
    {
        match self {
            WalletAdapter::Disconnected => false,
            WalletAdapter::Connected(_) => true,
        }
    }
}

} // verus!
