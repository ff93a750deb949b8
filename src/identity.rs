use vstd::prelude::*;

verus! {

/// A 32-byte public key naming an account, a player or an authority,
/// held as its high and low 128-bit halves.
#[derive(Clone, Copy, Debug, PartialEq, Eq, Structural)]
pub struct Identity {
    pub hi: u128,
    pub lo: u128,
}

/// An account on the ledger: whose key it is, and what it holds.
#[derive(Clone, Copy, Debug, PartialEq, Eq, Structural)]
pub struct Account {
    pub key: Identity,
    pub lamports: u64,
}

} // verus!
