//! Account addresses and the market's derived signing capability.

use vstd::prelude::*;

verus! {

/// An account address on the ledger: the identity of a token mint, a token
/// account, an oracle, or any other participant. The all-zero (default)
/// address is distinguished as "unset".
#[derive(Clone, Copy, PartialEq, Eq, Structural, Debug, Hash)]
pub struct Address {
    pub id: u64,
}

impl Address {
    /// The distinguished default address, meaning "not set".
    pub fn unset() -> (a: Address)
        ensures
            a.is_unset(),
    {
        Address { id: 0 }
    }

    pub open spec fn spec_is_unset(&self) -> bool {
        self.id == 0
    }

    /// Whether this is the distinguished default address.
    #[verifier::when_used_as_spec(spec_is_unset)]
    pub fn is_unset(&self) -> (r: bool)
        ensures
            r == self.spec_is_unset(),
    {
        self.id == 0
    }
}

/// The keyless signing capability tied to one market: re-derived
/// deterministically from the market's identity and its stored nonce on every
/// operation, never stored as a live credential. The ledger honours a command
/// only when it carries the authority derived for that market.
#[derive(Clone, Copy, PartialEq, Eq, Structural, Debug, Hash)]
pub struct DerivedAuthority {
    pub market: Address,
    pub nonce: u8,
}

/// Derives the market's signing capability from its identity and nonce.
pub fn derive_authority(market: Address, nonce: u8) -> (a: DerivedAuthority)
    ensures
        a == spec_derive_authority(market, nonce),
{
    DerivedAuthority { market, nonce }
}

pub open spec fn spec_derive_authority(market: Address, nonce: u8) -> DerivedAuthority {
    DerivedAuthority { market, nonce }
}

} // verus!
