//! Account identities.
//!
//! An identity is a fixed-width 256-bit value naming an account owner or
//! spender, with the all-zero value reserved as the null identity. The host
//! derives identities from public keys; the ledger only compares them.

use vstd::prelude::*;

verus! {

/// A 256-bit account identity, held as two 128-bit halves.
///
/// The all-zero value is the null identity: no real account may use it, and
/// mint notifications use it as their synthetic source.
#[derive(Clone, Copy, Debug, PartialEq, Eq, Structural)]
pub struct Identity {
    pub hi: u128,
    pub lo: u128,
}

impl Identity {
    /// The null (all-zero) identity.
    pub open spec fn spec_null() -> Identity {
        Identity { hi: 0, lo: 0 }
    }

    /// Builds the null identity.
    pub fn null() -> (r: Identity)
        ensures
            r == Identity::spec_null(),
    {
        Identity { hi: 0, lo: 0 }
    }

    /// True exactly when this is the null identity.
    pub fn is_null(&self) -> (r: bool)
        ensures
            r == (*self == Identity::spec_null()),
    {
        self.hi == 0 && self.lo == 0
    }
}

impl Default for Identity {
    /// The default identity is the null identity, as with the host's key type.
    fn default() -> (r: Identity)
        ensures
            r == Identity::spec_null(),
    {
        Identity { hi: 0, lo: 0 }
    }
}

} // verus!
