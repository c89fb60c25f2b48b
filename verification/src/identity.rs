//! Opaque caller, owner and program identities.
//!
//! An identity is a fixed-size 32-byte key. The ledger never inspects its
//! contents; it only compares identities for equality, so the key is held as
//! two 128-bit halves.

use vstd::prelude::*;

verus! {

/// A 32-byte identity key: an account owner, an administrator, or an
/// external program that may be granted the lock/unlock capability.
#[derive(Clone, Copy, Debug, PartialEq, Eq, Structural)]
pub struct Identity {
    /// The first 16 bytes of the key.
    pub hi: u128,
    /// The last 16 bytes of the key.
    pub lo: u128,
}

impl Identity {
    /// Builds an identity from the two halves of its 32-byte key.
    pub fn new(hi: u128, lo: u128) -> (r: Identity)
        ensures
            r == (Identity { hi, lo }),
    {
        Identity { hi, lo }
    }
}

} // verus!
