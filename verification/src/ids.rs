//! Account identities.
//!
//! An identity stands for a key that signs or owns records: a platform or
//! merchant authority, a purchasing user, a token account, or a payment-asset
//! identifier. The logic only ever compares identities for equality.

use vstd::prelude::*;

verus! {

/// An opaque identity, compared only for equality.
#[derive(Clone, Copy, PartialEq, Eq, Structural, Debug)]
pub struct AccountId {
    pub value: u64,
}

impl AccountId {
    /// Builds the identity with the given raw value.
    pub fn new(value: u64) -> (r: AccountId)
        ensures
            r == (AccountId { value }),
    {
        AccountId { value }
    }
}

} // verus!
