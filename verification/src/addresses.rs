//! The address deriver.
//!
//! Every entity lives at a deterministic address derived from a namespace tag
//! plus its owner and parent keys (and, for products, a name). Here the
//! derivation inputs themselves are the address: the namespace tag is the
//! address type, and the key fields are its fields. That keeps derivation
//! pure and deterministic, and makes collision-freedom across distinct
//! inputs a provable fact rather than a cryptographic assumption: two
//! addresses are equal exactly when their derivation inputs are.

use crate::ids::AccountId;
use vstd::prelude::*;

verus! {

/// The address of a merchant: derived from the creating authority alone,
/// so one authority owns at most one merchant.
#[derive(Clone, Copy, PartialEq, Eq, Structural, Debug)]
pub struct MerchantAddress {
    pub authority: AccountId,
}

/// The address of a product: derived from the owning merchant's address
/// and the product's name bytes.
#[derive(Clone, Debug)]
pub struct ProductAddress {
    pub merchant: MerchantAddress,
    pub name: Vec<u8>,
}

/// The mathematical value of a [`ProductAddress`].
#[verifier::ext_equal]
pub struct ProductAddressView {
    pub merchant: MerchantAddress,
    pub name: Seq<u8>,
}

impl View for ProductAddress {
    type V = ProductAddressView;

    open spec fn view(&self) -> ProductAddressView {
        ProductAddressView { merchant: self.merchant, name: self.name@ }
    }
}

/// The address of a subscription: derived from the purchasing user and the
/// product's address, so one user holds at most one pass per product.
#[derive(Clone, Debug)]
pub struct SubscriptionAddress {
    pub user: AccountId,
    pub product: ProductAddress,
}

/// The mathematical value of a [`SubscriptionAddress`].
#[verifier::ext_equal]
pub struct SubscriptionAddressView {
    pub user: AccountId,
    pub product: ProductAddressView,
}

impl View for SubscriptionAddress {
    type V = SubscriptionAddressView;

    open spec fn view(&self) -> SubscriptionAddressView {
        SubscriptionAddressView { user: self.user, product: self.product@ }
    }
}

/// Derives the merchant address owned by `authority`.
pub fn derive_merchant_address(authority: AccountId) -> (a: MerchantAddress)
    ensures
        a == (MerchantAddress { authority }),
{
    MerchantAddress { authority }
}

/// Derives the product address for `name` under `merchant`.
pub fn derive_product_address(merchant: MerchantAddress, name: Vec<u8>) -> (a: ProductAddress)
    ensures
        a@.merchant == merchant,
        a@.name == name@,
{
    ProductAddress { merchant, name }
}

/// Derives the subscription address for `user`'s pass to `product`.
pub fn derive_subscription_address(user: AccountId, product: ProductAddress) -> (a:
    SubscriptionAddress)
    ensures
        a@.user == user,
        a@.product == product@,
{
    SubscriptionAddress { user, product }
}

/// Compares two byte strings for equality of contents.
pub fn bytes_eq(a: &Vec<u8>, b: &Vec<u8>) -> (r: bool)
    ensures
        r == (a@ == b@),
{
    if a.len() != b.len() {
        assert(a@ != b@);
        return false;
    }
    let n: usize = a.len();
    let mut i: usize = 0;
    while i < n
        invariant
            n == a@.len(),
            n == b@.len(),
            0 <= i <= n,
            forall|k: int| 0 <= k < i ==> a@[k] == b@[k],
        decreases n - i,
    {
        if a[i] != b[i] {
            assert(a@ != b@);
            return false;
        }
        i = i + 1;
    }
    assert(a@ =~= b@);
    true
}

/// Compares two product addresses for equality of their derivation inputs.
pub fn product_address_eq(a: &ProductAddress, b: &ProductAddress) -> (r: bool)
    ensures
        r == (a@ == b@),
{
    let r = a.merchant.authority.value == b.merchant.authority.value && bytes_eq(&a.name, &b.name);
    proof {
        if r {
            assert(a@ =~= b@);
        }
    }
    r
}

/// Compares two subscription addresses for equality of their derivation inputs.
pub fn subscription_address_eq(a: &SubscriptionAddress, b: &SubscriptionAddress) -> (r: bool)
    ensures
        r == (a@ == b@),
{
    let r = a.user.value == b.user.value && product_address_eq(&a.product, &b.product);
    proof {
        if r {
            assert(a@ =~= b@);
        }
    }
    r
}

} // verus!
