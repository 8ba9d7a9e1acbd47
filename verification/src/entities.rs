//! The four record types the store holds, with their mathematical values.
//!
//! Names and descriptions are kept as UTF-8 bytes; identities and addresses
//! are the plain-value types of [`crate::ids`] and [`crate::addresses`].

use crate::addresses::{MerchantAddress, ProductAddress, ProductAddressView};
use crate::ids::AccountId;
use vstd::prelude::*;

verus! {

/// The process-wide singleton record: the platform's authority and its
/// aggregate counters.
#[derive(Clone, Copy, PartialEq, Eq, Structural, Debug)]
pub struct Platform {
    pub authority: AccountId,
    pub total_subscriptions: u64,
    pub total_merchants: u64,
}

/// A registered merchant, owned by the authority that created it.
#[derive(Clone, Debug)]
pub struct Merchant {
    pub authority: AccountId,
    pub name: Vec<u8>,
    pub total_products: u64,
    pub total_revenue: u64,
    pub is_verified: bool,
}

/// The mathematical value of a [`Merchant`].
#[verifier::ext_equal]
pub struct MerchantView {
    pub authority: AccountId,
    pub name: Seq<u8>,
    pub total_products: u64,
    pub total_revenue: u64,
    pub is_verified: bool,
}

impl View for Merchant {
    type V = MerchantView;

    open spec fn view(&self) -> MerchantView {
        MerchantView {
            authority: self.authority,
            name: self.name@,
            total_products: self.total_products,
            total_revenue: self.total_revenue,
            is_verified: self.is_verified,
        }
    }
}

/// A subscription product published by a merchant.
#[derive(Clone, Debug)]
pub struct SubscriptionProduct {
    pub merchant: MerchantAddress,
    pub name: Vec<u8>,
    pub description: Vec<u8>,
    pub price: u64,
    pub duration_days: u32,
    pub token_mint: AccountId,
    pub total_subscribers: u64,
    pub is_active: bool,
}

/// The mathematical value of a [`SubscriptionProduct`].
#[verifier::ext_equal]
pub struct SubscriptionProductView {
    pub merchant: MerchantAddress,
    pub name: Seq<u8>,
    pub description: Seq<u8>,
    pub price: u64,
    pub duration_days: u32,
    pub token_mint: AccountId,
    pub total_subscribers: u64,
    pub is_active: bool,
}

impl View for SubscriptionProduct {
    type V = SubscriptionProductView;

    open spec fn view(&self) -> SubscriptionProductView {
        SubscriptionProductView {
            merchant: self.merchant,
            name: self.name@,
            description: self.description@,
            price: self.price,
            duration_days: self.duration_days,
            token_mint: self.token_mint,
            total_subscribers: self.total_subscribers,
            is_active: self.is_active,
        }
    }
}

impl SubscriptionProductView {
    /// The address this product record lives at, re-derived from its own
    /// immutable key fields.
    pub open spec fn address(self) -> ProductAddressView {
        ProductAddressView { merchant: self.merchant, name: self.name }
    }
}

/// A time-boxed access pass, owned by the purchasing user.
#[derive(Clone, Debug)]
pub struct Subscription {
    pub user: AccountId,
    pub product: ProductAddress,
    pub merchant: MerchantAddress,
    pub start_time: i64,
    pub end_time: i64,
    pub is_active: bool,
    pub proof_hash: [u8; 32],
}

/// The mathematical value of a [`Subscription`].
#[verifier::ext_equal]
pub struct SubscriptionView {
    pub user: AccountId,
    pub product: ProductAddressView,
    pub merchant: MerchantAddress,
    pub start_time: i64,
    pub end_time: i64,
    pub is_active: bool,
    pub proof_hash: Seq<u8>,
}

impl View for Subscription {
    type V = SubscriptionView;

    open spec fn view(&self) -> SubscriptionView {
        SubscriptionView {
            user: self.user,
            product: self.product@,
            merchant: self.merchant,
            start_time: self.start_time,
            end_time: self.end_time,
            is_active: self.is_active,
            proof_hash: self.proof_hash@,
        }
    }
}

/// A token account of the payment gateway: a balance held for an owner.
#[derive(Clone, Copy, PartialEq, Eq, Structural, Debug)]
pub struct TokenAccount {
    pub id: AccountId,
    pub owner: AccountId,
    pub balance: u64,
}

/// The number of seconds in a day.
pub const SECONDS_PER_DAY: i64 = 86400;

/// The longest name a merchant or product may carry, in bytes.
pub const MAX_NAME_LEN: usize = 50;

/// The longest description a product may carry, in bytes.
pub const MAX_DESCRIPTION_LEN: usize = 200;

/// The size of a proof artifact, in bytes.
pub const PROOF_HASH_LEN: usize = 32;

} // verus!
