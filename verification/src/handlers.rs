//! The instruction handlers: the six operations that move the system.
//!
//! Each handler is proved to implement its transition in
//! [`crate::transitions`]: the new state and the outcome are exactly what the
//! transition function gives, and the system invariant is preserved. Since a
//! transition's state component is the pre-state whenever its outcome is an
//! error, every failing handler provably mutates nothing: validation,
//! authorization, the payment transfer and the counter updates stand or fall
//! as one atomic unit.
//!
//! Each handler takes a context naming the caller and the records it
//! touches, and the clock readings come in as arguments: the execution
//! context supplies the wall clock.

use crate::addresses::{MerchantAddress, ProductAddress, ProductAddressView, SubscriptionAddress,
    SubscriptionAddressView};
use crate::entities::{Platform, Merchant, Subscription, SubscriptionProduct, MAX_NAME_LEN,
    MAX_DESCRIPTION_LEN};
use crate::errors::ErrorCode;
use crate::ids::AccountId;
use crate::model::{
    count_subscribers_of, count_products_of, lemma_count_products_le_len,
    lemma_count_subscribers_le_len, lemma_merchant_index_is, lemma_product_index_is,
    lemma_subscription_index_is,
};
use crate::system::System;
use crate::transitions::{
    initialize_next, create_merchant_next, create_subscription_product_next, subscribe_next,
    verify_subscription_spec, update_zk_proof_next, cancel_subscription_next,
    subscribe_window_fits, subscribe_revenue_fits, zero_proof_hash,
    lemma_initialize_preserves_wf, lemma_create_merchant_preserves_wf,
    lemma_create_product_preserves_wf, lemma_subscribe_preserves_wf,
    lemma_update_zk_proof_preserves_wf, lemma_cancel_subscription_preserves_wf,
};
use vstd::prelude::*;

verus! {

/// The references `initialize` takes: the bootstrapping authority.
#[derive(Clone, Copy, PartialEq, Eq, Structural, Debug)]
pub struct Initialize {
    pub authority: AccountId,
}

/// The references `create_merchant` takes: the signing authority.
#[derive(Clone, Copy, PartialEq, Eq, Structural, Debug)]
pub struct CreateMerchant {
    pub authority: AccountId,
}

/// The references `create_subscription_product` takes: the parent merchant
/// and the signing authority.
#[derive(Clone, Copy, PartialEq, Eq, Structural, Debug)]
pub struct CreateSubscriptionProduct {
    pub merchant: MerchantAddress,
    pub authority: AccountId,
}

/// The references `subscribe` takes: the purchasing user, the product, and
/// the two token accounts the price moves between.
#[derive(Clone, Debug)]
pub struct Subscribe {
    pub user: AccountId,
    pub product: ProductAddress,
    pub user_token_account: AccountId,
    pub merchant_token_account: AccountId,
}

/// The references `verify_subscription` takes: the pass to check.
#[derive(Clone, Debug)]
pub struct VerifySubscription {
    pub subscription: SubscriptionAddress,
}

/// The references `update_zk_proof` takes: the pass and the signing user.
#[derive(Clone, Debug)]
pub struct UpdateZKProof {
    pub subscription: SubscriptionAddress,
    pub user: AccountId,
}

/// The references `cancel_subscription` takes: the pass and the signing
/// user.
#[derive(Clone, Debug)]
pub struct CancelSubscription {
    pub subscription: SubscriptionAddress,
    pub user: AccountId,
}

impl System {
    /// Creates the platform singleton with zeroed counters, or fails
    /// `AlreadyExists` if it was created before.
    pub fn initialize(&mut self, ctx: Initialize) -> (r: Result<(), ErrorCode>)
        requires
            old(self)@.wf(),
        ensures
            final(self)@ == initialize_next(old(self)@, ctx.authority).0,
            r == initialize_next(old(self)@, ctx.authority).1,
            final(self)@.wf(),
    {
        proof {
            lemma_initialize_preserves_wf(self@, ctx.authority);
        }
        match self.platform {
            Some(_) => Err(ErrorCode::AlreadyExists),
            None => {
                self.platform = Some(
                    Platform { authority: ctx.authority, total_subscriptions: 0, total_merchants: 0 },
                );
                proof {
                    assert(self@ =~= initialize_next(old(self)@, ctx.authority).0);
                }
                Ok(())
            },
        }
    }

    /// Validates the name, creates the merchant at the address derived from
    /// the signing authority, and raises the platform's merchant total by
    /// one. Fails `NameTooLong`, `NotFound` (no platform), or
    /// `AlreadyExists` (the authority already owns a merchant).
    pub fn create_merchant(&mut self, ctx: CreateMerchant, merchant_name: Vec<u8>) -> (r: Result<
        (),
        ErrorCode,
    >)
        requires
            old(self)@.wf(),
        ensures
            final(self)@ == create_merchant_next(old(self)@, ctx.authority, merchant_name@).0,
            r == create_merchant_next(old(self)@, ctx.authority, merchant_name@).1,
            final(self)@.wf(),
    {
        let ghost pre = self@;
        if merchant_name.len() > MAX_NAME_LEN {
            return Err(ErrorCode::NameTooLong);
        }
        let plat = match self.platform {
            Some(p) => p,
            None => {
                return Err(ErrorCode::NotFound);
            },
        };
        match self.find_merchant(ctx.authority) {
            Some(_) => {
                return Err(ErrorCode::AlreadyExists);
            },
            None => {},
        }
        self.merchants.push(
            Merchant {
                authority: ctx.authority,
                name: merchant_name,
                total_products: 0,
                total_revenue: 0,
                is_verified: false,
            },
        );
        proof {
            vstd::std_specs::vec::axiom_spec_len(&self.merchants);
        }
        self.platform = Some(
            Platform { total_merchants: plat.total_merchants + 1, ..plat },
        );
        proof {
            assert(self@ =~= create_merchant_next(pre, ctx.authority, merchant_name@).0);
            lemma_create_merchant_preserves_wf(pre, ctx.authority, merchant_name@);
        }
        Ok(())
    }

    /// Validates the fields, requires the signing authority to own the
    /// parent merchant, creates the product at the address derived from the
    /// merchant and the name, and raises the merchant's product total by
    /// one. Fails `NameTooLong`, `DescriptionTooLong`, `InvalidPrice`,
    /// `InvalidDuration`, `Unauthorized`, `NotFound`, or `AlreadyExists`.
    pub fn create_subscription_product(
        &mut self,
        ctx: CreateSubscriptionProduct,
        name: Vec<u8>,
        description: Vec<u8>,
        price: u64,
        duration_days: u32,
        token_mint: AccountId,
    ) -> (r: Result<(), ErrorCode>)
        requires
            old(self)@.wf(),
        ensures
            final(self)@ == create_subscription_product_next(
                old(self)@,
                ctx.merchant,
                ctx.authority,
                name@,
                description@,
                price,
                duration_days,
                token_mint,
            ).0,
            r == create_subscription_product_next(
                old(self)@,
                ctx.merchant,
                ctx.authority,
                name@,
                description@,
                price,
                duration_days,
                token_mint,
            ).1,
            final(self)@.wf(),
    {
        let ghost pre = self@;
        if name.len() > MAX_NAME_LEN {
            return Err(ErrorCode::NameTooLong);
        }
        if description.len() > MAX_DESCRIPTION_LEN {
            return Err(ErrorCode::DescriptionTooLong);
        }
        if price == 0 {
            return Err(ErrorCode::InvalidPrice);
        }
        if duration_days == 0 {
            return Err(ErrorCode::InvalidDuration);
        }
        if ctx.merchant.authority.value != ctx.authority.value {
            return Err(ErrorCode::Unauthorized);
        }
        let mi = match self.find_merchant(ctx.merchant.authority) {
            Some(i) => i,
            None => {
                return Err(ErrorCode::NotFound);
            },
        };
        proof {
            lemma_merchant_index_is(pre.merchants, ctx.merchant.authority, mi as int);
        }
        match self.find_product(ctx.merchant, &name) {
            Some(_) => {
                return Err(ErrorCode::AlreadyExists);
            },
            None => {},
        }
        self.products.push(
            SubscriptionProduct {
                merchant: ctx.merchant,
                name,
                description,
                price,
                duration_days,
                token_mint,
                total_subscribers: 0,
                is_active: true,
            },
        );
        proof {
            vstd::std_specs::vec::axiom_spec_len(&self.products);
            assert(pre.merchants[mi as int].total_products == count_products_of(
                pre.products,
                MerchantAddress { authority: pre.merchants[mi as int].authority },
            ));
            lemma_count_products_le_len(
                pre.products,
                MerchantAddress { authority: pre.merchants[mi as int].authority },
            );
        }
        let new_total = self.merchants[mi].total_products + 1;
        self.merchants[mi].total_products = new_total;
        proof {
            assert(self@ =~= create_subscription_product_next(
                pre,
                ctx.merchant,
                ctx.authority,
                name@,
                description@,
                price,
                duration_days,
                token_mint,
            ).0);
            lemma_create_product_preserves_wf(
                pre,
                ctx.merchant,
                ctx.authority,
                name@,
                description@,
                price,
                duration_days,
                token_mint,
            );
        }
        Ok(())
    }

    /// Requires an active product, moves the price from the user's token
    /// account to the merchant's, creates the pass with its validity
    /// window and a zeroed proof artifact, and raises the product's
    /// subscriber total, the merchant's revenue and the platform's
    /// subscription total — all as one atomic unit: if the transfer fails,
    /// no record and no counter changes. Fails `NotFound`, `AlreadyExists`,
    /// `ProductInactive`, or the transfer's own error.
    pub fn subscribe(&mut self, ctx: Subscribe, now: i64) -> (r: Result<(), ErrorCode>)
        requires
            old(self)@.wf(),
            subscribe_window_fits(old(self)@, ctx.product@, now),
            subscribe_revenue_fits(old(self)@, ctx.product@),
        ensures
            final(self)@ == subscribe_next(
                old(self)@,
                ctx.user,
                ctx.product@,
                ctx.user_token_account,
                ctx.merchant_token_account,
                now,
            ).0,
            r == subscribe_next(
                old(self)@,
                ctx.user,
                ctx.product@,
                ctx.user_token_account,
                ctx.merchant_token_account,
                now,
            ).1,
            final(self)@.wf(),
    {
        let ghost pre = self@;
        let plat = match self.platform {
            Some(p) => p,
            None => {
                return Err(ErrorCode::NotFound);
            },
        };
        let pi = match self.find_product(ctx.product.merchant, &ctx.product.name) {
            Some(i) => i,
            None => {
                proof {
                    assert(ctx.product@ =~= (ProductAddressView {
                        merchant: ctx.product.merchant,
                        name: ctx.product.name@,
                    }));
                }
                return Err(ErrorCode::NotFound);
            },
        };
        proof {
            assert(ctx.product@ =~= (ProductAddressView {
                merchant: ctx.product.merchant,
                name: ctx.product.name@,
            }));
            lemma_product_index_is(pre.products, ctx.product@, pi as int);
        }
        match self.find_subscription(ctx.user, &ctx.product) {
            Some(_) => {
                return Err(ErrorCode::AlreadyExists);
            },
            None => {},
        }
        if !self.products[pi].is_active {
            return Err(ErrorCode::ProductInactive);
        }
        let merchant_addr = self.products[pi].merchant;
        let price = self.products[pi].price;
        let duration = self.products[pi].duration_days;
        let mi = match self.find_merchant(merchant_addr.authority) {
            Some(i) => i,
            None => {
                return Err(ErrorCode::NotFound);
            },
        };
        proof {
            lemma_merchant_index_is(pre.merchants, merchant_addr.authority, mi as int);
        }
        match self.tokens.transfer(
            ctx.user_token_account,
            ctx.merchant_token_account,
            ctx.user,
            price,
        ) {
            Err(e) => {
                proof {
                    assert(self@ =~= pre);
                }
                return Err(e);
            },
            Ok(_) => {},
        }
        let end_time = now + (duration as i64) * 86400;
        let zero_hash: [u8; 32] = [0u8; 32];
        self.subscriptions.push(
            Subscription {
                user: ctx.user,
                product: ctx.product,
                merchant: merchant_addr,
                start_time: now,
                end_time,
                is_active: true,
                proof_hash: zero_hash,
            },
        );
        proof {
            vstd::std_specs::vec::axiom_spec_len(&self.subscriptions);
            assert(pre.products[pi as int].total_subscribers == count_subscribers_of(
                pre.subscriptions,
                pre.products[pi as int].address(),
            ));
            lemma_count_subscribers_le_len(pre.subscriptions, pre.products[pi as int].address());
        }
        let new_subscribers = self.products[pi].total_subscribers + 1;
        self.products[pi].total_subscribers = new_subscribers;
        let new_revenue = self.merchants[mi].total_revenue + price;
        self.merchants[mi].total_revenue = new_revenue;
        self.platform = Some(
            Platform { total_subscriptions: plat.total_subscriptions + 1, ..plat },
        );
        proof {
            assert(zero_hash@ =~= zero_proof_hash());
            assert(self@ =~= subscribe_next(
                pre,
                ctx.user,
                ctx.product@,
                ctx.user_token_account,
                ctx.merchant_token_account,
                now,
            ).0);
            lemma_subscribe_preserves_wf(
                pre,
                ctx.user,
                ctx.product@,
                ctx.user_token_account,
                ctx.merchant_token_account,
                now,
            );
        }
        Ok(())
    }

    /// A pure read: `Ok(true)` exactly when the pass is active and `now`
    /// has not passed its end time; `NotFound` if no pass is on record.
    pub fn verify_subscription(&self, ctx: VerifySubscription, now: i64) -> (r: Result<
        bool,
        ErrorCode,
    >)
        requires
            self@.wf(),
        ensures
            r == verify_subscription_spec(self@, ctx.subscription@, now),
    {
        let si = match self.find_subscription(ctx.subscription.user, &ctx.subscription.product) {
            Some(i) => i,
            None => {
                proof {
                    assert(ctx.subscription@ =~= (SubscriptionAddressView {
                        user: ctx.subscription.user,
                        product: ctx.subscription.product@,
                    }));
                }
                return Err(ErrorCode::NotFound);
            },
        };
        proof {
            assert(ctx.subscription@ =~= (SubscriptionAddressView {
                user: ctx.subscription.user,
                product: ctx.subscription.product@,
            }));
            lemma_subscription_index_is(self@.subscriptions, ctx.subscription@, si as int);
        }
        Ok(self.subscriptions[si].is_active && now <= self.subscriptions[si].end_time)
    }

    /// Requires the signing user to own the pass, then overwrites the proof
    /// artifact unconditionally and changes nothing else. Fails `NotFound`
    /// or `Unauthorized`.
    pub fn update_zk_proof(&mut self, ctx: UpdateZKProof, proof_hash: [u8; 32]) -> (r: Result<
        (),
        ErrorCode,
    >)
        requires
            old(self)@.wf(),
        ensures
            final(self)@ == update_zk_proof_next(
                old(self)@,
                ctx.user,
                ctx.subscription@,
                proof_hash@,
            ).0,
            r == update_zk_proof_next(old(self)@, ctx.user, ctx.subscription@, proof_hash@).1,
            final(self)@.wf(),
    {
        let ghost pre = self@;
        let si = match self.find_subscription(ctx.subscription.user, &ctx.subscription.product) {
            Some(i) => i,
            None => {
                proof {
                    assert(ctx.subscription@ =~= (SubscriptionAddressView {
                        user: ctx.subscription.user,
                        product: ctx.subscription.product@,
                    }));
                }
                return Err(ErrorCode::NotFound);
            },
        };
        proof {
            assert(ctx.subscription@ =~= (SubscriptionAddressView {
                user: ctx.subscription.user,
                product: ctx.subscription.product@,
            }));
            lemma_subscription_index_is(pre.subscriptions, ctx.subscription@, si as int);
        }
        if self.subscriptions[si].user.value != ctx.user.value {
            return Err(ErrorCode::Unauthorized);
        }
        self.subscriptions[si].proof_hash = proof_hash;
        proof {
            assert(self@ =~= update_zk_proof_next(pre, ctx.user, ctx.subscription@, proof_hash@).0);
            lemma_update_zk_proof_preserves_wf(pre, ctx.user, ctx.subscription@, proof_hash@);
        }
        Ok(())
    }

    /// Requires the signing user to own the pass, then flags it inactive,
    /// irreversibly: no handler reactivates a pass. Fails `NotFound` or
    /// `Unauthorized`.
    pub fn cancel_subscription(&mut self, ctx: CancelSubscription) -> (r: Result<(), ErrorCode>)
        requires
            old(self)@.wf(),
        ensures
            final(self)@ == cancel_subscription_next(old(self)@, ctx.user, ctx.subscription@).0,
            r == cancel_subscription_next(old(self)@, ctx.user, ctx.subscription@).1,
            final(self)@.wf(),
    {
        let ghost pre = self@;
        let si = match self.find_subscription(ctx.subscription.user, &ctx.subscription.product) {
            Some(i) => i,
            None => {
                proof {
                    assert(ctx.subscription@ =~= (SubscriptionAddressView {
                        user: ctx.subscription.user,
                        product: ctx.subscription.product@,
                    }));
                }
                return Err(ErrorCode::NotFound);
            },
        };
        proof {
            assert(ctx.subscription@ =~= (SubscriptionAddressView {
                user: ctx.subscription.user,
                product: ctx.subscription.product@,
            }));
            lemma_subscription_index_is(pre.subscriptions, ctx.subscription@, si as int);
        }
        if self.subscriptions[si].user.value != ctx.user.value {
            return Err(ErrorCode::Unauthorized);
        }
        self.subscriptions[si].is_active = false;
        proof {
            assert(self@ =~= cancel_subscription_next(pre, ctx.user, ctx.subscription@).0);
            lemma_cancel_subscription_preserves_wf(pre, ctx.user, ctx.subscription@);
        }
        Ok(())
    }
}

} // verus!
