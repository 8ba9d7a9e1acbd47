//! The entity store: the durable records and the gateway, as one system.
//!
//! A [`System`] holds the platform singleton, the merchant, product and
//! subscription records, and the token gateway. Each record's storage key is
//! re-derived from its own immutable fields, so a lookup walks the records
//! comparing derivation inputs. The handlers in [`crate::handlers`] are the
//! only operations that mutate the records.

use crate::addresses::{MerchantAddress, ProductAddress, ProductAddressView, SubscriptionAddress,
    SubscriptionAddressView, bytes_eq, product_address_eq};
use crate::entities::{Platform, Merchant, SubscriptionProduct, Subscription, TokenAccount};
use crate::errors::ErrorCode;
use crate::gateway::TokenGateway;
use crate::ids::AccountId;
use crate::model::{
    SystemView, has_merchant, merchant_at, has_product, product_at, has_subscription,
    subscription_at, product_has_address, subscription_has_address, lemma_merchant_index_is,
    lemma_product_index_is, lemma_subscription_index_is, has_token_account,
};
use vstd::prelude::*;

verus! {

/// The whole system: every durable record, and the gateway's accounts.
pub struct System {
    pub platform: Option<Platform>,
    pub merchants: Vec<Merchant>,
    pub products: Vec<SubscriptionProduct>,
    pub subscriptions: Vec<Subscription>,
    pub tokens: TokenGateway,
}

impl View for System {
    type V = SystemView;

    open spec fn view(&self) -> SystemView {
        SystemView {
            platform: self.platform,
            merchants: self.merchants@.map_values(|m: Merchant| m@),
            products: self.products@.map_values(|p: SubscriptionProduct| p@),
            subscriptions: self.subscriptions@.map_values(|s: Subscription| s@),
            tokens: self.tokens@,
        }
    }
}

impl System {
    /// A fresh system: no platform, no records, no token accounts.
    pub fn new() -> (s: System)
        ensures
            s@.wf(),
            s@.platform is None,
            s@.merchants.len() == 0,
            s@.products.len() == 0,
            s@.subscriptions.len() == 0,
            s@.tokens.len() == 0,
    {
        System {
            platform: None,
            merchants: Vec::new(),
            products: Vec::new(),
            subscriptions: Vec::new(),
            tokens: TokenGateway::new(),
        }
    }

    /// Opens a token account with the gateway; the records are untouched.
    pub fn open_token_account(&mut self, id: AccountId, owner: AccountId, balance: u64) -> (r:
        Result<(), ErrorCode>)
        requires
            old(self)@.wf(),
        ensures
            final(self)@.wf(),
            final(self)@.platform == old(self)@.platform,
            final(self)@.merchants == old(self)@.merchants,
            final(self)@.products == old(self)@.products,
            final(self)@.subscriptions == old(self)@.subscriptions,
            has_token_account(old(self)@.tokens, id) ==> r == Err::<(), ErrorCode>(
                ErrorCode::AlreadyExists,
            ) && final(self)@.tokens == old(self)@.tokens,
            !has_token_account(old(self)@.tokens, id) ==> r == Ok::<(), ErrorCode>(())
                && final(self)@.tokens =~= old(self)@.tokens.push(
                TokenAccount { id, owner, balance },
            ),
    {
        self.tokens.create_account(id, owner, balance)
    }

    /// Finds the position of the merchant owned by `authority`.
    pub(crate) fn find_merchant(&self, authority: AccountId) -> (o: Option<usize>)
        ensures
            match o {
                Some(i) => 0 <= i < self@.merchants.len() && self@.merchants[i as int].authority
                    == authority,
                None => !has_merchant(self@.merchants, authority),
            },
    {
        let n: usize = self.merchants.len();
        let mut i: usize = 0;
        while i < n
            invariant
                n == self@.merchants.len(),
                0 <= i <= n,
                forall|k: int| 0 <= k < i ==> self@.merchants[k].authority != authority,
            decreases n - i,
        {
            if self.merchants[i].authority.value == authority.value {
                return Some(i);
            }
            i = i + 1;
        }
        None
    }

    /// Finds the position of the product at the address derived from
    /// `merchant` and `name`.
    pub(crate) fn find_product(&self, merchant: MerchantAddress, name: &Vec<u8>) -> (o: Option<
        usize,
    >)
        ensures
            match o {
                Some(i) => 0 <= i < self@.products.len() && product_has_address(
                    self@.products[i as int],
                    ProductAddressView { merchant, name: name@ },
                ),
                None => !has_product(
                    self@.products,
                    ProductAddressView { merchant, name: name@ },
                ),
            },
    {
        let ghost a = ProductAddressView { merchant, name: name@ };
        let n: usize = self.products.len();
        let mut i: usize = 0;
        while i < n
            invariant
                n == self@.products.len(),
                0 <= i <= n,
                a == (ProductAddressView { merchant, name: name@ }),
                forall|k: int| 0 <= k < i ==> !product_has_address(self@.products[k], a),
            decreases n - i,
        {
            if self.products[i].merchant.authority.value == merchant.authority.value && bytes_eq(
                &self.products[i].name,
                name,
            ) {
                return Some(i);
            }
            i = i + 1;
        }
        None
    }

    /// Finds the position of the subscription at the address derived from
    /// `user` and `product`.
    pub(crate) fn find_subscription(&self, user: AccountId, product: &ProductAddress) -> (o:
        Option<usize>)
        ensures
            match o {
                Some(i) => 0 <= i < self@.subscriptions.len() && subscription_has_address(
                    self@.subscriptions[i as int],
                    SubscriptionAddressView { user, product: product@ },
                ),
                None => !has_subscription(
                    self@.subscriptions,
                    SubscriptionAddressView { user, product: product@ },
                ),
            },
    {
        let ghost a = SubscriptionAddressView { user, product: product@ };
        let n: usize = self.subscriptions.len();
        let mut i: usize = 0;
        while i < n
            invariant
                n == self@.subscriptions.len(),
                0 <= i <= n,
                a == (SubscriptionAddressView { user, product: product@ }),
                forall|k: int| 0 <= k < i ==> !subscription_has_address(self@.subscriptions[k], a),
            decreases n - i,
        {
            if self.subscriptions[i].user.value == user.value && product_address_eq(
                &self.subscriptions[i].product,
                product,
            ) {
                return Some(i);
            }
            i = i + 1;
        }
        None
    }

    /// Reads the platform singleton, if it was initialized.
    pub fn get_platform(&self) -> (o: Option<Platform>)
        ensures
            o == self@.platform,
    {
        self.platform
    }

    /// Reads the merchant owned by `authority`, if one is on record.
    pub fn read_merchant(&self, authority: AccountId) -> (o: Option<&Merchant>)
        requires
            self@.wf(),
        ensures
            match o {
                Some(m) => has_merchant(self@.merchants, authority) && m@ == merchant_at(
                    self@.merchants,
                    authority,
                ),
                None => !has_merchant(self@.merchants, authority),
            },
    {
        match self.find_merchant(authority) {
            Some(i) => {
                proof {
                    lemma_merchant_index_is(self@.merchants, authority, i as int);
                }
                Some(&self.merchants[i])
            },
            None => None,
        }
    }

    /// Reads the product at the given address, if one is on record.
    pub fn read_product(&self, address: &ProductAddress) -> (o: Option<&SubscriptionProduct>)
        requires
            self@.wf(),
        ensures
            match o {
                Some(p) => has_product(self@.products, address@) && p@ == product_at(
                    self@.products,
                    address@,
                ),
                None => !has_product(self@.products, address@),
            },
    {
        match self.find_product(address.merchant, &address.name) {
            Some(i) => {
                proof {
                    assert(address@ =~= (ProductAddressView {
                        merchant: address.merchant,
                        name: address.name@,
                    }));
                    lemma_product_index_is(self@.products, address@, i as int);
                }
                Some(&self.products[i])
            },
            None => None,
        }
    }

    /// Reads the subscription at the given address, if one is on record.
    pub fn read_subscription(&self, address: &SubscriptionAddress) -> (o: Option<&Subscription>)
        requires
            self@.wf(),
        ensures
            match o {
                Some(s) => has_subscription(self@.subscriptions, address@) && s@ == subscription_at(
                    self@.subscriptions,
                    address@,
                ),
                None => !has_subscription(self@.subscriptions, address@),
            },
    {
        match self.find_subscription(address.user, &address.product) {
            Some(i) => {
                proof {
                    assert(address@ =~= (SubscriptionAddressView {
                        user: address.user,
                        product: address.product@,
                    }));
                    lemma_subscription_index_is(self@.subscriptions, address@, i as int);
                }
                Some(&self.subscriptions[i])
            },
            None => None,
        }
    }
}

} // verus!
