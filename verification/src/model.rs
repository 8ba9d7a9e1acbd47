//! The mathematical model of the whole system, and its well-formedness.
//!
//! A [`SystemView`] is the abstract value of a running system: the platform
//! singleton, the three entity sequences, and the gateway's token accounts.
//! [`SystemView::wf`] is the invariant every handler preserves: addresses are
//! unique, every reference resolves, every counter agrees with the records it
//! counts, every stored record passed validation, and every pass's validity
//! window agrees with its product's duration.

use crate::addresses::{MerchantAddress, ProductAddressView, SubscriptionAddressView};
use crate::ids::AccountId;
use crate::entities::{
    Platform, MerchantView, SubscriptionProductView, SubscriptionView, TokenAccount,
    SECONDS_PER_DAY, MAX_NAME_LEN, MAX_DESCRIPTION_LEN, PROOF_HASH_LEN,
};
use vstd::prelude::*;

verus! {

/// The abstract state of the whole system.
#[verifier::ext_equal]
pub struct SystemView {
    pub platform: Option<Platform>,
    pub merchants: Seq<MerchantView>,
    pub products: Seq<SubscriptionProductView>,
    pub subscriptions: Seq<SubscriptionView>,
    pub tokens: Seq<TokenAccount>,
}

/// Whether a merchant owned by `authority` is on record.
pub open spec fn has_merchant(ms: Seq<MerchantView>, authority: AccountId) -> bool {
    exists|i: int| 0 <= i < ms.len() && ms[i].authority == authority
}

/// The position of the merchant owned by `authority`.
pub open spec fn merchant_index(ms: Seq<MerchantView>, authority: AccountId) -> int {
    choose|i: int| 0 <= i < ms.len() && ms[i].authority == authority
}

/// The merchant record owned by `authority`.
pub open spec fn merchant_at(ms: Seq<MerchantView>, authority: AccountId) -> MerchantView {
    ms[merchant_index(ms, authority)]
}

/// Whether `p` is the record stored at address `a`.
pub open spec fn product_has_address(p: SubscriptionProductView, a: ProductAddressView) -> bool {
    p.merchant == a.merchant && p.name == a.name
}

/// Whether a product is on record at address `a`.
pub open spec fn has_product(ps: Seq<SubscriptionProductView>, a: ProductAddressView) -> bool {
    exists|i: int| 0 <= i < ps.len() && product_has_address(ps[i], a)
}

/// The position of the product stored at address `a`.
pub open spec fn product_index(ps: Seq<SubscriptionProductView>, a: ProductAddressView) -> int {
    choose|i: int| 0 <= i < ps.len() && product_has_address(ps[i], a)
}

/// The product record stored at address `a`.
pub open spec fn product_at(
    ps: Seq<SubscriptionProductView>,
    a: ProductAddressView,
) -> SubscriptionProductView {
    ps[product_index(ps, a)]
}

/// Whether `s` is the record stored at address `a`.
pub open spec fn subscription_has_address(s: SubscriptionView, a: SubscriptionAddressView) -> bool {
    s.user == a.user && s.product == a.product
}

/// Whether a subscription is on record at address `a`.
pub open spec fn has_subscription(ss: Seq<SubscriptionView>, a: SubscriptionAddressView) -> bool {
    exists|i: int| 0 <= i < ss.len() && subscription_has_address(ss[i], a)
}

/// The position of the subscription stored at address `a`.
pub open spec fn subscription_index(ss: Seq<SubscriptionView>, a: SubscriptionAddressView) -> int {
    choose|i: int| 0 <= i < ss.len() && subscription_has_address(ss[i], a)
}

/// The subscription record stored at address `a`.
pub open spec fn subscription_at(
    ss: Seq<SubscriptionView>,
    a: SubscriptionAddressView,
) -> SubscriptionView {
    ss[subscription_index(ss, a)]
}

/// No two merchants share an authority: merchant addresses are unique.
pub open spec fn merchant_addrs_unique(ms: Seq<MerchantView>) -> bool {
    forall|i: int, j: int| 0 <= i < j < ms.len() ==> ms[i].authority != ms[j].authority
}

/// No two products share a (merchant, name) pair: product addresses are
/// unique.
pub open spec fn product_addrs_unique(ps: Seq<SubscriptionProductView>) -> bool {
    forall|i: int, j: int|
        0 <= i < j < ps.len() ==> !product_has_address(ps[i], ps[j].address())
}

/// No two subscriptions share a (user, product) pair: subscription addresses
/// are unique.
pub open spec fn subscription_addrs_unique(ss: Seq<SubscriptionView>) -> bool {
    forall|i: int, j: int|
        0 <= i < j < ss.len() ==> !(ss[i].user == ss[j].user && ss[i].product == ss[j].product)
}

/// No two token accounts share an identity.
pub open spec fn token_ids_unique(ts: Seq<TokenAccount>) -> bool {
    forall|i: int, j: int| 0 <= i < j < ts.len() ==> ts[i].id != ts[j].id
}

/// Whether a token account `id` is on record with the gateway.
pub open spec fn has_token_account(ts: Seq<TokenAccount>, id: AccountId) -> bool {
    exists|i: int| 0 <= i < ts.len() && ts[i].id == id
}

/// The position of token account `id`.
pub open spec fn token_index(ts: Seq<TokenAccount>, id: AccountId) -> int {
    choose|i: int| 0 <= i < ts.len() && ts[i].id == id
}

/// The token account record with identity `id`.
pub open spec fn token_at(ts: Seq<TokenAccount>, id: AccountId) -> TokenAccount {
    ts[token_index(ts, id)]
}

/// How many products belong to the merchant at address `m`.
pub open spec fn count_products_of(ps: Seq<SubscriptionProductView>, m: MerchantAddress) -> nat
    decreases ps.len(),
{
    if ps.len() == 0 {
        0
    } else {
        count_products_of(ps.drop_last(), m) + if ps.last().merchant == m {
            1nat
        } else {
            0nat
        }
    }
}

/// How many subscriptions were sold against the product at address `a`.
pub open spec fn count_subscribers_of(ss: Seq<SubscriptionView>, a: ProductAddressView) -> nat
    decreases ss.len(),
{
    if ss.len() == 0 {
        0
    } else {
        count_subscribers_of(ss.drop_last(), a) + if ss.last().product == a {
            1nat
        } else {
            0nat
        }
    }
}

impl SystemView {
    /// No two merchants share an authority: merchant addresses are unique.
    pub open spec fn merchants_unique(self) -> bool {
        merchant_addrs_unique(self.merchants)
    }

    /// No two products share a (merchant, name) pair: product addresses are
    /// unique.
    pub open spec fn products_unique(self) -> bool {
        product_addrs_unique(self.products)
    }

    /// No two subscriptions share a (user, product) pair: subscription
    /// addresses are unique.
    pub open spec fn subscriptions_unique(self) -> bool {
        subscription_addrs_unique(self.subscriptions)
    }

    /// No two token accounts share an identity.
    pub open spec fn tokens_unique(self) -> bool {
        token_ids_unique(self.tokens)
    }

    /// Every aggregate counter agrees with the records it counts.
    pub open spec fn counters_consistent(self) -> bool {
        &&& (self.platform matches Some(p) ==> p.total_merchants == self.merchants.len()
            && p.total_subscriptions == self.subscriptions.len())
        &&& forall|i: int|
            0 <= i < self.merchants.len() ==> #[trigger] self.merchants[i].total_products
                == count_products_of(
                self.products,
                MerchantAddress { authority: self.merchants[i].authority },
            )
        &&& forall|i: int|
            0 <= i < self.products.len() ==> #[trigger] self.products[i].total_subscribers
                == count_subscribers_of(self.subscriptions, self.products[i].address())
    }

    /// Every stored reference resolves, and the store is empty before the
    /// platform exists.
    pub open spec fn references_consistent(self) -> bool {
        &&& (self.platform is None ==> self.merchants.len() == 0 && self.products.len() == 0
            && self.subscriptions.len() == 0)
        &&& forall|i: int|
            0 <= i < self.products.len() ==> has_merchant(
                self.merchants,
                (#[trigger] self.products[i]).merchant.authority,
            )
        &&& forall|i: int|
            0 <= i < self.subscriptions.len() ==> has_product(
                self.products,
                (#[trigger] self.subscriptions[i]).product,
            ) && self.subscriptions[i].merchant == self.subscriptions[i].product.merchant
    }

    /// Every stored record passed creation-time validation.
    pub open spec fn records_valid(self) -> bool {
        &&& forall|i: int|
            0 <= i < self.merchants.len() ==> (#[trigger] self.merchants[i]).name.len()
                <= MAX_NAME_LEN
        &&& forall|i: int|
            0 <= i < self.products.len() ==> {
                let p = #[trigger] self.products[i];
                p.name.len() <= MAX_NAME_LEN && p.description.len() <= MAX_DESCRIPTION_LEN
                    && p.price > 0 && p.duration_days > 0
            }
        &&& forall|i: int|
            0 <= i < self.subscriptions.len() ==> (#[trigger] self.subscriptions[i]).proof_hash.len()
                == PROOF_HASH_LEN
    }

    /// Every pass's validity window is exactly its product's duration.
    pub open spec fn windows_consistent(self) -> bool {
        forall|i: int|
            0 <= i < self.subscriptions.len() ==> {
                let s = #[trigger] self.subscriptions[i];
                s.end_time == s.start_time + product_at(self.products, s.product).duration_days
                    * SECONDS_PER_DAY
            }
    }

    /// The invariant every handler preserves.
    pub open spec fn wf(self) -> bool {
        &&& self.merchants_unique()
        &&& self.products_unique()
        &&& self.subscriptions_unique()
        &&& self.tokens_unique()
        &&& self.counters_consistent()
        &&& self.references_consistent()
        &&& self.records_valid()
        &&& self.windows_consistent()
    }
}

/// An index that holds the merchant of `authority` is the index
/// `merchant_index` picks.
pub proof fn lemma_merchant_index_is(ms: Seq<MerchantView>, authority: AccountId, i: int)
    requires
        merchant_addrs_unique(ms),
        0 <= i < ms.len(),
        ms[i].authority == authority,
    ensures
        has_merchant(ms, authority),
        merchant_index(ms, authority) == i,
        merchant_at(ms, authority) == ms[i],
{
    assert(has_merchant(ms, authority));
    let j = merchant_index(ms, authority);
    assert(0 <= j < ms.len() && ms[j].authority == authority);
    if i < j {
        assert(ms[i].authority != ms[j].authority);
    } else if j < i {
        assert(ms[j].authority != ms[i].authority);
    }
}

/// An index that holds the product at `a` is the index `product_index` picks.
pub proof fn lemma_product_index_is(ps: Seq<SubscriptionProductView>, a: ProductAddressView, i: int)
    requires
        product_addrs_unique(ps),
        0 <= i < ps.len(),
        product_has_address(ps[i], a),
    ensures
        has_product(ps, a),
        product_index(ps, a) == i,
        product_at(ps, a) == ps[i],
{
    assert(has_product(ps, a));
    let j = product_index(ps, a);
    assert(0 <= j < ps.len() && product_has_address(ps[j], a));
    if i < j {
        assert(!product_has_address(ps[i], ps[j].address()));
    } else if j < i {
        assert(!product_has_address(ps[j], ps[i].address()));
    }
}

/// An index that holds the subscription at `a` is the index
/// `subscription_index` picks.
pub proof fn lemma_subscription_index_is(
    ss: Seq<SubscriptionView>,
    a: SubscriptionAddressView,
    i: int,
)
    requires
        subscription_addrs_unique(ss),
        0 <= i < ss.len(),
        subscription_has_address(ss[i], a),
    ensures
        has_subscription(ss, a),
        subscription_index(ss, a) == i,
        subscription_at(ss, a) == ss[i],
{
    assert(has_subscription(ss, a));
    let j = subscription_index(ss, a);
    assert(0 <= j < ss.len() && subscription_has_address(ss[j], a));
}

/// Appending a product raises by one the count of its merchant and leaves
/// every other merchant's count alone.
pub proof fn lemma_count_products_push(
    ps: Seq<SubscriptionProductView>,
    m: MerchantAddress,
    p: SubscriptionProductView,
)
    ensures
        count_products_of(ps.push(p), m) == count_products_of(ps, m) + if p.merchant == m {
            1nat
        } else {
            0nat
        },
{
    assert(ps.push(p).drop_last() =~= ps);
    assert(ps.push(p).last() == p);
}

/// A merchant's product count never exceeds the number of products.
pub proof fn lemma_count_products_le_len(ps: Seq<SubscriptionProductView>, m: MerchantAddress)
    ensures
        count_products_of(ps, m) <= ps.len(),
    decreases ps.len(),
{
    if ps.len() > 0 {
        lemma_count_products_le_len(ps.drop_last(), m);
    }
}

/// A product's subscriber count never exceeds the number of subscriptions.
pub proof fn lemma_count_subscribers_le_len(ss: Seq<SubscriptionView>, a: ProductAddressView)
    ensures
        count_subscribers_of(ss, a) <= ss.len(),
    decreases ss.len(),
{
    if ss.len() > 0 {
        lemma_count_subscribers_le_len(ss.drop_last(), a);
    }
}

/// A merchant no product names has a product count of zero.
pub proof fn lemma_count_products_zero(ps: Seq<SubscriptionProductView>, m: MerchantAddress)
    requires
        forall|i: int| 0 <= i < ps.len() ==> (#[trigger] ps[i]).merchant != m,
    ensures
        count_products_of(ps, m) == 0,
    decreases ps.len(),
{
    if ps.len() > 0 {
        lemma_count_products_zero(ps.drop_last(), m);
    }
}

/// Product counts depend on the merchant fields alone.
pub proof fn lemma_count_products_pointwise(
    ps1: Seq<SubscriptionProductView>,
    ps2: Seq<SubscriptionProductView>,
    m: MerchantAddress,
)
    requires
        ps1.len() == ps2.len(),
        forall|i: int| 0 <= i < ps1.len() ==> (#[trigger] ps1[i]).merchant == ps2[i].merchant,
    ensures
        count_products_of(ps1, m) == count_products_of(ps2, m),
    decreases ps1.len(),
{
    if ps1.len() > 0 {
        lemma_count_products_pointwise(ps1.drop_last(), ps2.drop_last(), m);
    }
}

/// Appending a subscription raises by one the count of its product and
/// leaves every other product's count alone.
pub proof fn lemma_count_subscribers_push(
    ss: Seq<SubscriptionView>,
    a: ProductAddressView,
    s: SubscriptionView,
)
    ensures
        count_subscribers_of(ss.push(s), a) == count_subscribers_of(ss, a) + if s.product == a {
            1nat
        } else {
            0nat
        },
{
    assert(ss.push(s).drop_last() =~= ss);
    assert(ss.push(s).last() == s);
}

/// A product no subscription names has a subscriber count of zero.
pub proof fn lemma_count_subscribers_zero(ss: Seq<SubscriptionView>, a: ProductAddressView)
    requires
        forall|i: int| 0 <= i < ss.len() ==> (#[trigger] ss[i]).product != a,
    ensures
        count_subscribers_of(ss, a) == 0,
    decreases ss.len(),
{
    if ss.len() > 0 {
        lemma_count_subscribers_zero(ss.drop_last(), a);
    }
}

/// Subscriber counts depend on the product fields alone.
pub proof fn lemma_count_subscribers_pointwise(
    ss1: Seq<SubscriptionView>,
    ss2: Seq<SubscriptionView>,
    a: ProductAddressView,
)
    requires
        ss1.len() == ss2.len(),
        forall|i: int| 0 <= i < ss1.len() ==> (#[trigger] ss1[i]).product == ss2[i].product,
    ensures
        count_subscribers_of(ss1, a) == count_subscribers_of(ss2, a),
    decreases ss1.len(),
{
    if ss1.len() > 0 {
        lemma_count_subscribers_pointwise(ss1.drop_last(), ss2.drop_last(), a);
    }
}

} // verus!
