//! The state-transition engine, as mathematics.
//!
//! For each handler, one spec function gives the next abstract state and the
//! outcome, as a single atomic step: the state component is the pre-state
//! exactly whenever the outcome is an error, so a failing handler provably
//! mutates nothing. The executable handlers in [`crate::handlers`] are each
//! proved to implement their transition, and the lemmas here show that every
//! transition preserves [`SystemView::wf`].

use crate::addresses::{MerchantAddress, ProductAddressView, SubscriptionAddressView};
use crate::entities::{
    Platform, MerchantView, SubscriptionProductView, SubscriptionView,
    SECONDS_PER_DAY, MAX_NAME_LEN, MAX_DESCRIPTION_LEN, PROOF_HASH_LEN,
};
use crate::errors::ErrorCode;
use crate::ids::AccountId;
use crate::model::{
    SystemView, has_merchant, merchant_index, merchant_at, has_product, product_index, product_at,
    has_subscription, subscription_index, subscription_at, merchant_addrs_unique,
    product_addrs_unique, subscription_addrs_unique,
    lemma_product_index_is, lemma_count_products_push, lemma_count_products_zero,
    lemma_count_products_pointwise, lemma_count_products_le_len, lemma_count_subscribers_push,
    lemma_count_subscribers_zero, lemma_count_subscribers_pointwise,
    lemma_count_subscribers_le_len,
};
use vstd::prelude::*;

verus! {

/// The all-zero proof artifact a fresh subscription carries.
pub open spec fn zero_proof_hash() -> Seq<u8> {
    Seq::new(PROOF_HASH_LEN as nat, |i: int| 0u8)
}

/// What `initialize` does: creates the platform singleton with zeroed
/// counters, or fails `AlreadyExists` if it was created before.
pub open spec fn initialize_next(pre: SystemView, authority: AccountId) -> (SystemView, Result<
    (),
    ErrorCode,
>) {
    if pre.platform is Some {
        (pre, Err(ErrorCode::AlreadyExists))
    } else {
        (
            SystemView {
                platform: Some(
                    Platform { authority, total_subscriptions: 0, total_merchants: 0 },
                ),
                ..pre
            },
            Ok(()),
        )
    }
}

/// What `create_merchant` does: validates the name, creates the merchant at
/// the address derived from its authority, and raises the platform's
/// merchant total by one.
pub open spec fn create_merchant_next(
    pre: SystemView,
    authority: AccountId,
    name: Seq<u8>,
) -> (SystemView, Result<(), ErrorCode>) {
    if name.len() > MAX_NAME_LEN {
        (pre, Err(ErrorCode::NameTooLong))
    } else if pre.platform is None {
        (pre, Err(ErrorCode::NotFound))
    } else if has_merchant(pre.merchants, authority) {
        (pre, Err(ErrorCode::AlreadyExists))
    } else {
        let p = pre.platform.unwrap();
        (
            SystemView {
                platform: Some(
                    Platform { total_merchants: (p.total_merchants + 1) as u64, ..p },
                ),
                merchants: pre.merchants.push(
                    MerchantView {
                        authority,
                        name,
                        total_products: 0,
                        total_revenue: 0,
                        is_verified: false,
                    },
                ),
                ..pre
            },
            Ok(()),
        )
    }
}

/// What `create_subscription_product` does: validates the fields, requires
/// the invoking authority to own the parent merchant, creates the product at
/// the address derived from the merchant and the name, and raises the
/// merchant's product total by one.
pub open spec fn create_subscription_product_next(
    pre: SystemView,
    merchant: MerchantAddress,
    authority: AccountId,
    name: Seq<u8>,
    description: Seq<u8>,
    price: u64,
    duration_days: u32,
    token_mint: AccountId,
) -> (SystemView, Result<(), ErrorCode>) {
    if name.len() > MAX_NAME_LEN {
        (pre, Err(ErrorCode::NameTooLong))
    } else if description.len() > MAX_DESCRIPTION_LEN {
        (pre, Err(ErrorCode::DescriptionTooLong))
    } else if price == 0 {
        (pre, Err(ErrorCode::InvalidPrice))
    } else if duration_days == 0 {
        (pre, Err(ErrorCode::InvalidDuration))
    } else if merchant.authority != authority {
        (pre, Err(ErrorCode::Unauthorized))
    } else if !has_merchant(pre.merchants, merchant.authority) {
        (pre, Err(ErrorCode::NotFound))
    } else if has_product(pre.products, ProductAddressView { merchant, name }) {
        (pre, Err(ErrorCode::AlreadyExists))
    } else {
        let mi = merchant_index(pre.merchants, merchant.authority);
        let m = pre.merchants[mi];
        (
            SystemView {
                merchants: pre.merchants.update(
                    mi,
                    MerchantView { total_products: (m.total_products + 1) as u64, ..m },
                ),
                products: pre.products.push(
                    SubscriptionProductView {
                        merchant,
                        name,
                        description,
                        price,
                        duration_days,
                        token_mint,
                        total_subscribers: 0,
                        is_active: true,
                    },
                ),
                ..pre
            },
            Ok(()),
        )
    }
}

/// What `subscribe` does: requires an active product, moves the price from
/// the user's token account to the merchant's, creates the pass with its
/// validity window, and raises the three counters — all as one atomic step,
/// so a failing transfer leaves every record and counter untouched.
pub open spec fn subscribe_next(
    pre: SystemView,
    user: AccountId,
    product: ProductAddressView,
    user_token_account: AccountId,
    merchant_token_account: AccountId,
    now: i64,
) -> (SystemView, Result<(), ErrorCode>) {
    if pre.platform is None {
        (pre, Err(ErrorCode::NotFound))
    } else if !has_product(pre.products, product) {
        (pre, Err(ErrorCode::NotFound))
    } else if has_subscription(pre.subscriptions, SubscriptionAddressView { user, product }) {
        (pre, Err(ErrorCode::AlreadyExists))
    } else {
        let prec = product_at(pre.products, product);
        if !prec.is_active {
            (pre, Err(ErrorCode::ProductInactive))
        } else if !has_merchant(pre.merchants, prec.merchant.authority) {
            (pre, Err(ErrorCode::NotFound))
        } else {
            let moved = crate::gateway::transfer_next(
                pre.tokens,
                user_token_account,
                merchant_token_account,
                user,
                prec.price,
            );
            match moved.1 {
                Err(e) => (pre, Err(e)),
                Ok(_) => {
                    let pi = product_index(pre.products, product);
                    let mi = merchant_index(pre.merchants, prec.merchant.authority);
                    let m = pre.merchants[mi];
                    let plat = pre.platform.unwrap();
                    let sub = SubscriptionView {
                        user,
                        product,
                        merchant: prec.merchant,
                        start_time: now,
                        end_time: (now + prec.duration_days as int * SECONDS_PER_DAY as int) as i64,
                        is_active: true,
                        proof_hash: zero_proof_hash(),
                    };
                    (
                        SystemView {
                            platform: Some(
                                Platform {
                                    total_subscriptions: (plat.total_subscriptions + 1) as u64,
                                    ..plat
                                },
                            ),
                            merchants: pre.merchants.update(
                                mi,
                                MerchantView {
                                    total_revenue: (m.total_revenue + prec.price) as u64,
                                    ..m
                                },
                            ),
                            products: pre.products.update(
                                pi,
                                SubscriptionProductView {
                                    total_subscribers: (prec.total_subscribers + 1) as u64,
                                    ..prec
                                },
                            ),
                            subscriptions: pre.subscriptions.push(sub),
                            tokens: moved.0,
                        },
                        Ok(()),
                    )
                },
            }
        }
    }
}

/// `initialize` preserves the system invariant.
pub proof fn lemma_initialize_preserves_wf(pre: SystemView, authority: AccountId)
    requires
        pre.wf(),
    ensures
        initialize_next(pre, authority).0.wf(),
{
}

/// `create_merchant` preserves the system invariant.
pub proof fn lemma_create_merchant_preserves_wf(pre: SystemView, authority: AccountId, name: Seq<
    u8,
>)
    requires
        pre.wf(),
        pre.merchants.len() + 1 <= u64::MAX,
    ensures
        create_merchant_next(pre, authority, name).0.wf(),
{
    let step = create_merchant_next(pre, authority, name);
    let post = step.0;
    if step.1 is Ok {
        let addr = MerchantAddress { authority };
        assert forall|i: int| 0 <= i < pre.products.len() implies (#[trigger] pre.products[i]).merchant
            != addr by {
            if pre.products[i].merchant == addr {
                assert(has_merchant(pre.merchants, authority));
            }
        }
        lemma_count_products_zero(pre.products, addr);
        assert forall|i: int| 0 <= i < post.products.len() implies has_merchant(
            post.merchants,
            (#[trigger] post.products[i]).merchant.authority,
        ) by {
            assert(has_merchant(pre.merchants, pre.products[i].merchant.authority));
            let w = choose|k: int|
                0 <= k < pre.merchants.len() && pre.merchants[k].authority
                    == pre.products[i].merchant.authority;
            assert(post.merchants[w].authority == post.products[i].merchant.authority);
        }
        assert(post.wf());
    }
}

/// `create_subscription_product` preserves the system invariant.
pub proof fn lemma_create_product_preserves_wf(
    pre: SystemView,
    merchant: MerchantAddress,
    authority: AccountId,
    name: Seq<u8>,
    description: Seq<u8>,
    price: u64,
    duration_days: u32,
    token_mint: AccountId,
)
    requires
        pre.wf(),
        pre.products.len() + 1 <= u64::MAX,
    ensures
        create_subscription_product_next(
            pre,
            merchant,
            authority,
            name,
            description,
            price,
            duration_days,
            token_mint,
        ).0.wf(),
{
    let step = create_subscription_product_next(
        pre,
        merchant,
        authority,
        name,
        description,
        price,
        duration_days,
        token_mint,
    );
    let post = step.0;
    if step.1 is Ok {
        let a = ProductAddressView { merchant, name };
        let mi = merchant_index(pre.merchants, merchant.authority);
        assert(0 <= mi < pre.merchants.len() && pre.merchants[mi].authority == merchant.authority);
        let p0 = SubscriptionProductView {
            merchant,
            name,
            description,
            price,
            duration_days,
            token_mint,
            total_subscribers: 0,
            is_active: true,
        };
        assert(p0.address() =~= a);

        // Merchant addresses are untouched, position by position.
        assert forall|i: int| 0 <= i < post.merchants.len() implies (#[trigger] post.merchants[i]).authority
            == pre.merchants[i].authority && post.merchants[i].name == pre.merchants[i].name by {}
        assert(merchant_addrs_unique(post.merchants));

        // The new product's address is fresh, so product addresses stay unique.
        assert forall|i: int| 0 <= i < pre.products.len() implies !crate::model::product_has_address(
            #[trigger] pre.products[i],
            a,
        ) by {
            if crate::model::product_has_address(pre.products[i], a) {
                assert(has_product(pre.products, a));
            }
        }
        assert(product_addrs_unique(post.products));

        // Per-merchant product counts.
        assert forall|i: int| 0 <= i < post.merchants.len() implies #[trigger] post.merchants[i].total_products
            == crate::model::count_products_of(
            post.products,
            MerchantAddress { authority: post.merchants[i].authority },
        ) by {
            let ma = MerchantAddress { authority: post.merchants[i].authority };
            lemma_count_products_push(pre.products, ma, p0);
            if i == mi {
                lemma_count_products_le_len(pre.products, ma);
                assert(ma =~= merchant);
            } else {
                assert(pre.merchants[i].authority != merchant.authority);
                assert(ma != merchant);
            }
        }

        // Per-product subscriber counts: the new product has none on record.
        assert forall|si: int| 0 <= si < pre.subscriptions.len() implies (#[trigger] pre.subscriptions[si]).product
            != p0.address() by {
            if pre.subscriptions[si].product == p0.address() {
                assert(has_product(pre.products, pre.subscriptions[si].product));
                let w = choose|k: int|
                    0 <= k < pre.products.len() && crate::model::product_has_address(
                        pre.products[k],
                        pre.subscriptions[si].product,
                    );
                assert(crate::model::product_has_address(pre.products[w], a));
                assert(has_product(pre.products, a));
            }
        }
        lemma_count_subscribers_zero(pre.subscriptions, p0.address());
        assert forall|k: int| 0 <= k < post.products.len() implies #[trigger] post.products[k].total_subscribers
            == crate::model::count_subscribers_of(post.subscriptions, post.products[k].address()) by {
            if k < pre.products.len() {
                assert(post.products[k] == pre.products[k]);
                assert(post.products[k].address() =~= pre.products[k].address());
            } else {
                assert(post.products[k] == p0);
            }
        }

        // Every reference still resolves.
        assert forall|i: int| 0 <= i < post.products.len() implies has_merchant(
            post.merchants,
            (#[trigger] post.products[i]).merchant.authority,
        ) by {
            if i < pre.products.len() {
                assert(has_merchant(pre.merchants, pre.products[i].merchant.authority));
                let w = choose|k: int|
                    0 <= k < pre.merchants.len() && pre.merchants[k].authority
                        == pre.products[i].merchant.authority;
                assert(post.merchants[w].authority == post.products[i].merchant.authority);
            } else {
                assert(post.merchants[mi].authority == merchant.authority);
            }
        }
        assert forall|i: int| 0 <= i < post.subscriptions.len() implies has_product(
            post.products,
            (#[trigger] post.subscriptions[i]).product,
        ) by {
            let w = product_index(pre.products, pre.subscriptions[i].product);
            assert(crate::model::product_has_address(
                post.products[w],
                post.subscriptions[i].product,
            ));
        }

        // Validity windows are untouched: lookups land on the same records.
        assert forall|i: int| 0 <= i < post.subscriptions.len() implies {
            let s = #[trigger] post.subscriptions[i];
            s.end_time == s.start_time + product_at(post.products, s.product).duration_days
                * SECONDS_PER_DAY
        } by {
            let s = pre.subscriptions[i];
            let oi = product_index(pre.products, s.product);
            assert(0 <= oi < pre.products.len() && crate::model::product_has_address(
                pre.products[oi],
                s.product,
            ));
            lemma_product_index_is(post.products, s.product, oi);
        }
        assert(post.wf());
    }
}

/// What `verify_subscription` returns: a pure read. `Ok(true)` exactly when
/// the pass is active and `now` has not passed its end time.
pub open spec fn verify_subscription_spec(
    sv: SystemView,
    subscription: SubscriptionAddressView,
    now: i64,
) -> Result<bool, ErrorCode> {
    if !has_subscription(sv.subscriptions, subscription) {
        Err(ErrorCode::NotFound)
    } else {
        let s = subscription_at(sv.subscriptions, subscription);
        Ok(s.is_active && now <= s.end_time)
    }
}

/// Whether the new pass's validity window fits the machine's time range.
pub open spec fn subscribe_window_fits(pre: SystemView, product: ProductAddressView, now: i64) -> bool {
    has_product(pre.products, product) ==> now + product_at(pre.products, product).duration_days
        as int * (SECONDS_PER_DAY as int) <= i64::MAX
}

/// Whether the merchant's revenue counter can take the product's price.
pub open spec fn subscribe_revenue_fits(pre: SystemView, product: ProductAddressView) -> bool {
    has_product(pre.products, product) && has_merchant(
        pre.merchants,
        product_at(pre.products, product).merchant.authority,
    ) ==> merchant_at(
        pre.merchants,
        product_at(pre.products, product).merchant.authority,
    ).total_revenue + product_at(pre.products, product).price <= u64::MAX
}

/// `subscribe` preserves the system invariant.
pub proof fn lemma_subscribe_preserves_wf(
    pre: SystemView,
    user: AccountId,
    product: ProductAddressView,
    user_token_account: AccountId,
    merchant_token_account: AccountId,
    now: i64,
)
    requires
        pre.wf(),
        pre.subscriptions.len() + 1 <= u64::MAX,
        subscribe_window_fits(pre, product, now),
        subscribe_revenue_fits(pre, product),
    ensures
        subscribe_next(pre, user, product, user_token_account, merchant_token_account, now).0.wf(),
{
    let step = subscribe_next(pre, user, product, user_token_account, merchant_token_account, now);
    let post = step.0;
    if step.1 is Ok {
        let addr = SubscriptionAddressView { user, product };
        let prec = product_at(pre.products, product);
        let pi = product_index(pre.products, product);
        let mi = merchant_index(pre.merchants, prec.merchant.authority);
        assert(0 <= pi < pre.products.len() && crate::model::product_has_address(
            pre.products[pi],
            product,
        ));
        assert(0 <= mi < pre.merchants.len() && pre.merchants[mi].authority
            == prec.merchant.authority);
        let sub = post.subscriptions.last();
        assert(sub.product == product);

        crate::gateway::lemma_transfer_preserves_accounts(
            pre.tokens,
            user_token_account,
            merchant_token_account,
            user,
            prec.price,
        );

        // Addresses stay pairwise distinct.
        assert forall|i: int| 0 <= i < post.merchants.len() implies (#[trigger] post.merchants[i]).authority
            == pre.merchants[i].authority && post.merchants[i].name == pre.merchants[i].name
            && post.merchants[i].total_products == pre.merchants[i].total_products by {}
        assert(merchant_addrs_unique(post.merchants));
        assert forall|i: int| 0 <= i < post.products.len() implies (#[trigger] post.products[i]).merchant
            == pre.products[i].merchant && post.products[i].name == pre.products[i].name
            && post.products[i].duration_days == pre.products[i].duration_days
            && post.products[i].address() == pre.products[i].address() by {
            assert(post.products[i].address() =~= pre.products[i].address());
        }
        assert(product_addrs_unique(post.products));
        assert forall|i: int| 0 <= i < pre.subscriptions.len() implies !(
        (#[trigger] pre.subscriptions[i]).user == user && pre.subscriptions[i].product
            == product) by {
            if pre.subscriptions[i].user == user && pre.subscriptions[i].product == product {
                assert(crate::model::subscription_has_address(pre.subscriptions[i], addr));
                assert(has_subscription(pre.subscriptions, addr));
            }
        }
        assert(subscription_addrs_unique(post.subscriptions));

        // Platform counters.
        assert(post.platform.unwrap().total_merchants == post.merchants.len());
        assert(post.platform.unwrap().total_subscriptions == post.subscriptions.len());

        // Per-merchant product counts survive a change that keeps every
        // product's merchant.
        assert forall|i: int| 0 <= i < post.merchants.len() implies #[trigger] post.merchants[i].total_products
            == crate::model::count_products_of(
            post.products,
            MerchantAddress { authority: post.merchants[i].authority },
        ) by {
            let ma = MerchantAddress { authority: post.merchants[i].authority };
            lemma_count_products_pointwise(pre.products, post.products, ma);
        }

        // Per-product subscriber counts: the bought product gains one,
        // every other product none.
        assert forall|k: int| 0 <= k < post.products.len() implies #[trigger] post.products[k].total_subscribers
            == crate::model::count_subscribers_of(post.subscriptions, post.products[k].address()) by {
            let ka = pre.products[k].address();
            lemma_count_subscribers_push(pre.subscriptions, ka, sub);
            if k == pi {
                assert(ka =~= product);
                lemma_count_subscribers_le_len(pre.subscriptions, ka);
            } else {
                if sub.product == ka {
                    assert(crate::model::product_has_address(pre.products[k], product));
                    if k < pi {
                        assert(!crate::model::product_has_address(
                            pre.products[k],
                            pre.products[pi].address(),
                        ));
                        assert(pre.products[pi].address() =~= product);
                    } else {
                        assert(!crate::model::product_has_address(
                            pre.products[pi],
                            pre.products[k].address(),
                        ));
                    }
                    assert(false);
                }
            }
        }

        // Every reference still resolves.
        assert forall|i: int| 0 <= i < post.products.len() implies has_merchant(
            post.merchants,
            (#[trigger] post.products[i]).merchant.authority,
        ) by {
            assert(has_merchant(pre.merchants, pre.products[i].merchant.authority));
            let w = choose|k: int|
                0 <= k < pre.merchants.len() && pre.merchants[k].authority
                    == pre.products[i].merchant.authority;
            assert(post.merchants[w].authority == post.products[i].merchant.authority);
        }
        assert forall|i: int| 0 <= i < post.subscriptions.len() implies has_product(
            post.products,
            (#[trigger] post.subscriptions[i]).product,
        ) && post.subscriptions[i].merchant == post.subscriptions[i].product.merchant by {
            if i < pre.subscriptions.len() {
                let w = product_index(pre.products, pre.subscriptions[i].product);
                assert(crate::model::product_has_address(
                    post.products[w],
                    post.subscriptions[i].product,
                ));
            } else {
                assert(crate::model::product_has_address(post.products[pi], product));
                assert(sub.merchant == prec.merchant);
                assert(prec.merchant == product.merchant);
            }
        }

        // Validity windows: the old passes keep their products' durations,
        // the new pass is built to fit.
        assert forall|i: int| 0 <= i < post.subscriptions.len() implies {
            let s = #[trigger] post.subscriptions[i];
            s.end_time == s.start_time + product_at(post.products, s.product).duration_days
                * SECONDS_PER_DAY
        } by {
            if i < pre.subscriptions.len() {
                let s = pre.subscriptions[i];
                let oi = product_index(pre.products, s.product);
                assert(0 <= oi < pre.products.len() && crate::model::product_has_address(
                    pre.products[oi],
                    s.product,
                ));
                assert(crate::model::product_has_address(post.products[oi], s.product));
                lemma_product_index_is(post.products, s.product, oi);
            } else {
                lemma_product_index_is(post.products, product, pi);
                assert(product_at(post.products, product).duration_days == prec.duration_days);
            }
        }

        // Stored records still pass validation.
        assert(zero_proof_hash().len() == PROOF_HASH_LEN);
        assert(post.wf());
    }
}

/// What `update_zk_proof` does: requires the caller to be the pass's owning
/// user, then overwrites the proof artifact and nothing else.
pub open spec fn update_zk_proof_next(
    pre: SystemView,
    user: AccountId,
    subscription: SubscriptionAddressView,
    proof_hash: Seq<u8>,
) -> (SystemView, Result<(), ErrorCode>) {
    if !has_subscription(pre.subscriptions, subscription) {
        (pre, Err(ErrorCode::NotFound))
    } else if subscription_at(pre.subscriptions, subscription).user != user {
        (pre, Err(ErrorCode::Unauthorized))
    } else {
        let si = subscription_index(pre.subscriptions, subscription);
        let s = pre.subscriptions[si];
        (
            SystemView {
                subscriptions: pre.subscriptions.update(
                    si,
                    SubscriptionView { proof_hash, ..s },
                ),
                ..pre
            },
            Ok(()),
        )
    }
}

/// What `cancel_subscription` does: requires the caller to be the pass's
/// owning user, then flags the pass inactive, irreversibly.
pub open spec fn cancel_subscription_next(
    pre: SystemView,
    user: AccountId,
    subscription: SubscriptionAddressView,
) -> (SystemView, Result<(), ErrorCode>) {
    if !has_subscription(pre.subscriptions, subscription) {
        (pre, Err(ErrorCode::NotFound))
    } else if subscription_at(pre.subscriptions, subscription).user != user {
        (pre, Err(ErrorCode::Unauthorized))
    } else {
        let si = subscription_index(pre.subscriptions, subscription);
        let s = pre.subscriptions[si];
        (
            SystemView {
                subscriptions: pre.subscriptions.update(
                    si,
                    SubscriptionView { is_active: false, ..s },
                ),
                ..pre
            },
            Ok(()),
        )
    }
}

/// Replacing one pass with one that keeps its address, merchant, window and
/// a well-sized proof artifact preserves the system invariant.
proof fn lemma_subscription_update_preserves_wf(pre: SystemView, si: int, s2: SubscriptionView)
    requires
        pre.wf(),
        0 <= si < pre.subscriptions.len(),
        s2.user == pre.subscriptions[si].user,
        s2.product == pre.subscriptions[si].product,
        s2.merchant == pre.subscriptions[si].merchant,
        s2.start_time == pre.subscriptions[si].start_time,
        s2.end_time == pre.subscriptions[si].end_time,
        s2.proof_hash.len() == PROOF_HASH_LEN,
    ensures
        (SystemView { subscriptions: pre.subscriptions.update(si, s2), ..pre }).wf(),
{
    let post = SystemView { subscriptions: pre.subscriptions.update(si, s2), ..pre };
    assert forall|i: int| 0 <= i < post.subscriptions.len() implies (#[trigger] post.subscriptions[i]).user
        == pre.subscriptions[i].user && post.subscriptions[i].product
        == pre.subscriptions[i].product && post.subscriptions[i].merchant
        == pre.subscriptions[i].merchant && post.subscriptions[i].start_time
        == pre.subscriptions[i].start_time && post.subscriptions[i].end_time
        == pre.subscriptions[i].end_time && post.subscriptions[i].proof_hash.len()
        == PROOF_HASH_LEN by {}
    assert(subscription_addrs_unique(post.subscriptions));
    assert forall|k: int| 0 <= k < post.products.len() implies #[trigger] post.products[k].total_subscribers
        == crate::model::count_subscribers_of(post.subscriptions, post.products[k].address()) by {
        lemma_count_subscribers_pointwise(
            pre.subscriptions,
            post.subscriptions,
            post.products[k].address(),
        );
    }
    assert(post.wf());
}

/// `update_zk_proof` preserves the system invariant.
pub proof fn lemma_update_zk_proof_preserves_wf(
    pre: SystemView,
    user: AccountId,
    subscription: SubscriptionAddressView,
    proof_hash: Seq<u8>,
)
    requires
        pre.wf(),
        proof_hash.len() == PROOF_HASH_LEN,
    ensures
        update_zk_proof_next(pre, user, subscription, proof_hash).0.wf(),
{
    let step = update_zk_proof_next(pre, user, subscription, proof_hash);
    if step.1 is Ok {
        let si = subscription_index(pre.subscriptions, subscription);
        let s = pre.subscriptions[si];
        lemma_subscription_update_preserves_wf(pre, si, SubscriptionView { proof_hash, ..s });
    }
}

/// `cancel_subscription` preserves the system invariant.
pub proof fn lemma_cancel_subscription_preserves_wf(
    pre: SystemView,
    user: AccountId,
    subscription: SubscriptionAddressView,
)
    requires
        pre.wf(),
    ensures
        cancel_subscription_next(pre, user, subscription).0.wf(),
{
    let step = cancel_subscription_next(pre, user, subscription);
    if step.1 is Ok {
        let si = subscription_index(pre.subscriptions, subscription);
        let s = pre.subscriptions[si];
        lemma_subscription_update_preserves_wf(pre, si, SubscriptionView { is_active: false, ..s });
    }
}

} // verus!
