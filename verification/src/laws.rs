//! The laws of the system, stated and proved once for all states.
//!
//! Each proof function here is a public statement about the transitions of
//! [`crate::transitions`]: what a successful creation counts, what a failed
//! purchase leaves behind, what an unauthorized caller cannot touch. The
//! executable handlers are proved to implement those transitions, so each
//! law holds of the handlers as run.

use crate::addresses::{ProductAddressView, SubscriptionAddressView};
use crate::entities::{SECONDS_PER_DAY, MAX_NAME_LEN};
use crate::errors::ErrorCode;
use crate::gateway::transfer_next;
use crate::ids::AccountId;
use crate::model::{
    SystemView, has_merchant, merchant_at, has_product, product_at, has_subscription,
    subscription_at, subscription_index, lemma_subscription_index_is,
};
use crate::transitions::{
    create_merchant_next, subscribe_next, verify_subscription_spec, update_zk_proof_next,
    cancel_subscription_next, lemma_cancel_subscription_preserves_wf,
};
use vstd::prelude::*;

verus! {

/// Merchant addresses derive from the authority alone, so a well-formed
/// system holds at most one merchant per authority: any two record
/// positions with the same authority are the same position.
pub proof fn lemma_one_merchant_per_authority(s: SystemView, i: int, j: int)
    requires
        s.wf(),
        0 <= i < s.merchants.len(),
        0 <= j < s.merchants.len(),
        s.merchants[i].authority == s.merchants[j].authority,
    ensures
        i == j,
{
    if i < j {
        assert(s.merchants[i].authority != s.merchants[j].authority);
    } else if j < i {
        assert(s.merchants[j].authority != s.merchants[i].authority);
    }
}

/// A valid merchant creation raises the platform's merchant total by
/// exactly one and puts a merchant on record at the address derived from
/// its authority.
pub proof fn lemma_merchant_creation_counts(pre: SystemView, authority: AccountId, name: Seq<u8>)
    requires
        pre.wf(),
        create_merchant_next(pre, authority, name).1 == Ok::<(), ErrorCode>(()),
        pre.merchants.len() + 1 <= u64::MAX,
    ensures
        create_merchant_next(pre, authority, name).0.platform.unwrap().total_merchants
            == pre.platform.unwrap().total_merchants + 1,
        has_merchant(create_merchant_next(pre, authority, name).0.merchants, authority),
{
    let post = create_merchant_next(pre, authority, name).0;
    assert(post.merchants[pre.merchants.len() as int].authority == authority);
}

/// Re-deriving from the same authority yields the same address: after a
/// successful creation, a second `create_merchant` with that authority
/// fails `AlreadyExists`, whatever valid name it offers.
pub proof fn lemma_merchant_recreation_fails(
    pre: SystemView,
    authority: AccountId,
    name: Seq<u8>,
    second_name: Seq<u8>,
)
    requires
        pre.wf(),
        create_merchant_next(pre, authority, name).1 == Ok::<(), ErrorCode>(()),
        second_name.len() <= MAX_NAME_LEN,
    ensures
        create_merchant_next(create_merchant_next(pre, authority, name).0, authority, second_name).1
            == Err::<(), ErrorCode>(ErrorCode::AlreadyExists),
        create_merchant_next(create_merchant_next(pre, authority, name).0, authority, second_name).0
            == create_merchant_next(pre, authority, name).0,
{
    let post = create_merchant_next(pre, authority, name).0;
    assert(post.merchants[pre.merchants.len() as int].authority == authority);
    assert(has_merchant(post.merchants, authority));
}

/// Every pass's validity window is exactly its product's duration:
/// `end_time - start_time == duration_days * 86400`, in every well-formed
/// state.
pub proof fn lemma_subscription_window(s: SystemView, i: int)
    requires
        s.wf(),
        0 <= i < s.subscriptions.len(),
    ensures
        s.subscriptions[i].end_time - s.subscriptions[i].start_time == product_at(
            s.products,
            s.subscriptions[i].product,
        ).duration_days * SECONDS_PER_DAY,
{
}

/// Verification is exactly the conjunction of the pass's active flag and
/// the clock reading not having passed its end time; a missing pass is the
/// only failure.
pub proof fn lemma_verify_is_active_and_in_window(
    sv: SystemView,
    subscription: SubscriptionAddressView,
    now: i64,
)
    requires
        has_subscription(sv.subscriptions, subscription),
    ensures
        verify_subscription_spec(sv, subscription, now) == Ok::<bool, ErrorCode>(
            subscription_at(sv.subscriptions, subscription).is_active && now <= subscription_at(
                sv.subscriptions,
                subscription,
            ).end_time,
        ),
{
}

/// A successful purchase updates each counter exactly once: the platform's
/// subscription total, the product's subscriber total and the merchant's
/// revenue each rise by exactly their amount, and the pass goes on record
/// with the window the product's duration gives.
pub proof fn lemma_subscribe_updates_counters(
    pre: SystemView,
    user: AccountId,
    product: ProductAddressView,
    user_token_account: AccountId,
    merchant_token_account: AccountId,
    now: i64,
)
    requires
        pre.wf(),
        subscribe_next(pre, user, product, user_token_account, merchant_token_account, now).1
            == Ok::<(), ErrorCode>(()),
        pre.subscriptions.len() + 1 <= u64::MAX,
        crate::transitions::subscribe_revenue_fits(pre, product),
        crate::transitions::subscribe_window_fits(pre, product, now),
    ensures
        ({
            let post = subscribe_next(
                pre,
                user,
                product,
                user_token_account,
                merchant_token_account,
                now,
            ).0;
            let prec = product_at(pre.products, product);
            &&& post.platform.unwrap().total_subscriptions == pre.platform.unwrap().total_subscriptions + 1
            &&& has_product(post.products, product)
            &&& product_at(post.products, product).total_subscribers == prec.total_subscribers + 1
            &&& merchant_at(post.merchants, prec.merchant.authority).total_revenue == merchant_at(
                pre.merchants,
                prec.merchant.authority,
            ).total_revenue + prec.price
            &&& has_subscription(post.subscriptions, SubscriptionAddressView { user, product })
            &&& subscription_at(
                post.subscriptions,
                SubscriptionAddressView { user, product },
            ).end_time == now + prec.duration_days * SECONDS_PER_DAY
        }),
{
    let post = subscribe_next(pre, user, product, user_token_account, merchant_token_account, now).0;
    let prec = product_at(pre.products, product);
    let pi = crate::model::product_index(pre.products, product);
    let mi = crate::model::merchant_index(pre.merchants, prec.merchant.authority);
    crate::transitions::lemma_subscribe_preserves_wf(
        pre,
        user,
        product,
        user_token_account,
        merchant_token_account,
        now,
    );
    assert(crate::model::product_has_address(post.products[pi], product));
    crate::model::lemma_product_index_is(post.products, product, pi);
    crate::model::lemma_merchant_index_is(post.merchants, prec.merchant.authority, mi);
    let addr = SubscriptionAddressView { user, product };
    let si = pre.subscriptions.len() as int;
    assert(crate::model::subscription_has_address(post.subscriptions[si], addr));
    lemma_subscription_index_is(post.subscriptions, addr, si);
    crate::model::lemma_count_subscribers_le_len(pre.subscriptions, prec.address());
}

/// A proof update touches nothing but the proof artifact: the pass keeps
/// its owner, product, merchant, window and active flag, every other
/// record keeps its value, and the new artifact is stored as given.
pub proof fn lemma_update_proof_touches_only_proof(
    pre: SystemView,
    user: AccountId,
    subscription: SubscriptionAddressView,
    proof_hash: Seq<u8>,
)
    requires
        pre.wf(),
        proof_hash.len() == crate::entities::PROOF_HASH_LEN,
        update_zk_proof_next(pre, user, subscription, proof_hash).1 == Ok::<(), ErrorCode>(()),
    ensures
        ({
            let post = update_zk_proof_next(pre, user, subscription, proof_hash).0;
            let s0 = subscription_at(pre.subscriptions, subscription);
            let s1 = subscription_at(post.subscriptions, subscription);
            &&& post.platform == pre.platform
            &&& post.merchants == pre.merchants
            &&& post.products == pre.products
            &&& post.tokens == pre.tokens
            &&& s1.proof_hash == proof_hash
            &&& s1.user == s0.user
            &&& s1.product == s0.product
            &&& s1.merchant == s0.merchant
            &&& s1.start_time == s0.start_time
            &&& s1.end_time == s0.end_time
            &&& s1.is_active == s0.is_active
            &&& forall|i: int|
                0 <= i < pre.subscriptions.len() && i != subscription_index(
                    pre.subscriptions,
                    subscription,
                ) ==> post.subscriptions[i] == pre.subscriptions[i]
        }),
{
    let post = update_zk_proof_next(pre, user, subscription, proof_hash).0;
    let si = subscription_index(pre.subscriptions, subscription);
    assert(crate::model::subscription_has_address(post.subscriptions[si], subscription));
    crate::transitions::lemma_update_zk_proof_preserves_wf(pre, user, subscription, proof_hash);
    lemma_subscription_index_is(post.subscriptions, subscription, si);
}

/// A cancelled pass verifies false at once, whatever the clock says: even
/// a `now` far before the pass's end time is refused.
pub proof fn lemma_verify_after_cancel(
    pre: SystemView,
    user: AccountId,
    subscription: SubscriptionAddressView,
    now: i64,
)
    requires
        pre.wf(),
        cancel_subscription_next(pre, user, subscription).1 == Ok::<(), ErrorCode>(()),
    ensures
        verify_subscription_spec(
            cancel_subscription_next(pre, user, subscription).0,
            subscription,
            now,
        ) == Ok::<bool, ErrorCode>(false),
{
    let post = cancel_subscription_next(pre, user, subscription).0;
    lemma_cancel_subscription_preserves_wf(pre, user, subscription);
    let si = subscription_index(pre.subscriptions, subscription);
    assert(crate::model::subscription_has_address(post.subscriptions[si], subscription));
    lemma_subscription_index_is(post.subscriptions, subscription, si);
    assert(!subscription_at(post.subscriptions, subscription).is_active);
}

/// A purchase against an inactive product fails `ProductInactive` and
/// mutates nothing: no counter moves, no pass appears, no funds move.
pub proof fn lemma_subscribe_inactive_unchanged(
    pre: SystemView,
    user: AccountId,
    product: ProductAddressView,
    user_token_account: AccountId,
    merchant_token_account: AccountId,
    now: i64,
)
    requires
        pre.wf(),
        pre.platform is Some,
        has_product(pre.products, product),
        !has_subscription(pre.subscriptions, SubscriptionAddressView { user, product }),
        !product_at(pre.products, product).is_active,
    ensures
        subscribe_next(pre, user, product, user_token_account, merchant_token_account, now).0
            == pre,
        subscribe_next(pre, user, product, user_token_account, merchant_token_account, now).1
            == Err::<(), ErrorCode>(ErrorCode::ProductInactive),
{
}

/// A purchase whose payment transfer fails leaves the whole system as it
/// was — no subscriber count, no revenue, no subscription total, no pass —
/// and reports the transfer's own error.
pub proof fn lemma_subscribe_transfer_failure_unchanged(
    pre: SystemView,
    user: AccountId,
    product: ProductAddressView,
    user_token_account: AccountId,
    merchant_token_account: AccountId,
    now: i64,
    e: ErrorCode,
)
    requires
        pre.wf(),
        pre.platform is Some,
        has_product(pre.products, product),
        !has_subscription(pre.subscriptions, SubscriptionAddressView { user, product }),
        product_at(pre.products, product).is_active,
        transfer_next(
            pre.tokens,
            user_token_account,
            merchant_token_account,
            user,
            product_at(pre.products, product).price,
        ).1 == Err::<(), ErrorCode>(e),
    ensures
        subscribe_next(pre, user, product, user_token_account, merchant_token_account, now).0
            == pre,
        subscribe_next(pre, user, product, user_token_account, merchant_token_account, now).1
            == Err::<(), ErrorCode>(e),
{
}

/// A proof update by anyone but the pass's owning user fails
/// `Unauthorized` and leaves every record — the proof artifact included —
/// unchanged.
pub proof fn lemma_update_proof_unauthorized_unchanged(
    pre: SystemView,
    caller: AccountId,
    subscription: SubscriptionAddressView,
    proof_hash: Seq<u8>,
)
    requires
        pre.wf(),
        has_subscription(pre.subscriptions, subscription),
        subscription_at(pre.subscriptions, subscription).user != caller,
    ensures
        update_zk_proof_next(pre, caller, subscription, proof_hash).0 == pre,
        update_zk_proof_next(pre, caller, subscription, proof_hash).1 == Err::<(), ErrorCode>(
            ErrorCode::Unauthorized,
        ),
{
}

} // verus!
