use hiddenpay::addresses::{
    derive_merchant_address, derive_product_address, derive_subscription_address,
};
use hiddenpay::errors::ErrorCode;
use hiddenpay::handlers::{
    CancelSubscription, CreateMerchant, CreateSubscriptionProduct, Initialize, Subscribe,
    UpdateZKProof, VerifySubscription,
};
use hiddenpay::ids::AccountId;
use hiddenpay::system::System;

const ADMIN: u64 = 1;
const ACME: u64 = 2;
const USER: u64 = 3;
const MINT: u64 = 99;
const USER_TOKENS: u64 = 10;
const ACME_TOKENS: u64 = 11;
const NOW: i64 = 1_700_000_000;

/// A system with a platform, the merchant "Acme", the product "Pro"
/// (price 1000, 30 days), and funded token accounts for one user.
fn setup(user_balance: u64) -> System {
    let mut sys = System::new();
    assert_eq!(sys.initialize(Initialize { authority: AccountId::new(ADMIN) }), Ok(()));
    assert_eq!(
        sys.create_merchant(CreateMerchant { authority: AccountId::new(ACME) }, b"Acme".to_vec()),
        Ok(())
    );
    let merchant = derive_merchant_address(AccountId::new(ACME));
    assert_eq!(
        sys.create_subscription_product(
            CreateSubscriptionProduct { merchant, authority: AccountId::new(ACME) },
            b"Pro".to_vec(),
            b"Monthly pro plan".to_vec(),
            1000,
            30,
            AccountId::new(MINT),
        ),
        Ok(())
    );
    assert_eq!(
        sys.open_token_account(AccountId::new(USER_TOKENS), AccountId::new(USER), user_balance),
        Ok(())
    );
    assert_eq!(
        sys.open_token_account(AccountId::new(ACME_TOKENS), AccountId::new(ACME), 0),
        Ok(())
    );
    sys
}

fn pro_subscribe_ctx() -> Subscribe {
    let merchant = derive_merchant_address(AccountId::new(ACME));
    Subscribe {
        user: AccountId::new(USER),
        product: derive_product_address(merchant, b"Pro".to_vec()),
        user_token_account: AccountId::new(USER_TOKENS),
        merchant_token_account: AccountId::new(ACME_TOKENS),
    }
}

#[test]
fn full_subscription_scenario() {
    let mut sys = setup(5000);
    assert_eq!(sys.subscribe(pro_subscribe_ctx(), NOW), Ok(()));

    let merchant = derive_merchant_address(AccountId::new(ACME));
    let product = derive_product_address(merchant, b"Pro".to_vec());
    let pass = derive_subscription_address(AccountId::new(USER), product);
    let sub = sys.read_subscription(&pass).unwrap();
    assert_eq!(sub.end_time, NOW + 2_592_000);
    assert_eq!(sub.start_time, NOW);
    assert!(sub.is_active);
    assert_eq!(sub.proof_hash, [0u8; 32]);

    assert_eq!(sys.read_merchant(AccountId::new(ACME)).unwrap().total_revenue, 1000);
    let product_record = sys.read_product(&derive_product_address(merchant, b"Pro".to_vec())).unwrap();
    assert_eq!(product_record.total_subscribers, 1);
    assert_eq!(product_record.price, 1000);
    assert!(product_record.is_active);
    assert_eq!(sys.get_platform().unwrap().total_subscriptions, 1);
    assert_eq!(sys.tokens.balance_of(AccountId::new(USER_TOKENS)), Some(4000));
    assert_eq!(sys.tokens.balance_of(AccountId::new(ACME_TOKENS)), Some(1000));

    assert_eq!(
        sys.cancel_subscription(CancelSubscription {
            subscription: pass.clone(),
            user: AccountId::new(USER),
        }),
        Ok(())
    );
    assert_eq!(
        sys.verify_subscription(VerifySubscription { subscription: pass }, NOW),
        Ok(false)
    );
}

#[test]
fn initialize_twice_fails() {
    let mut sys = System::new();
    assert_eq!(sys.initialize(Initialize { authority: AccountId::new(ADMIN) }), Ok(()));
    assert_eq!(
        sys.initialize(Initialize { authority: AccountId::new(USER) }),
        Err(ErrorCode::AlreadyExists)
    );
    assert_eq!(sys.get_platform().unwrap().authority, AccountId::new(ADMIN));
}

#[test]
fn create_merchant_needs_platform() {
    let mut sys = System::new();
    assert_eq!(
        sys.create_merchant(CreateMerchant { authority: AccountId::new(ACME) }, b"Acme".to_vec()),
        Err(ErrorCode::NotFound)
    );
}

#[test]
fn merchant_counter_and_duplicate() {
    let mut sys = System::new();
    sys.initialize(Initialize { authority: AccountId::new(ADMIN) }).unwrap();
    assert_eq!(sys.get_platform().unwrap().total_merchants, 0);
    sys.create_merchant(CreateMerchant { authority: AccountId::new(ACME) }, b"Acme".to_vec())
        .unwrap();
    assert_eq!(sys.get_platform().unwrap().total_merchants, 1);
    // The address re-derives from the same authority, so a second creation
    // collides, whatever name it offers.
    assert_eq!(
        sys.create_merchant(CreateMerchant { authority: AccountId::new(ACME) }, b"Other".to_vec()),
        Err(ErrorCode::AlreadyExists)
    );
    assert_eq!(sys.get_platform().unwrap().total_merchants, 1);
    assert_eq!(sys.read_merchant(AccountId::new(ACME)).unwrap().name, b"Acme".to_vec());
}

#[test]
fn merchant_name_length_limit() {
    let mut sys = System::new();
    sys.initialize(Initialize { authority: AccountId::new(ADMIN) }).unwrap();
    assert_eq!(
        sys.create_merchant(CreateMerchant { authority: AccountId::new(ACME) }, vec![b'x'; 51]),
        Err(ErrorCode::NameTooLong)
    );
    assert_eq!(
        sys.create_merchant(CreateMerchant { authority: AccountId::new(ACME) }, vec![b'x'; 50]),
        Ok(())
    );
    // An empty name is within the limit.
    assert_eq!(
        sys.create_merchant(CreateMerchant { authority: AccountId::new(USER) }, Vec::new()),
        Ok(())
    );
    assert_eq!(sys.get_platform().unwrap().total_merchants, 2);
}

#[test]
fn product_validation_errors() {
    let mut sys = setup(0);
    let merchant = derive_merchant_address(AccountId::new(ACME));
    let ctx = CreateSubscriptionProduct { merchant, authority: AccountId::new(ACME) };
    let mint = AccountId::new(MINT);
    assert_eq!(
        sys.create_subscription_product(ctx, vec![b'x'; 51], b"d".to_vec(), 1, 1, mint),
        Err(ErrorCode::NameTooLong)
    );
    assert_eq!(
        sys.create_subscription_product(ctx, b"a".to_vec(), vec![b'x'; 201], 1, 1, mint),
        Err(ErrorCode::DescriptionTooLong)
    );
    assert_eq!(
        sys.create_subscription_product(ctx, b"a".to_vec(), b"d".to_vec(), 0, 1, mint),
        Err(ErrorCode::InvalidPrice)
    );
    assert_eq!(
        sys.create_subscription_product(ctx, b"a".to_vec(), b"d".to_vec(), 1, 0, mint),
        Err(ErrorCode::InvalidDuration)
    );
    // The merchant's record is untouched by the rejected attempts.
    assert_eq!(sys.read_merchant(AccountId::new(ACME)).unwrap().total_products, 1);
    // A description of exactly 200 bytes is within the limit.
    assert_eq!(
        sys.create_subscription_product(ctx, b"a".to_vec(), vec![b'x'; 200], 1, 1, mint),
        Ok(())
    );
    assert_eq!(sys.read_merchant(AccountId::new(ACME)).unwrap().total_products, 2);
}

#[test]
fn product_requires_owning_authority() {
    let mut sys = setup(0);
    let merchant = derive_merchant_address(AccountId::new(ACME));
    assert_eq!(
        sys.create_subscription_product(
            CreateSubscriptionProduct { merchant, authority: AccountId::new(USER) },
            b"Fake".to_vec(),
            b"d".to_vec(),
            1,
            1,
            AccountId::new(MINT),
        ),
        Err(ErrorCode::Unauthorized)
    );
    assert_eq!(sys.read_merchant(AccountId::new(ACME)).unwrap().total_products, 1);
}

#[test]
fn product_duplicate_and_counter() {
    let mut sys = setup(0);
    let merchant = derive_merchant_address(AccountId::new(ACME));
    let ctx = CreateSubscriptionProduct { merchant, authority: AccountId::new(ACME) };
    let mint = AccountId::new(MINT);
    assert_eq!(
        sys.create_subscription_product(ctx, b"Pro".to_vec(), b"again".to_vec(), 5, 5, mint),
        Err(ErrorCode::AlreadyExists)
    );
    assert_eq!(sys.read_merchant(AccountId::new(ACME)).unwrap().total_products, 1);
    assert_eq!(
        sys.create_subscription_product(ctx, b"Basic".to_vec(), b"d".to_vec(), 5, 5, mint),
        Ok(())
    );
    assert_eq!(sys.read_merchant(AccountId::new(ACME)).unwrap().total_products, 2);
}

#[test]
fn subscribe_unknown_product_fails() {
    let mut sys = setup(5000);
    let merchant = derive_merchant_address(AccountId::new(ACME));
    let ctx = Subscribe {
        user: AccountId::new(USER),
        product: derive_product_address(merchant, b"Nope".to_vec()),
        user_token_account: AccountId::new(USER_TOKENS),
        merchant_token_account: AccountId::new(ACME_TOKENS),
    };
    assert_eq!(sys.subscribe(ctx, NOW), Err(ErrorCode::NotFound));
}

#[test]
fn subscribe_twice_fails() {
    let mut sys = setup(5000);
    assert_eq!(sys.subscribe(pro_subscribe_ctx(), NOW), Ok(()));
    assert_eq!(sys.subscribe(pro_subscribe_ctx(), NOW + 5), Err(ErrorCode::AlreadyExists));
    assert_eq!(sys.get_platform().unwrap().total_subscriptions, 1);
    assert_eq!(sys.tokens.balance_of(AccountId::new(USER_TOKENS)), Some(4000));
}

#[test]
fn subscribe_inactive_product_mutates_nothing() {
    let mut sys = setup(5000);
    sys.products[0].is_active = false;
    assert_eq!(sys.subscribe(pro_subscribe_ctx(), NOW), Err(ErrorCode::ProductInactive));
    assert_eq!(sys.products[0].total_subscribers, 0);
    assert_eq!(sys.read_merchant(AccountId::new(ACME)).unwrap().total_revenue, 0);
    assert_eq!(sys.get_platform().unwrap().total_subscriptions, 0);
    assert_eq!(sys.tokens.balance_of(AccountId::new(USER_TOKENS)), Some(5000));
    let merchant = derive_merchant_address(AccountId::new(ACME));
    let product = derive_product_address(merchant, b"Pro".to_vec());
    let pass = derive_subscription_address(AccountId::new(USER), product);
    assert!(sys.read_subscription(&pass).is_none());
}

#[test]
fn subscribe_insufficient_funds_mutates_nothing() {
    let mut sys = setup(999);
    assert_eq!(sys.subscribe(pro_subscribe_ctx(), NOW), Err(ErrorCode::InsufficientFunds));
    assert_eq!(sys.products[0].total_subscribers, 0);
    assert_eq!(sys.read_merchant(AccountId::new(ACME)).unwrap().total_revenue, 0);
    assert_eq!(sys.get_platform().unwrap().total_subscriptions, 0);
    assert_eq!(sys.tokens.balance_of(AccountId::new(USER_TOKENS)), Some(999));
    assert_eq!(sys.tokens.balance_of(AccountId::new(ACME_TOKENS)), Some(0));
    let merchant = derive_merchant_address(AccountId::new(ACME));
    let product = derive_product_address(merchant, b"Pro".to_vec());
    let pass = derive_subscription_address(AccountId::new(USER), product);
    assert!(sys.read_subscription(&pass).is_none());
}

#[test]
fn subscribe_with_foreign_token_account_fails() {
    let mut sys = setup(5000);
    // A funding account the purchasing user does not own.
    sys.open_token_account(AccountId::new(77), AccountId::new(ADMIN), 9000).unwrap();
    let mut ctx = pro_subscribe_ctx();
    ctx.user_token_account = AccountId::new(77);
    assert_eq!(sys.subscribe(ctx, NOW), Err(ErrorCode::Unauthorized));
    assert_eq!(sys.tokens.balance_of(AccountId::new(77)), Some(9000));
    assert_eq!(sys.get_platform().unwrap().total_subscriptions, 0);
}

#[test]
fn verify_subscription_windows() {
    let mut sys = setup(5000);
    sys.subscribe(pro_subscribe_ctx(), NOW).unwrap();
    let merchant = derive_merchant_address(AccountId::new(ACME));
    let product = derive_product_address(merchant, b"Pro".to_vec());
    let pass = derive_subscription_address(AccountId::new(USER), product);
    let end = NOW + 2_592_000;
    let ctx = VerifySubscription { subscription: pass };
    assert_eq!(sys.verify_subscription(ctx.clone(), NOW), Ok(true));
    assert_eq!(sys.verify_subscription(ctx.clone(), end), Ok(true));
    assert_eq!(sys.verify_subscription(ctx, end + 1), Ok(false));
}

#[test]
fn verify_missing_subscription_fails() {
    let sys = setup(0);
    let merchant = derive_merchant_address(AccountId::new(ACME));
    let product = derive_product_address(merchant, b"Pro".to_vec());
    let pass = derive_subscription_address(AccountId::new(USER), product);
    assert_eq!(
        sys.verify_subscription(VerifySubscription { subscription: pass }, NOW),
        Err(ErrorCode::NotFound)
    );
}

#[test]
fn update_proof_by_owner() {
    let mut sys = setup(5000);
    sys.subscribe(pro_subscribe_ctx(), NOW).unwrap();
    let merchant = derive_merchant_address(AccountId::new(ACME));
    let product = derive_product_address(merchant, b"Pro".to_vec());
    let pass = derive_subscription_address(AccountId::new(USER), product);
    let blob = [7u8; 32];
    assert_eq!(
        sys.update_zk_proof(
            UpdateZKProof { subscription: pass.clone(), user: AccountId::new(USER) },
            blob,
        ),
        Ok(())
    );
    let sub = sys.read_subscription(&pass).unwrap();
    assert_eq!(sub.proof_hash, blob);
    // Nothing but the proof artifact moved.
    assert!(sub.is_active);
    assert_eq!(sub.start_time, NOW);
    assert_eq!(sub.end_time, NOW + 2_592_000);
    assert_eq!(sub.user, AccountId::new(USER));
    assert_eq!(sys.get_platform().unwrap().total_subscriptions, 1);
}

#[test]
fn update_proof_by_stranger_fails() {
    let mut sys = setup(5000);
    sys.subscribe(pro_subscribe_ctx(), NOW).unwrap();
    let merchant = derive_merchant_address(AccountId::new(ACME));
    let product = derive_product_address(merchant, b"Pro".to_vec());
    let pass = derive_subscription_address(AccountId::new(USER), product);
    assert_eq!(
        sys.update_zk_proof(
            UpdateZKProof { subscription: pass.clone(), user: AccountId::new(ADMIN) },
            [7u8; 32],
        ),
        Err(ErrorCode::Unauthorized)
    );
    assert_eq!(sys.read_subscription(&pass).unwrap().proof_hash, [0u8; 32]);
}

#[test]
fn cancel_by_stranger_fails() {
    let mut sys = setup(5000);
    sys.subscribe(pro_subscribe_ctx(), NOW).unwrap();
    let merchant = derive_merchant_address(AccountId::new(ACME));
    let product = derive_product_address(merchant, b"Pro".to_vec());
    let pass = derive_subscription_address(AccountId::new(USER), product);
    assert_eq!(
        sys.cancel_subscription(CancelSubscription {
            subscription: pass.clone(),
            user: AccountId::new(ADMIN),
        }),
        Err(ErrorCode::Unauthorized)
    );
    assert!(sys.read_subscription(&pass).unwrap().is_active);
}

#[test]
fn cancel_missing_subscription_fails() {
    let mut sys = setup(0);
    let merchant = derive_merchant_address(AccountId::new(ACME));
    let product = derive_product_address(merchant, b"Pro".to_vec());
    let pass = derive_subscription_address(AccountId::new(USER), product);
    assert_eq!(
        sys.cancel_subscription(CancelSubscription { subscription: pass, user: AccountId::new(USER) }),
        Err(ErrorCode::NotFound)
    );
}
