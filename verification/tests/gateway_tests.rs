use hiddenpay::addresses::{
    bytes_eq, derive_merchant_address, derive_product_address, derive_subscription_address,
    product_address_eq, subscription_address_eq,
};
use hiddenpay::errors::ErrorCode;
use hiddenpay::gateway::TokenGateway;
use hiddenpay::ids::AccountId;

#[test]
fn transfer_moves_funds() {
    let mut bank = TokenGateway::new();
    bank.create_account(AccountId::new(1), AccountId::new(10), 700).unwrap();
    bank.create_account(AccountId::new(2), AccountId::new(20), 50).unwrap();
    assert_eq!(
        bank.transfer(AccountId::new(1), AccountId::new(2), AccountId::new(10), 300),
        Ok(())
    );
    assert_eq!(bank.balance_of(AccountId::new(1)), Some(400));
    assert_eq!(bank.balance_of(AccountId::new(2)), Some(350));
}

#[test]
fn transfer_requires_owner() {
    let mut bank = TokenGateway::new();
    bank.create_account(AccountId::new(1), AccountId::new(10), 700).unwrap();
    bank.create_account(AccountId::new(2), AccountId::new(20), 0).unwrap();
    assert_eq!(
        bank.transfer(AccountId::new(1), AccountId::new(2), AccountId::new(20), 1),
        Err(ErrorCode::Unauthorized)
    );
    assert_eq!(bank.balance_of(AccountId::new(1)), Some(700));
    assert_eq!(bank.balance_of(AccountId::new(2)), Some(0));
}

#[test]
fn transfer_checks_balance() {
    let mut bank = TokenGateway::new();
    bank.create_account(AccountId::new(1), AccountId::new(10), 100).unwrap();
    bank.create_account(AccountId::new(2), AccountId::new(20), 0).unwrap();
    assert_eq!(
        bank.transfer(AccountId::new(1), AccountId::new(2), AccountId::new(10), 101),
        Err(ErrorCode::InsufficientFunds)
    );
    assert_eq!(
        bank.transfer(AccountId::new(1), AccountId::new(2), AccountId::new(10), 100),
        Ok(())
    );
    assert_eq!(bank.balance_of(AccountId::new(1)), Some(0));
}

#[test]
fn transfer_to_missing_account_fails() {
    let mut bank = TokenGateway::new();
    bank.create_account(AccountId::new(1), AccountId::new(10), 100).unwrap();
    assert_eq!(
        bank.transfer(AccountId::new(1), AccountId::new(9), AccountId::new(10), 1),
        Err(ErrorCode::NotFound)
    );
    assert_eq!(
        bank.transfer(AccountId::new(9), AccountId::new(1), AccountId::new(10), 1),
        Err(ErrorCode::NotFound)
    );
}

#[test]
fn transfer_to_self_keeps_balance() {
    let mut bank = TokenGateway::new();
    bank.create_account(AccountId::new(1), AccountId::new(10), 100).unwrap();
    assert_eq!(
        bank.transfer(AccountId::new(1), AccountId::new(1), AccountId::new(10), 60),
        Ok(())
    );
    assert_eq!(bank.balance_of(AccountId::new(1)), Some(100));
}

#[test]
fn transfer_rejects_recipient_overflow() {
    let mut bank = TokenGateway::new();
    bank.create_account(AccountId::new(1), AccountId::new(10), 100).unwrap();
    bank.create_account(AccountId::new(2), AccountId::new(20), u64::MAX - 10).unwrap();
    assert_eq!(
        bank.transfer(AccountId::new(1), AccountId::new(2), AccountId::new(10), 11),
        Err(ErrorCode::BalanceOverflow)
    );
    assert_eq!(bank.balance_of(AccountId::new(1)), Some(100));
    assert_eq!(bank.balance_of(AccountId::new(2)), Some(u64::MAX - 10));
}

#[test]
fn duplicate_token_account_fails() {
    let mut bank = TokenGateway::new();
    bank.create_account(AccountId::new(1), AccountId::new(10), 100).unwrap();
    assert_eq!(
        bank.create_account(AccountId::new(1), AccountId::new(20), 5),
        Err(ErrorCode::AlreadyExists)
    );
    assert_eq!(bank.balance_of(AccountId::new(1)), Some(100));
    assert_eq!(bank.balance_of(AccountId::new(9)), None);
}

#[test]
fn byte_string_equality() {
    assert!(bytes_eq(&b"Pro".to_vec(), &b"Pro".to_vec()));
    assert!(!bytes_eq(&b"Pro".to_vec(), &b"Pra".to_vec()));
    assert!(!bytes_eq(&b"Pro".to_vec(), &b"Proo".to_vec()));
    assert!(bytes_eq(&Vec::new(), &Vec::new()));
}

#[test]
fn derived_addresses_compare_by_inputs() {
    let m1 = derive_merchant_address(AccountId::new(2));
    let m2 = derive_merchant_address(AccountId::new(2));
    let m3 = derive_merchant_address(AccountId::new(3));
    assert_eq!(m1, m2);
    assert_ne!(m1, m3);

    let p1 = derive_product_address(m1, b"Pro".to_vec());
    let p2 = derive_product_address(m2, b"Pro".to_vec());
    let p3 = derive_product_address(m1, b"Basic".to_vec());
    let p4 = derive_product_address(m3, b"Pro".to_vec());
    assert!(product_address_eq(&p1, &p2));
    assert!(!product_address_eq(&p1, &p3));
    assert!(!product_address_eq(&p1, &p4));

    let s1 = derive_subscription_address(AccountId::new(5), p1.clone());
    let s2 = derive_subscription_address(AccountId::new(5), p2);
    let s3 = derive_subscription_address(AccountId::new(6), p1.clone());
    let s4 = derive_subscription_address(AccountId::new(5), p3);
    assert!(subscription_address_eq(&s1, &s2));
    assert!(!subscription_address_eq(&s1, &s3));
    assert!(!subscription_address_eq(&s1, &s4));
}
