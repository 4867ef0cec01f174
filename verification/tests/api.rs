use std::collections::HashSet;

use is20_token::canister::TokenCanister;
use is20_token::principal::Principal;
use is20_token::tokens::Tokens128;
use is20_token::types::Metadata;
use is20_token::types::TxError;

fn alice() -> Principal {
    Principal::Id(1)
}

fn bob() -> Principal {
    Principal::Id(2)
}

fn john() -> Principal {
    Principal::Id(3)
}

fn init_token(total_supply: u128, fee: u128, fee_to: Principal) -> TokenCanister {
    TokenCanister::init(
        Metadata {
            logo: "".to_string(),
            name: "".to_string(),
            symbol: "".to_string(),
            decimals: 8,
            total_supply: Tokens128::new(total_supply),
            owner: alice(),
            fee: Tokens128::new(fee),
            fee_to,
            is_test_token: None,
        },
        0,
    )
}

fn init_context() -> TokenCanister {
    init_token(1000, 0, alice())
}

#[test]
fn api_transfer_without_fee() {
    let mut canister = init_context();
    assert_eq!(Tokens128::new(1000), canister.balance_of(alice()));

    assert!(canister.transfer(alice(), bob(), Tokens128::new(100), None, 1).is_ok());
    assert_eq!(canister.balance_of(bob()), Tokens128::new(100));
    assert_eq!(canister.balance_of(alice()), Tokens128::new(900));
}

#[test]
fn api_transfer_with_fee() {
    let mut canister = init_token(1000, 100, john());

    assert!(canister.transfer(alice(), bob(), Tokens128::new(100), None, 1).is_ok());
    assert_eq!(canister.balance_of(bob()), Tokens128::new(100));
    assert_eq!(canister.balance_of(alice()), Tokens128::new(800));
    assert_eq!(canister.balance_of(john()), Tokens128::new(100));
}

#[test]
fn api_transfer_insufficient_balance() {
    let mut canister = init_context();
    assert_eq!(
        canister.transfer(alice(), bob(), Tokens128::new(1001), None, 1),
        Err(TxError::InsufficientBalance)
    );
    assert_eq!(canister.balance_of(alice()), Tokens128::new(1000));
    assert_eq!(canister.balance_of(bob()), Tokens128::new(0));
}

#[test]
fn api_transfer_wrong_caller() {
    // A transfer whose caller and recipient coincide is rejected as a self
    // transfer and moves nothing.
    let mut canister = init_context();
    assert_eq!(
        canister.transfer(bob(), bob(), Tokens128::new(100), None, 1),
        Err(TxError::SelfTransfer)
    );
    assert_eq!(canister.balance_of(alice()), Tokens128::new(1000));
    assert_eq!(canister.balance_of(bob()), Tokens128::new(0));
}

#[test]
fn api_mint_by_owner() {
    let mut canister = init_context();
    assert!(canister.mint(alice(), alice(), Tokens128::new(2000), 1).is_ok());
    assert!(canister.mint(alice(), bob(), Tokens128::new(5000), 2).is_ok());
    assert_eq!(canister.balance_of(alice()), Tokens128::new(3000));
    assert_eq!(canister.balance_of(bob()), Tokens128::new(5000));
    assert_eq!(canister.get_metadata().total_supply, Tokens128::new(8000));
}

#[test]
fn mint_not_by_owner() {
    let mut canister = init_context();
    assert_eq!(
        canister.mint(bob(), alice(), Tokens128::new(100), 1),
        Err(TxError::Unauthorized)
    );
}

#[test]
fn api_burn_by_owner() {
    let mut canister = init_context();
    assert!(canister.burn(alice(), None, Tokens128::new(100), 1).is_ok());
    assert_eq!(canister.balance_of(alice()), Tokens128::new(900));
    assert_eq!(canister.get_metadata().total_supply, Tokens128::new(900));
}

#[test]
fn api_burn_too_much() {
    let mut canister = init_context();
    assert_eq!(
        canister.burn(alice(), None, Tokens128::new(1001), 1),
        Err(TxError::InsufficientBalance)
    );
    assert_eq!(canister.balance_of(alice()), Tokens128::new(1000));
    assert_eq!(canister.get_metadata().total_supply, Tokens128::new(1000));
}

#[test]
fn api_burn_by_wrong_user() {
    let mut canister = init_context();
    assert_eq!(
        canister.burn(bob(), None, Tokens128::new(100), 1),
        Err(TxError::InsufficientBalance)
    );
    assert_eq!(canister.balance_of(alice()), Tokens128::new(1000));
    assert_eq!(canister.get_metadata().total_supply, Tokens128::new(1000));
}

#[test]
fn api_transfer_from_with_approve() {
    let mut canister = init_context();
    assert!(canister.approve(alice(), bob(), Tokens128::new(500), 1).is_ok());
    assert!(canister
        .transfer_from(bob(), alice(), john(), Tokens128::new(100), 2)
        .is_ok());
    assert_eq!(canister.balance_of(alice()), Tokens128::new(900));
    assert_eq!(canister.balance_of(john()), Tokens128::new(100));
    assert!(canister
        .transfer_from(bob(), alice(), john(), Tokens128::new(100), 3)
        .is_ok());
    assert_eq!(canister.balance_of(alice()), Tokens128::new(800));
    assert_eq!(canister.balance_of(john()), Tokens128::new(200));
    assert!(canister
        .transfer_from(bob(), alice(), john(), Tokens128::new(300), 4)
        .is_ok());

    assert_eq!(canister.balance_of(alice()), Tokens128::new(500));
    assert_eq!(canister.balance_of(bob()), Tokens128::new(0));
    assert_eq!(canister.balance_of(john()), Tokens128::new(500));
}

#[test]
fn api_insufficient_allowance() {
    let mut canister = init_context();
    assert!(canister.approve(alice(), bob(), Tokens128::new(500), 1).is_ok());
    assert_eq!(
        canister.transfer_from(bob(), alice(), john(), Tokens128::new(600), 2),
        Err(TxError::InsufficientAllowance)
    );
    assert_eq!(canister.balance_of(alice()), Tokens128::new(1000));
    assert_eq!(canister.balance_of(john()), Tokens128::new(0));
}

#[test]
fn api_transfer_from_without_approve() {
    let mut canister = init_context();
    assert_eq!(
        canister.transfer_from(bob(), alice(), john(), Tokens128::new(600), 1),
        Err(TxError::InsufficientAllowance)
    );
    assert_eq!(canister.balance_of(alice()), Tokens128::new(1000));
    assert_eq!(canister.balance_of(john()), Tokens128::new(0));
}

#[test]
fn api_multiple_approves() {
    let mut canister = init_context();
    assert!(canister.approve(alice(), bob(), Tokens128::new(500), 1).is_ok());
    assert_eq!(
        canister.get_user_approvals(alice()),
        vec![(bob(), Tokens128::new(500))]
    );

    assert!(canister.approve(alice(), bob(), Tokens128::new(200), 2).is_ok());
    assert_eq!(
        canister.get_user_approvals(alice()),
        vec![(bob(), Tokens128::new(200))]
    );

    assert!(canister.approve(alice(), john(), Tokens128::new(1000), 3).is_ok());

    // Compare as sets so the assertion does not depend on element order.
    assert_eq!(
        HashSet::<(Principal, Tokens128)>::from_iter(canister.get_user_approvals(alice())),
        HashSet::from_iter(vec![
            (bob(), Tokens128::new(200)),
            (john(), Tokens128::new(1000)),
        ])
    );
}

#[test]
fn api_approve_over_balance() {
    let mut canister = init_context();
    assert!(canister.approve(alice(), bob(), Tokens128::new(1500), 1).is_ok());
    assert!(canister
        .transfer_from(bob(), alice(), john(), Tokens128::new(500), 2)
        .is_ok());
    assert_eq!(canister.balance_of(alice()), Tokens128::new(500));
    assert_eq!(canister.balance_of(john()), Tokens128::new(500));

    assert_eq!(
        canister.transfer_from(bob(), alice(), john(), Tokens128::new(600), 3),
        Err(TxError::InsufficientBalance)
    );
    assert_eq!(canister.balance_of(alice()), Tokens128::new(500));
    assert_eq!(canister.balance_of(john()), Tokens128::new(500));
}

#[test]
fn api_transfer_from_with_fee() {
    let mut canister = init_token(1000, 100, bob());
    assert!(canister.approve(alice(), bob(), Tokens128::new(1500), 1).is_ok());
    assert_eq!(canister.balance_of(bob()), Tokens128::new(100));

    assert!(canister
        .transfer_from(bob(), alice(), john(), Tokens128::new(300), 2)
        .is_ok());
    assert_eq!(canister.balance_of(bob()), Tokens128::new(200));
    assert_eq!(canister.balance_of(alice()), Tokens128::new(500));
    assert_eq!(canister.balance_of(john()), Tokens128::new(300));
}
