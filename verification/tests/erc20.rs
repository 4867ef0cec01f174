use std::collections::HashSet;

use is20_token::canister::TokenCanister;
use is20_token::principal::auction_principal;
use is20_token::principal::Principal;
use is20_token::tokens::Tokens128;
use is20_token::types::Metadata;
use is20_token::types::Operation;
use is20_token::types::TransactionStatus;
use is20_token::types::TxError;

fn alice() -> Principal {
    Principal::Id(1)
}

fn bob() -> Principal {
    Principal::Id(2)
}

fn john() -> Principal {
    Principal::Id(3)
}

fn xtc() -> Principal {
    Principal::Id(4)
}

fn test_canister() -> TokenCanister {
    TokenCanister::init(
        Metadata {
            logo: "".to_string(),
            name: "".to_string(),
            symbol: "".to_string(),
            decimals: 8,
            total_supply: Tokens128::new(1000),
            owner: alice(),
            fee: Tokens128::new(0),
            fee_to: alice(),
            is_test_token: None,
        },
        0,
    )
}

#[test]
fn erc20_transactions_transfer_without_fee() {
    let mut canister = test_canister();
    assert_eq!(Tokens128::new(1000), canister.balance_of(alice()));

    assert!(canister.transfer(alice(), bob(), Tokens128::new(100), None, 1).is_ok());
    assert_eq!(canister.balance_of(bob()), Tokens128::new(100));
    assert_eq!(canister.balance_of(alice()), Tokens128::new(900));
}

#[test]
fn erc20_transactions_transfer_with_fee() {
    let mut canister = test_canister();
    canister.state.stats.fee = Tokens128::new(100);
    canister.state.stats.fee_to = john();

    assert!(canister.transfer(alice(), bob(), Tokens128::new(200), None, 1).is_ok());
    assert_eq!(canister.balance_of(bob()), Tokens128::new(200));
    assert_eq!(canister.balance_of(alice()), Tokens128::new(700));
    assert_eq!(canister.balance_of(john()), Tokens128::new(100));
}

#[test]
fn erc20_transactions_transfer_fee_exceeded() {
    let mut canister = test_canister();
    canister.state.stats.fee = Tokens128::new(100);
    canister.state.stats.fee_to = john();

    assert!(canister
        .transfer(alice(), bob(), Tokens128::new(200), Some(Tokens128::new(100)), 1)
        .is_ok());
    assert_eq!(
        canister.transfer(alice(), bob(), Tokens128::new(200), Some(Tokens128::new(50)), 2),
        Err(TxError::FeeExceededLimit)
    );
}

#[test]
fn erc20_transactions_fees_with_auction_enabled() {
    let mut canister = test_canister();
    canister.state.stats.fee = Tokens128::new(50);
    canister.state.stats.fee_to = john();
    // Half of each fee goes to the auction pool.
    canister.auction.bidding_state.fee_ratio_e12 = 500_000_000_000;

    canister.transfer(alice(), bob(), Tokens128::new(100), None, 1).unwrap();
    assert_eq!(canister.balance_of(bob()), Tokens128::new(100));
    assert_eq!(canister.balance_of(alice()), Tokens128::new(850));
    assert_eq!(canister.balance_of(john()), Tokens128::new(25));
    assert_eq!(canister.balance_of(auction_principal()), Tokens128::new(25));
}

#[test]
fn erc20_transactions_transfer_insufficient_balance() {
    let mut canister = test_canister();
    assert_eq!(
        canister.transfer(alice(), bob(), Tokens128::new(1001), None, 1),
        Err(TxError::InsufficientBalance)
    );
    assert_eq!(canister.balance_of(alice()), Tokens128::new(1000));
    assert_eq!(canister.balance_of(bob()), Tokens128::new(0));
}

#[test]
fn erc20_transactions_transfer_with_fee_insufficient_balance() {
    let mut canister = test_canister();
    canister.state.stats.fee = Tokens128::new(100);
    canister.state.stats.fee_to = john();

    assert_eq!(
        canister.transfer(alice(), bob(), Tokens128::new(950), None, 1),
        Err(TxError::InsufficientBalance)
    );
    assert_eq!(canister.balance_of(alice()), Tokens128::new(1000));
    assert_eq!(canister.balance_of(bob()), Tokens128::new(0));
}

#[test]
fn erc20_transactions_transfer_wrong_caller() {
    let mut canister = test_canister();
    assert_eq!(
        canister.transfer(bob(), bob(), Tokens128::new(100), None, 1),
        Err(TxError::SelfTransfer)
    );
    assert_eq!(canister.balance_of(alice()), Tokens128::new(1000));
    assert_eq!(canister.balance_of(bob()), Tokens128::new(0));
}

#[test]
fn erc20_transactions_transfer_saved_into_history() {
    let mut canister = test_canister();
    canister.state.stats.fee = Tokens128::new(10);

    canister
        .transfer(alice(), bob(), Tokens128::new(1001), None, 5)
        .unwrap_err();
    assert_eq!(canister.history_size(), 1);

    const COUNT: u64 = 5;
    let mut ts: u64 = 0;
    let mut now: u64 = 0;
    for i in 0..COUNT {
        now += 10;
        let id = canister
            .transfer(alice(), bob(), Tokens128::new(100 + i as u128), None, now)
            .unwrap();
        assert_eq!(canister.history_size(), 2 + i);
        let tx = canister.get_transaction(id).unwrap();
        assert_eq!(tx.amount, Tokens128::new(100 + i as u128));
        assert_eq!(tx.fee, Tokens128::new(10));
        assert_eq!(tx.operation, Operation::Transfer);
        assert_eq!(tx.status, TransactionStatus::Succeeded);
        assert_eq!(tx.index, i + 1);
        assert_eq!(tx.from, alice());
        assert_eq!(tx.to, bob());
        assert!(ts < tx.timestamp);
        ts = tx.timestamp;
    }
}

#[test]
fn erc20_transactions_mint_test_token() {
    let mut canister = test_canister();
    assert_eq!(
        canister.mint(bob(), alice(), Tokens128::new(100), 1),
        Err(TxError::Unauthorized)
    );

    canister.state.stats.is_test_token = true;

    assert!(canister.mint(bob(), alice(), Tokens128::new(2000), 2).is_ok());
    assert!(canister.mint(bob(), bob(), Tokens128::new(5000), 3).is_ok());
    assert_eq!(canister.balance_of(alice()), Tokens128::new(3000));
    assert_eq!(canister.balance_of(bob()), Tokens128::new(5000));
}

#[test]
fn erc20_transactions_mint_by_owner() {
    let mut canister = test_canister();
    assert!(canister.mint(alice(), alice(), Tokens128::new(2000), 1).is_ok());
    assert!(canister.mint(alice(), bob(), Tokens128::new(5000), 2).is_ok());
    assert_eq!(canister.balance_of(alice()), Tokens128::new(3000));
    assert_eq!(canister.balance_of(bob()), Tokens128::new(5000));
    assert_eq!(canister.get_metadata().total_supply, Tokens128::new(8000));
}

#[test]
fn erc20_transactions_mint_saved_into_history() {
    let mut canister = test_canister();
    canister.state.stats.fee = Tokens128::new(10);

    assert_eq!(canister.history_size(), 1);

    const COUNT: u64 = 5;
    let mut ts: u64 = 0;
    let mut now: u64 = 0;
    for i in 0..COUNT {
        now += 10;
        let id = canister
            .mint(alice(), bob(), Tokens128::new(100 + i as u128), now)
            .unwrap();
        assert_eq!(canister.history_size(), 2 + i);
        let tx = canister.get_transaction(id).unwrap();
        assert_eq!(tx.amount, Tokens128::new(100 + i as u128));
        assert_eq!(tx.fee, Tokens128::new(0));
        assert_eq!(tx.operation, Operation::Mint);
        assert_eq!(tx.status, TransactionStatus::Succeeded);
        assert_eq!(tx.index, i + 1);
        assert_eq!(tx.from, alice());
        assert_eq!(tx.to, bob());
        assert!(ts < tx.timestamp);
        ts = tx.timestamp;
    }
}

#[test]
fn erc20_transactions_burn_by_owner() {
    let mut canister = test_canister();
    assert!(canister.burn(alice(), None, Tokens128::new(100), 1).is_ok());
    assert_eq!(canister.balance_of(alice()), Tokens128::new(900));
    assert_eq!(canister.get_metadata().total_supply, Tokens128::new(900));
}

#[test]
fn erc20_transactions_burn_too_much() {
    let mut canister = test_canister();
    assert_eq!(
        canister.burn(alice(), None, Tokens128::new(1001), 1),
        Err(TxError::InsufficientBalance)
    );
    assert_eq!(canister.balance_of(alice()), Tokens128::new(1000));
    assert_eq!(canister.get_metadata().total_supply, Tokens128::new(1000));
}

#[test]
fn erc20_transactions_burn_by_wrong_user() {
    let mut canister = test_canister();
    assert_eq!(
        canister.burn(bob(), None, Tokens128::new(100), 1),
        Err(TxError::InsufficientBalance)
    );
    assert_eq!(canister.balance_of(alice()), Tokens128::new(1000));
    assert_eq!(canister.get_metadata().total_supply, Tokens128::new(1000));
}

#[test]
fn erc20_transactions_burn_from() {
    let mut canister = test_canister();
    let bob_balance = Tokens128::new(1000);
    canister.mint(alice(), bob(), bob_balance, 1).unwrap();
    assert_eq!(canister.balance_of(bob()), bob_balance);

    canister.burn(alice(), Some(bob()), Tokens128::new(100), 2).unwrap();
    assert_eq!(canister.balance_of(bob()), Tokens128::new(900));

    assert_eq!(canister.get_metadata().total_supply, Tokens128::new(1900));
}

#[test]
fn erc20_transactions_burn_from_unauthorized() {
    let mut canister = test_canister();
    assert_eq!(
        canister.burn(bob(), Some(alice()), Tokens128::new(100), 1),
        Err(TxError::Unauthorized)
    );
    assert_eq!(canister.balance_of(alice()), Tokens128::new(1000));
    assert_eq!(canister.get_metadata().total_supply, Tokens128::new(1000));
}

#[test]
fn erc20_transactions_burn_saved_into_history() {
    let mut canister = test_canister();
    canister.state.stats.fee = Tokens128::new(10);

    canister.burn(alice(), None, Tokens128::new(1001), 5).unwrap_err();
    assert_eq!(canister.history_size(), 1);

    const COUNT: u64 = 5;
    let mut ts: u64 = 0;
    let mut now: u64 = 0;
    for i in 0..COUNT {
        now += 10;
        let id = canister
            .burn(alice(), None, Tokens128::new(100 + i as u128), now)
            .unwrap();
        assert_eq!(canister.history_size(), 2 + i);
        let tx = canister.get_transaction(id).unwrap();
        assert_eq!(tx.amount, Tokens128::new(100 + i as u128));
        assert_eq!(tx.fee, Tokens128::new(0));
        assert_eq!(tx.operation, Operation::Burn);
        assert_eq!(tx.status, TransactionStatus::Succeeded);
        assert_eq!(tx.index, i + 1);
        assert_eq!(tx.from, alice());
        assert_eq!(tx.to, alice());
        assert!(ts < tx.timestamp);
        ts = tx.timestamp;
    }
}

#[test]
fn erc20_transactions_transfer_from_with_approve() {
    let mut canister = test_canister();
    assert!(canister.approve(alice(), bob(), Tokens128::new(500), 1).is_ok());

    assert!(canister
        .transfer_from(bob(), alice(), john(), Tokens128::new(100), 2)
        .is_ok());
    assert_eq!(canister.balance_of(alice()), Tokens128::new(900));
    assert_eq!(canister.balance_of(john()), Tokens128::new(100));
    assert!(canister
        .transfer_from(bob(), alice(), john(), Tokens128::new(100), 3)
        .is_ok());
    assert_eq!(canister.balance_of(alice()), Tokens128::new(800));
    assert_eq!(canister.balance_of(john()), Tokens128::new(200));
    assert!(canister
        .transfer_from(bob(), alice(), john(), Tokens128::new(300), 4)
        .is_ok());

    assert_eq!(canister.balance_of(alice()), Tokens128::new(500));
    assert_eq!(canister.balance_of(bob()), Tokens128::new(0));
    assert_eq!(canister.balance_of(john()), Tokens128::new(500));
}

#[test]
fn erc20_transactions_insufficient_allowance() {
    let mut canister = test_canister();
    assert!(canister.approve(alice(), bob(), Tokens128::new(500), 1).is_ok());
    assert_eq!(
        canister.transfer_from(bob(), alice(), john(), Tokens128::new(600), 2),
        Err(TxError::InsufficientAllowance)
    );
    assert_eq!(canister.balance_of(alice()), Tokens128::new(1000));
    assert_eq!(canister.balance_of(john()), Tokens128::new(0));
}

#[test]
fn erc20_transactions_transfer_from_without_approve() {
    let mut canister = test_canister();
    assert_eq!(
        canister.transfer_from(bob(), alice(), john(), Tokens128::new(600), 1),
        Err(TxError::InsufficientAllowance)
    );
    assert_eq!(canister.balance_of(alice()), Tokens128::new(1000));
    assert_eq!(canister.balance_of(john()), Tokens128::new(0));
}

#[test]
fn erc20_transactions_transfer_from_saved_into_history() {
    let mut canister = test_canister();
    canister.state.stats.fee = Tokens128::new(10);

    canister
        .transfer_from(alice(), bob(), john(), Tokens128::new(10), 5)
        .unwrap_err();
    assert_eq!(canister.history_size(), 1);

    canister.approve(alice(), bob(), Tokens128::new(1000), 6).unwrap();

    const COUNT: u64 = 5;
    let mut ts: u64 = 6;
    let mut now: u64 = 6;
    for i in 0..COUNT {
        now += 10;
        let id = canister
            .transfer_from(bob(), alice(), john(), Tokens128::new(100 + i as u128), now)
            .unwrap();
        assert_eq!(canister.history_size(), 3 + i);
        let tx = canister.get_transaction(id).unwrap();
        assert_eq!(tx.caller, Some(bob()));
        assert_eq!(tx.amount, Tokens128::new(100 + i as u128));
        assert_eq!(tx.fee, Tokens128::new(10));
        assert_eq!(tx.operation, Operation::TransferFrom);
        assert_eq!(tx.status, TransactionStatus::Succeeded);
        assert_eq!(tx.index, i + 2);
        assert_eq!(tx.from, alice());
        assert_eq!(tx.to, john());
        assert!(ts < tx.timestamp);
        ts = tx.timestamp;
    }
}

#[test]
fn erc20_transactions_multiple_approves() {
    let mut canister = test_canister();
    assert!(canister.approve(alice(), bob(), Tokens128::new(500), 1).is_ok());
    assert_eq!(
        canister.get_user_approvals(alice()),
        vec![(bob(), Tokens128::new(500))]
    );

    assert!(canister.approve(alice(), bob(), Tokens128::new(200), 2).is_ok());
    assert_eq!(
        canister.get_user_approvals(alice()),
        vec![(bob(), Tokens128::new(200))]
    );

    assert!(canister.approve(alice(), john(), Tokens128::new(1000), 3).is_ok());

    // Compare as sets so the assertion does not depend on element order.
    assert_eq!(
        HashSet::<(Principal, Tokens128)>::from_iter(canister.get_user_approvals(alice())),
        HashSet::from_iter(vec![
            (bob(), Tokens128::new(200)),
            (john(), Tokens128::new(1000)),
        ])
    );
}

#[test]
fn erc20_transactions_approve_over_balance() {
    let mut canister = test_canister();
    assert!(canister.approve(alice(), bob(), Tokens128::new(1500), 1).is_ok());
    assert!(canister
        .transfer_from(bob(), alice(), john(), Tokens128::new(500), 2)
        .is_ok());
    assert_eq!(canister.balance_of(alice()), Tokens128::new(500));
    assert_eq!(canister.balance_of(john()), Tokens128::new(500));

    assert_eq!(
        canister.transfer_from(bob(), alice(), john(), Tokens128::new(600), 3),
        Err(TxError::InsufficientBalance)
    );
    assert_eq!(canister.balance_of(alice()), Tokens128::new(500));
    assert_eq!(canister.balance_of(john()), Tokens128::new(500));
}

#[test]
fn erc20_transactions_transfer_from_with_fee() {
    let mut canister = test_canister();
    canister.state.stats.fee = Tokens128::new(100);
    canister.state.stats.fee_to = bob();

    assert!(canister.approve(alice(), bob(), Tokens128::new(1500), 1).is_ok());
    assert_eq!(canister.balance_of(bob()), Tokens128::new(100));

    assert!(canister
        .transfer_from(bob(), alice(), john(), Tokens128::new(300), 2)
        .is_ok());
    assert_eq!(canister.balance_of(bob()), Tokens128::new(200));
    assert_eq!(canister.balance_of(alice()), Tokens128::new(500));
    assert_eq!(canister.balance_of(john()), Tokens128::new(300));
}

#[test]
fn erc20_transactions_approve_saved_into_history() {
    let mut canister = test_canister();
    canister.state.stats.fee = Tokens128::new(10);
    assert_eq!(canister.history_size(), 1);

    const COUNT: u64 = 5;
    let mut ts: u64 = 0;
    let mut now: u64 = 0;
    for i in 0..COUNT {
        now += 10;
        let id = canister
            .approve(alice(), bob(), Tokens128::new(100 + i as u128), now)
            .unwrap();
        assert_eq!(canister.history_size(), 2 + i);
        let tx = canister.get_transaction(id).unwrap();
        assert_eq!(tx.amount, Tokens128::new(100 + i as u128));
        assert_eq!(tx.fee, Tokens128::new(10));
        assert_eq!(tx.operation, Operation::Approve);
        assert_eq!(tx.status, TransactionStatus::Succeeded);
        assert_eq!(tx.index, i + 1);
        assert_eq!(tx.from, alice());
        assert_eq!(tx.to, bob());
        assert!(ts < tx.timestamp);
        ts = tx.timestamp;
    }
}

#[test]
fn erc20_transactions_get_transactions_test() {
    let mut canister = test_canister();

    for i in 1..=5u64 {
        canister.transfer(alice(), bob(), Tokens128::new(10), None, i).unwrap();
    }

    canister.transfer(alice(), bob(), Tokens128::new(10), None, 6).unwrap();
    canister.transfer(alice(), xtc(), Tokens128::new(10), None, 7).unwrap();
    canister.transfer(alice(), john(), Tokens128::new(10), None, 8).unwrap();

    assert_eq!(canister.get_transactions(None, 10, None).result.len(), 9);
    assert_eq!(canister.get_transactions(None, 10, Some(3)).result.len(), 4);
    assert_eq!(
        canister.get_transactions(Some(bob()), 10, None).result.len(),
        6
    );
    assert_eq!(
        canister.get_transactions(Some(xtc()), 5, None).result.len(),
        1
    );
    assert_eq!(
        canister
            .get_transactions(Some(alice()), 10, Some(5))
            .result
            .len(),
        6
    );
    assert_eq!(canister.get_transactions(None, 5, None).next, Some(3));
    assert_eq!(
        canister.get_transactions(Some(alice()), 3, Some(5)).next,
        Some(2)
    );
    assert_eq!(canister.get_transactions(Some(bob()), 3, Some(2)).next, None);

    for i in 1..=10u64 {
        canister
            .transfer(alice(), bob(), Tokens128::new(10), None, 8 + i)
            .unwrap();
    }

    let txn = canister.get_transactions(None, 5, None);
    assert_eq!(txn.result[0].index, 18);
    assert_eq!(txn.result[1].index, 17);
    assert_eq!(txn.result[2].index, 16);
    assert_eq!(txn.result[3].index, 15);
    assert_eq!(txn.result[4].index, 14);
    let txn2 = canister.get_transactions(None, 5, txn.next);
    assert_eq!(txn2.result[0].index, 13);
    assert_eq!(txn2.result[1].index, 12);
    assert_eq!(txn2.result[2].index, 11);
    assert_eq!(txn2.result[3].index, 10);
    assert_eq!(txn2.result[4].index, 9);
    assert_eq!(canister.get_transactions(None, 5, txn.next).next, Some(8));
}

#[test]
fn erc20_transactions_get_transaction_count() {
    let mut canister = test_canister();
    const COUNT: usize = 10;
    for i in 1..COUNT {
        canister
            .transfer(alice(), bob(), Tokens128::new(10), None, i as u64)
            .unwrap();
    }
    assert_eq!(canister.get_user_transaction_count(alice()), COUNT);
}
