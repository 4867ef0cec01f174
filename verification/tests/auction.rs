use is20_token::auction::AuctionError;
use is20_token::auction::Interval;
use is20_token::canister::TokenCanister;
use is20_token::principal::auction_principal;
use is20_token::principal::Principal;
use is20_token::tokens::Tokens128;
use is20_token::types::Metadata;
use is20_token::types::MIN_BIDDING_AMOUNT;

fn alice() -> Principal {
    Principal::Id(1)
}

fn bob() -> Principal {
    Principal::Id(2)
}

fn test_canister() -> TokenCanister {
    TokenCanister::init(
        Metadata {
            logo: "".to_string(),
            name: "".to_string(),
            symbol: "".to_string(),
            decimals: 8,
            total_supply: Tokens128::new(1000),
            owner: alice(),
            fee: Tokens128::new(0),
            fee_to: alice(),
            is_test_token: None,
        },
        0,
    )
}

#[test]
fn bidding_cycles() {
    let mut canister = test_canister();
    canister.bid_cycles(bob(), 2_000_000).unwrap();
    let info = canister.bidding_info(bob());
    assert_eq!(info.total_cycles, 2_000_000);
    assert_eq!(info.caller_cycles, 2_000_000);

    let info = canister.bidding_info(alice());
    assert_eq!(info.total_cycles, 2_000_000);
    assert_eq!(info.caller_cycles, 0);
}

#[test]
fn bidding_cycles_under_limit() {
    let mut canister = test_canister();
    assert_eq!(
        canister.bid_cycles(alice(), MIN_BIDDING_AMOUNT - 1),
        Err(AuctionError::BiddingTooSmall)
    );
}

#[test]
fn bidding_multiple_times() {
    let mut canister = test_canister();
    canister.bid_cycles(alice(), 2_000_000).unwrap();
    canister.bid_cycles(alice(), 2_000_000).unwrap();

    assert_eq!(canister.bidding_info(alice()).caller_cycles, 4_000_000);
}

#[test]
fn auction_test() {
    let mut canister = test_canister();
    canister.bid_cycles(alice(), 2_000_000).unwrap();
    canister.bid_cycles(bob(), 4_000_000).unwrap();

    canister
        .state
        .balances
        .entries
        .push((auction_principal(), Tokens128::new(6_000)));

    let now = 10u64.pow(9) * 60 * 60 * 300;

    let result = canister.run_auction(now, 0).unwrap();
    assert_eq!(result.cycles_collected, 6_000_000);
    assert_eq!(result.first_transaction_id, 1);
    assert_eq!(result.last_transaction_id, 2);
    assert_eq!(result.tokens_distributed, Tokens128::new(6_000));

    assert_eq!(canister.balance_of(bob()), Tokens128::new(4_000));
    assert_eq!(canister.balance_of(alice()), Tokens128::new(3_000));

    let retrieved_result = canister.auction_info(result.auction_id).unwrap();
    assert_eq!(retrieved_result, result);
}

#[test]
fn auction_without_bids() {
    let mut canister = test_canister();
    assert_eq!(canister.run_auction(0, 0), Err(AuctionError::NoBids));
}

#[test]
fn auction_not_in_time() {
    let mut canister = test_canister();
    canister.bid_cycles(alice(), 2_000_000).unwrap();

    let now = 1_000_000u64;
    canister.auction.bidding_state.last_auction = now - 100_000;
    canister.auction.bidding_state.auction_period = 1_000_000_000;

    let secs_remaining = canister.auction.bidding_state.cooldown_secs_remaining(now);

    assert_eq!(
        canister.run_auction(now, 0),
        Err(AuctionError::TooEarlyToBeginAuction(secs_remaining))
    );
}

#[test]
fn setting_min_cycles() {
    let mut canister = test_canister();
    canister.set_min_cycles(alice(), 100500).unwrap();
    assert_eq!(canister.get_min_cycles(), 100500);
}

#[test]
fn setting_min_cycles_not_authorized() {
    let mut canister = test_canister();
    assert_eq!(
        canister.set_min_cycles(bob(), 100500),
        Err(AuctionError::Unauthorized(bob()))
    );
}

#[test]
fn setting_auction_period() {
    let mut canister = test_canister();
    canister
        .set_auction_period(alice(), Interval::Period { seconds: 100500 })
        .unwrap();
    assert_eq!(
        canister.bidding_info(alice()).auction_period,
        100500 * 10u64.pow(9)
    );
}

#[test]
fn setting_auction_period_not_authorized() {
    let mut canister = test_canister();
    assert_eq!(
        canister.set_auction_period(bob(), Interval::Period { seconds: 100500 }),
        Err(AuctionError::Unauthorized(bob()))
    );
}
