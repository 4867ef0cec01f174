//! Theorems that tie the ledger operations together: conservation of the
//! supply, fee conservation across the split, allowance clearing, the
//! mint–burn round trip, and the shape of history pages.

use vstd::prelude::*;

use crate::balances::Balances;
use crate::erc20_transactions::approve_ok_post;
use crate::erc20_transactions::auction_share;
use crate::erc20_transactions::balances_moved;
use crate::erc20_transactions::burn_ok_post;
use crate::erc20_transactions::mint_ok_post;
use crate::ledger::appended;
use crate::ledger::filtered_newest_first;
use crate::ledger::lemma_filtered_newest_first;
use crate::ledger::Ledger;
use crate::principal::Principal;
use crate::state::CanisterState;
use crate::table::no_zero;
use crate::table::unique_keys;
use crate::tokens::Tokens128;
use crate::tx_record::TxRecord;
use crate::types::TxId;
use crate::types::FEE_RATIO_SCALE;

verus! {

/// In every well-formed state the balances sum to the recorded total supply,
/// no stored balance or allowance entry is zero, and no holder or
/// owner–spender pair is stored twice.
pub proof fn lemma_state_invariants(s: CanisterState)
    requires
        s.wf(),
    ensures
        s.balances.total() == s.stats.total_supply.amount,
        no_zero(s.balances.entries@),
        unique_keys(s.balances.entries@),
        no_zero(s.allowances.entries@),
        unique_keys(s.allowances.entries@),
{
}

/// Appending to a well-formed ledger keeps record ids strictly increasing:
/// the retained records are ordered by id, and the fresh record's id exceeds
/// the id of every record retained before the append.
pub proof fn lemma_ledger_ids_strictly_increase(pre: Ledger, post: Ledger, rec: TxRecord)
    requires
        pre.wf(),
        post.wf(),
        appended(pre, post, rec),
    ensures
        forall|i: int, j: int|
            0 <= i < j < post.history@.len() ==> (#[trigger] post.history@[i]).index < (
            #[trigger] post.history@[j]).index,
        forall|i: int|
            0 <= i < pre.history@.len() ==> (#[trigger] pre.history@[i]).index < rec.index,
        post.history@.len() > 0,
        post.history@.last() == rec,
{
    let grown = pre.history@.push(rec);
    assert(grown.last() == rec);
}

/// After any successful fee-charged movement whose four parties are
/// pairwise distinct, the fee recipient and the auction pool together gained
/// exactly the fee: nothing of it is lost to rounding.
pub proof fn lemma_fee_conservation(
    pre: Balances,
    post: Balances,
    from: Principal,
    to: Principal,
    amount: u128,
    fee: u128,
    fee_to: Principal,
    fee_ratio_e12: u64,
)
    requires
        balances_moved(pre, post, from, to, amount, fee, fee_to, fee_ratio_e12),
        from != to,
        fee_to != from,
        fee_to != to,
        fee_to != Principal::Auction,
        Principal::Auction != from,
        Principal::Auction != to,
    ensures
        post.balance(fee_to) + post.balance(Principal::Auction) == pre.balance(fee_to)
            + pre.balance(Principal::Auction) + fee,
        post.balance(from) == pre.balance(from) - amount - fee,
        post.balance(to) == pre.balance(to) + amount,
{
    assert(post.balance(fee_to) == pre.balance(fee_to) + (fee - auction_share(
        fee,
        fee_ratio_e12,
    )));
    assert(post.balance(Principal::Auction) == pre.balance(Principal::Auction) + auction_share(
        fee,
        fee_ratio_e12,
    ));
}

/// With no fee configured, approving a zero amount clears the allowance:
/// the stored bound reads zero and the entry is pruned; when it was the only
/// stored entry, the allowance book is empty again.
pub proof fn lemma_approve_zero_clears_allowance(
    pre: CanisterState,
    post: CanisterState,
    caller: Principal,
    spender: Principal,
    fee_ratio_e12: u64,
    now: u64,
)
    requires
        pre.stats.fee.amount == 0,
        approve_ok_post(pre, post, caller, spender, Tokens128 { amount: 0 }, fee_ratio_e12, now),
    ensures
        post.allowances.allowance(caller, spender) == 0,
        !post.allowances.holds(caller, spender),
        pre.allowances.entries@.len() == 1 && pre.allowances.holds(caller, spender)
            ==> post.allowances.entries@.len() == 0,
{
}

/// Minting an amount to a holder and then burning the same amount from the
/// same holder returns the total supply to its previous value; after the
/// mint, the burn is always owed success.
pub proof fn lemma_mint_burn_round_trip(
    s0: CanisterState,
    s1: CanisterState,
    s2: CanisterState,
    minter: Principal,
    burner: Principal,
    p: Principal,
    amount: Tokens128,
    t1: u64,
    t2: u64,
)
    requires
        mint_ok_post(s0, s1, minter, p, amount, t1),
    ensures
        s1.balances.balance(p) >= amount.amount,
        burn_ok_post(s1, s2, burner, p, amount, t2) ==> s2.stats.total_supply
            == s0.stats.total_supply,
{
}

/// An auction settlement never pays out more than the pool held: the
/// distributed total is bounded by the pool's balance before the round, and
/// whatever truncation dust remains stays in the pool for the next round.
pub proof fn lemma_auction_dust_stays_in_pool(
    pre: CanisterState,
    post: CanisterState,
    bidding: crate::auction::BiddingState,
    history_len: int,
    info: crate::auction::AuctionInfo,
    now: u64,
)
    requires
        crate::auction::disburse_ok_post(pre, post, bidding, history_len, info, now),
    ensures
        info.tokens_distributed.amount <= pre.balances.balance(Principal::Auction),
        post.balances.balance(Principal::Auction) == pre.balances.balance(Principal::Auction)
            - info.tokens_distributed.amount,
{
}

/// A history page is newest first: along the filtered selection, and hence
/// along any page taken from its front, record ids strictly decrease, and a
/// page of size `count` holds at most `count` records.
pub proof fn lemma_transactions_page_newest_first(
    ledger: Ledger,
    who: Option<Principal>,
    upto: Option<TxId>,
    count: int,
)
    requires
        ledger.wf(),
        0 <= count,
    ensures
        ({
            let f = filtered_newest_first(ledger.history@, who, upto);
            let page = if f.len() > count {
                f.take(count)
            } else {
                f
            };
            &&& page.len() <= count || page == f
            &&& page.len() == (if f.len() > count {
                count
            } else {
                f.len() as int
            })
            &&& forall|k: int, l: int|
                0 <= k < l < page.len() ==> (#[trigger] page[k]).index > (#[trigger] page[l]).index
        }),
{
    lemma_filtered_newest_first(ledger.history@, who, upto);
    let f = filtered_newest_first(ledger.history@, who, upto);
    let page = if f.len() > count {
        f.take(count)
    } else {
        f
    };
    assert forall|k: int, l: int| 0 <= k < l < page.len() implies (#[trigger] page[k]).index > (
    #[trigger] page[l]).index by {
        assert(page[k] == f[k]);
        assert(page[l] == f[l]);
    }
}

} // verus!
