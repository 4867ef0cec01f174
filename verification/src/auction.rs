use vstd::prelude::*;

use crate::balances::Balances;
use crate::principal::Principal;
use crate::state::CanisterState;
use crate::table::has_key;
use crate::table::key_at;
use crate::table::lemma_lookup_at;
use crate::table::lemma_lookup_le_sum;
use crate::table::lookup;
use crate::table::sum;
use crate::table::unique_keys;
use crate::tokens::Tokens128;
use crate::types::Cycles;
use crate::types::Timestamp;
use crate::types::TxId;
use crate::types::FEE_RATIO_SCALE;
use crate::types::MIN_BIDDING_AMOUNT;

verus! {

/// A recurring period, given in seconds.
#[derive(Debug, Clone, Copy, PartialEq, Eq, Structural)]
pub enum Interval {
    Period { seconds: u64 },
}

pub const NANOS_PER_SECOND: u64 = 1_000_000_000;

impl Interval {
    pub open spec fn nanos_spec(self) -> int {
        match self {
            Interval::Period { seconds } => seconds * NANOS_PER_SECOND,
        }
    }

    pub fn nanos(self) -> (r: u64)
        requires
            self.nanos_spec() <= u64::MAX,
        ensures
            r == self.nanos_spec(),
    {
        match self {
            Interval::Period { seconds } => seconds * NANOS_PER_SECOND,
        }
    }
}

#[derive(Debug, PartialEq, Eq, Structural)]
pub enum AuctionError {
    /// A settlement was requested with an empty bidding book.
    NoBids,
    /// The sent cycles are below the admission threshold.
    BiddingTooSmall,
    /// The auction period has not elapsed; carries the seconds remaining.
    TooEarlyToBeginAuction(u64),
    /// The caller is not allowed to change auction parameters.
    Unauthorized(Principal),
}

/// Outcome of one auction settlement, kept forever in the auction history.
#[derive(Debug, Clone, Copy, PartialEq, Eq, Structural)]
pub struct AuctionInfo {
    pub auction_id: usize,
    pub auction_time: Timestamp,
    pub tokens_distributed: Tokens128,
    pub cycles_collected: Cycles,
    pub fee_ratio_e12: u64,
    pub first_transaction_id: TxId,
    pub last_transaction_id: TxId,
}

/// Snapshot of the bidding book returned to one caller.
#[derive(Debug, Clone, Copy, PartialEq, Eq, Structural)]
pub struct BiddingInfo {
    pub fee_ratio_e12: u64,
    pub last_auction: Timestamp,
    pub auction_period: u64,
    pub total_cycles: Cycles,
    pub caller_cycles: Cycles,
}

/// The open bidding round: who sent how many cycles, the running total, the
/// period timer, and the current fee ratio (a numerator over the ratio
/// scale).
#[derive(Debug)]
pub struct BiddingState {
    pub fee_ratio_e12: u64,
    pub last_auction: Timestamp,
    pub auction_period: u64,
    pub cycles_since_auction: Cycles,
    pub bids: Balances,
}

impl BiddingState {
    /// Invariant: the bidding book is a well-formed amount book whose sum is
    /// the running cycle total (so every bid fits in 64 bits), the reserved
    /// pool identity never bids, and the ratio is within scale.
    pub open spec fn wf(self) -> bool {
        &&& self.bids.wf()
        &&& self.bids.total() == self.cycles_since_auction
        &&& !self.bids.holds(Principal::Auction)
        &&& self.fee_ratio_e12 <= FEE_RATIO_SCALE
    }

    pub open spec fn is_auction_due(self, now: Timestamp) -> bool {
        now - self.last_auction >= self.auction_period
    }

    /// Whole seconds until the next auction may run.
    pub open spec fn cooldown_secs_spec(self, now: Timestamp) -> int {
        if self.is_auction_due(now) {
            0
        } else {
            (self.auction_period - (now - self.last_auction)) / (NANOS_PER_SECOND as int)
        }
    }

    pub fn cooldown_secs_remaining(&self, now: Timestamp) -> (r: u64)
        requires
            now >= self.last_auction,
        ensures
            r == self.cooldown_secs_spec(now),
    {
        let elapsed = now - self.last_auction;
        if elapsed >= self.auction_period {
            0
        } else {
            (self.auction_period - elapsed) / NANOS_PER_SECOND
        }
    }
}

/// The auction subsystem: the open bidding round and the settlement history.
#[derive(Debug)]
pub struct AuctionState {
    pub bidding_state: BiddingState,
    pub history: Vec<AuctionInfo>,
}

impl AuctionState {
    pub open spec fn wf(self) -> bool {
        self.bidding_state.wf()
    }

    pub fn new(period: Interval, now: Timestamp) -> (r: AuctionState)
        requires
            period.nanos_spec() <= u64::MAX,
        ensures
            r.wf(),
            r.bidding_state.fee_ratio_e12 == 0,
            r.bidding_state.last_auction == now,
            r.bidding_state.auction_period == period.nanos_spec(),
            r.bidding_state.cycles_since_auction == 0,
            r.bidding_state.bids.entries@.len() == 0,
            r.history@.len() == 0,
    {
        AuctionState {
            bidding_state: BiddingState {
                fee_ratio_e12: 0,
                last_auction: now,
                auction_period: period.nanos(),
                cycles_since_auction: 0,
                bids: Balances::new(),
            },
            history: Vec::new(),
        }
    }

    /// The settlement record with the given id, if one exists.
    pub fn auction_info(&self, id: usize) -> (r: Option<AuctionInfo>)
        ensures
            id < self.history@.len() ==> r == Some(self.history@[id as int]),
            id >= self.history@.len() ==> r is None,
    {
        if id < self.history.len() {
            Some(self.history[id])
        } else {
            None
        }
    }

    /// The bidding round as seen by `caller`.
    pub fn bidding_info(&self, caller: Principal) -> (r: BiddingInfo)
        requires
            self.wf(),
        ensures
            r.fee_ratio_e12 == self.bidding_state.fee_ratio_e12,
            r.last_auction == self.bidding_state.last_auction,
            r.auction_period == self.bidding_state.auction_period,
            r.total_cycles == self.bidding_state.cycles_since_auction,
            r.caller_cycles == self.bidding_state.bids.balance(caller),
    {
        proof {
            lemma_lookup_le_sum(self.bidding_state.bids.entries@, caller);
        }
        let caller_cycles = self.bidding_state.bids.balance_of(&caller);
        BiddingInfo {
            fee_ratio_e12: self.bidding_state.fee_ratio_e12,
            last_auction: self.bidding_state.last_auction,
            auction_period: self.bidding_state.auction_period,
            total_cycles: self.bidding_state.cycles_since_auction,
            caller_cycles: caller_cycles.amount as u64,
        }
    }

    /// Admits a bid: cycles below the threshold are rejected, accepted
    /// cycles accumulate into the bidder's entry and the running total.
    pub fn bid_cycles(&mut self, bidder: Principal, cycles_sent: Cycles) -> (r: Result<
        (),
        AuctionError,
    >)
        requires
            old(self).wf(),
            bidder != Principal::Auction,
            old(self).bidding_state.cycles_since_auction + cycles_sent <= u64::MAX,
        ensures
            final(self).wf(),
            r is Ok <==> cycles_sent >= MIN_BIDDING_AMOUNT,
            r is Err ==> *final(self) == *old(self) && r == Result::<(), AuctionError>::Err(
                AuctionError::BiddingTooSmall,
            ),
            r is Ok ==> {
                &&& final(self).bidding_state.bids.balance(bidder) == old(
                    self,
                ).bidding_state.bids.balance(bidder) + cycles_sent
                &&& forall|p: Principal|
                    p != bidder ==> final(self).bidding_state.bids.balance(p) == old(
                        self,
                    ).bidding_state.bids.balance(p)
                &&& final(self).bidding_state.cycles_since_auction == old(
                    self,
                ).bidding_state.cycles_since_auction + cycles_sent
                &&& final(self).bidding_state.fee_ratio_e12 == old(
                    self,
                ).bidding_state.fee_ratio_e12
                &&& final(self).bidding_state.last_auction == old(self).bidding_state.last_auction
                &&& final(self).bidding_state.auction_period == old(
                    self,
                ).bidding_state.auction_period
                &&& final(self).history == old(self).history
            },
    {
        if cycles_sent < MIN_BIDDING_AMOUNT {
            return Err(AuctionError::BiddingTooSmall);
        }
        self.bidding_state.bids.credit(bidder, cycles_sent as u128);
        self.bidding_state.cycles_since_auction = self.bidding_state.cycles_since_auction
            + cycles_sent;
        proof {
            let s = self.bidding_state.bids.entries@;
            if has_key(s, Principal::Auction) {
                let j = key_at(s, Principal::Auction);
                assert(0 <= j < s.len() && s[j].0 == Principal::Auction);
                lemma_lookup_at(s, j);
                assert(old(self).bidding_state.bids.balance(Principal::Auction) == 0);
                assert(self.bidding_state.bids.balance(Principal::Auction) == 0);
                assert(s[j].1.amount != 0);
            }
        }
        Ok(())
    }
}

/// The share of each fee routed to the auction pool, derived from how the
/// host's cycle balance compares to the configured minimum: a canister at or
/// below the minimum routes everything to the auction, one far above it only
/// a proportional part. A zero minimum turns the auction share off.
pub open spec fn fee_ratio_spec(min_cycles: u64, current_cycles: u64) -> int {
    if min_cycles == 0 {
        0
    } else if current_cycles <= min_cycles {
        FEE_RATIO_SCALE as int
    } else {
        min_cycles * FEE_RATIO_SCALE / (current_cycles as int)
    }
}

pub fn fee_ratio(min_cycles: u64, current_cycles: u64) -> (r: u64)
    ensures
        r == fee_ratio_spec(min_cycles, current_cycles),
        r <= FEE_RATIO_SCALE,
{
    if min_cycles == 0 {
        0
    } else if current_cycles <= min_cycles {
        FEE_RATIO_SCALE
    } else {
        proof {
            assert((min_cycles as int) * (FEE_RATIO_SCALE as int) <= u128::MAX)
                by (nonlinear_arith)
                requires
                    min_cycles <= u64::MAX,
            ;
        }
        let wide: u128 = (min_cycles as u128) * (FEE_RATIO_SCALE as u128);
        let r: u128 = wide / (current_cycles as u128);
        proof {
            assert(min_cycles * FEE_RATIO_SCALE <= current_cycles * FEE_RATIO_SCALE)
                by (nonlinear_arith)
                requires
                    min_cycles <= current_cycles,
            ;
            vstd::arithmetic::div_mod::lemma_div_is_ordered(
                min_cycles * FEE_RATIO_SCALE,
                current_cycles * FEE_RATIO_SCALE,
                current_cycles as int,
            );
            vstd::arithmetic::div_mod::lemma_div_multiples_vanish(
                FEE_RATIO_SCALE as int,
                current_cycles as int,
            );
            assert(current_cycles * FEE_RATIO_SCALE == (current_cycles as int) * (
            FEE_RATIO_SCALE as int));
        }
        r as u64
    }
}

/// The tokens accumulated for the next auction: the fee pool's balance.
pub fn accumulated_fees(balances: &Balances) -> (r: Tokens128)
    requires
        balances.wf(),
    ensures
        r.amount == balances.balance(Principal::Auction),
{
    balances.balance_of(&Principal::Auction)
}

/// A bidder's pro-rata share: the pool scaled by its cycles over the round's
/// total, with truncating division.
pub open spec fn pro_rata_spec(pool: u128, cycles: u128, total_cycles: u128) -> int {
    pool * cycles / (total_cycles as int)
}

proof fn lemma_div_superadd(a: int, b: int, d: int)
    requires
        d > 0,
        a >= 0,
        b >= 0,
    ensures
        a / d + b / d <= (a + b) / d,
{
    vstd::arithmetic::div_mod::lemma_fundamental_div_mod(a, d);
    vstd::arithmetic::div_mod::lemma_fundamental_div_mod(b, d);
    vstd::arithmetic::div_mod::lemma_mod_bound(a, d);
    vstd::arithmetic::div_mod::lemma_mod_bound(b, d);
    vstd::arithmetic::div_mod::lemma_hoist_over_denominator(
        a % d + b % d,
        a / d + b / d,
        d as nat,
    );
    assert(a % d + b % d + (a / d + b / d) * d == a + b) by (nonlinear_arith)
        requires
            a == d * (a / d) + a % d,
            b == d * (b / d) + b % d,
    ;
    vstd::arithmetic::div_mod::lemma_div_pos_is_pos(a % d + b % d, d);
}

/// Computes a pro-rata share without widening past 128 bits, by splitting
/// the pool at the cycle total.
fn pro_rata(pool: u128, cycles: u128, total_cycles: u128) -> (r: u128)
    requires
        0 < total_cycles <= u64::MAX,
        cycles <= total_cycles,
    ensures
        r == pro_rata_spec(pool, cycles, total_cycles),
        r <= pool,
{
    let q: u128 = pool / total_cycles;
    let rem: u128 = pool % total_cycles;
    proof {
        let t = total_cycles as int;
        vstd::arithmetic::div_mod::lemma_fundamental_div_mod(pool as int, t);
        assert(q * cycles <= q * t) by (nonlinear_arith)
            requires
                cycles <= t,
                q >= 0,
        ;
        assert(q * t <= pool) by (nonlinear_arith)
            requires
                pool == t * q + rem,
                rem >= 0,
                q >= 0,
                t > 0,
        ;
        assert(rem * cycles < t * t) by (nonlinear_arith)
            requires
                0 <= rem < t,
                0 <= cycles <= t,
                t > 0,
        ;
        assert(t * t <= u128::MAX) by (nonlinear_arith)
            requires
                0 < t <= u64::MAX,
        ;
        vstd::arithmetic::div_mod::lemma_hoist_over_denominator(
            rem * cycles,
            q * cycles,
            total_cycles as nat,
        );
        assert(rem * cycles + (q * cycles) * t == pool * cycles) by (nonlinear_arith)
            requires
                pool == t * q + rem,
        ;
        vstd::arithmetic::div_mod::lemma_div_pos_is_pos(rem * cycles, t);
        assert(rem * cycles >= 0) by (nonlinear_arith)
            requires
                rem >= 0,
                cycles >= 0,
        ;
        // The share never exceeds the pool.
        assert(pool * cycles <= pool * t) by (nonlinear_arith)
            requires
                cycles <= t,
                pool >= 0,
        ;
        vstd::arithmetic::div_mod::lemma_div_is_ordered(pool * cycles, pool * t, t);
        vstd::arithmetic::div_mod::lemma_div_multiples_vanish(pool as int, t);
        assert(pool * t == t * pool) by (nonlinear_arith);
    }
    q * cycles + (rem * cycles) / total_cycles
}

/// The sum of all bidders' pro-rata shares; truncation dust stays with the
/// pool.
pub open spec fn distributed(
    bids: Seq<(Principal, Tokens128)>,
    pool: u128,
    total_cycles: u128,
) -> int
    decreases bids.len(),
{
    if bids.len() == 0 {
        0
    } else {
        distributed(bids.drop_last(), pool, total_cycles) + pro_rata_spec(
            pool,
            bids.last().1.amount,
            total_cycles,
        )
    }
}

proof fn lemma_distributed_take_step(
    bids: Seq<(Principal, Tokens128)>,
    pool: u128,
    total_cycles: u128,
    k: int,
)
    requires
        0 <= k < bids.len(),
    ensures
        distributed(bids.take(k + 1), pool, total_cycles) == distributed(
            bids.take(k),
            pool,
            total_cycles,
        ) + pro_rata_spec(pool, bids[k].1.amount, total_cycles),
        sum(bids.take(k + 1)) == sum(bids.take(k)) + bids[k].1.amount,
{
    assert(bids.take(k + 1).drop_last() =~= bids.take(k));
    assert(bids.take(k + 1).last() == bids[k]);
}

proof fn lemma_take_fresh(s: Seq<(Principal, Tokens128)>, k: int)
    requires
        unique_keys(s),
        0 <= k < s.len(),
    ensures
        unique_keys(s.take(k)),
        !has_key(s.take(k), s[k].0),
        s.take(k + 1) =~= s.take(k).push(s[k]),
{
    let t = s.take(k);
    assert forall|x: int, y: int|
        0 <= x < t.len() && 0 <= y < t.len() && x != y implies (#[trigger] t[x]).0 != (
    #[trigger] t[y]).0 by {
        assert(t[x] == s[x]);
        assert(t[y] == s[y]);
    }
    if has_key(t, s[k].0) {
        let j = key_at(t, s[k].0);
        assert(0 <= j < t.len() && t[j].0 == s[k].0);
        assert(t[j] == s[j]);
    }
}

proof fn lemma_sum_take_le(s: Seq<(Principal, Tokens128)>, i: int)
    requires
        0 <= i <= s.len(),
    ensures
        sum(s.take(i)) <= sum(s),
    decreases s.len() - i,
{
    if i == s.len() {
        assert(s.take(i) =~= s);
    } else {
        assert(s.take(i + 1).drop_last() =~= s.take(i));
        assert(s.take(i + 1).last() == s[i]);
        lemma_sum_take_le(s, i + 1);
    }
}

/// The state after a successful settlement: every bidder was credited its
/// pro-rata share out of the pool, one auction record per bidder was
/// appended, and the returned summary describes exactly that.
pub open spec fn disburse_ok_post(
    pre: CanisterState,
    post: CanisterState,
    bidding: BiddingState,
    history_len: int,
    info: AuctionInfo,
    now: u64,
) -> bool {
    let bids = bidding.bids.entries@;
    let pool = pre.balances.balance(Principal::Auction);
    let t = bidding.cycles_since_auction as u128;
    let n = bids.len() as int;
    &&& post.balances.wf()
    &&& post.balances.total() == pre.balances.total()
    &&& forall|p: Principal|
        p != Principal::Auction ==> post.balances.balance(p) == pre.balances.balance(p) + (
        if has_key(bids, p) {
            pro_rata_spec(pool, lookup(bids, p), t)
        } else {
            0
        })
    &&& post.balances.balance(Principal::Auction) == pool - distributed(bids, pool, t)
    &&& post.stats == pre.stats
    &&& post.allowances == pre.allowances
    &&& post.ledger.wf()
    &&& post.ledger.next_id_spec() == pre.ledger.next_id_spec() + n
    &&& forall|i: int|
        0 <= i < n && pre.ledger.next_id_spec() + i >= post.ledger.vec_offset
            ==> post.ledger.get_spec((pre.ledger.next_id_spec() + i) as TxId) == Some(
            (crate::tx_record::TxRecord {
                caller: Some((#[trigger] bids[i]).0),
                index: (pre.ledger.next_id_spec() + i) as TxId,
                from: bids[i].0,
                to: bids[i].0,
                amount: (Tokens128 {
                    amount: pro_rata_spec(pool, bids[i].1.amount, t) as u128,
                }),
                fee: (Tokens128 { amount: 0 }),
                timestamp: now,
                status: crate::types::TransactionStatus::Succeeded,
                operation: crate::types::Operation::Auction,
            }),
        )
    &&& info.auction_id == history_len
    &&& info.auction_time == now
    &&& info.tokens_distributed.amount == distributed(bids, pool, t)
    &&& info.cycles_collected == bidding.cycles_since_auction
    &&& info.fee_ratio_e12 == bidding.fee_ratio_e12
    &&& info.first_transaction_id == pre.ledger.next_id_spec()
    &&& info.last_transaction_id == pre.ledger.next_id_spec() + n - 1
}

/// Distributes the accumulated fee pool among the bidders of the closing
/// round, pro rata by sent cycles, appending one auction record per bidder.
/// Truncation dust stays in the pool for the next round. With no bids the
/// settlement fails and nothing changes.
#[verifier::loop_isolation(false)]
pub fn disburse_rewards(state: &mut CanisterState, auction: &AuctionState, now: u64) -> (r: Result<
    AuctionInfo,
    AuctionError,
>)
    requires
        old(state).balances.wf(),
        old(state).ledger.wf(),
        auction.wf(),
        old(state).ledger.next_id_spec() + auction.bidding_state.bids.entries@.len() <= u64::MAX,
    ensures
        final(state).balances.wf(),
        final(state).ledger.wf(),
        final(state).stats == old(state).stats,
        final(state).allowances == old(state).allowances,
        final(state).balances.total() == old(state).balances.total(),
        r is Err <==> auction.bidding_state.bids.entries@.len() == 0,
        r is Err ==> *final(state) == *old(state) && r == Result::<
            AuctionInfo,
            AuctionError,
        >::Err(AuctionError::NoBids),
        r is Ok ==> disburse_ok_post(
            *old(state),
            *final(state),
            auction.bidding_state,
            auction.history@.len() as int,
            r->Ok_0,
            now,
        ),
{
    let ghost pre = *state;
    let ghost bids = auction.bidding_state.bids.entries@;
    let n = auction.bidding_state.bids.entries.len();
    if n == 0 {
        return Err(AuctionError::NoBids);
    }
    let pool = accumulated_fees(&state.balances);
    let total_cycles = auction.bidding_state.cycles_since_auction;
    proof {
        // A nonempty book of nonzero bids has a positive cycle total.
        crate::table::lemma_entry_le_sum(bids, 0);
        assert(total_cycles > 0);
    }
    let first_transaction_id = state.ledger.len();
    let mut transferred: u128 = 0;
    let mut k: usize = 0;
    proof {
        assert(bids.take(0) =~= Seq::<(Principal, Tokens128)>::empty());
    }
    while k < n
        invariant
            0 <= k <= n,
            state.balances.wf(),
            state.balances.total() == pre.balances.total(),
            state.stats == pre.stats,
            state.allowances == pre.allowances,
            state.ledger.wf(),
            state.ledger.next_id_spec() == pre.ledger.next_id_spec() + k,
            transferred == distributed(bids.take(k as int), pool.amount, total_cycles as u128),
            transferred <= pool.amount,
            distributed(bids.take(k as int), pool.amount, total_cycles as u128) <= pro_rata_spec(
                pool.amount,
                sum(bids.take(k as int)) as u128,
                total_cycles as u128,
            ),
            sum(bids.take(k as int)) >= 0,
            forall|p: Principal|
                p != Principal::Auction ==> state.balances.balance(p) == pre.balances.balance(p)
                    + (if has_key(bids.take(k as int), p) {
                    pro_rata_spec(
                        pool.amount,
                        lookup(bids.take(k as int), p),
                        total_cycles as u128,
                    )
                } else {
                    0
                }),
            state.balances.balance(Principal::Auction) == pool.amount - distributed(
                bids.take(k as int),
                pool.amount,
                total_cycles as u128,
            ),
            forall|i: int|
                0 <= i < k && pre.ledger.next_id_spec() + i >= state.ledger.vec_offset
                    ==> state.ledger.get_spec((pre.ledger.next_id_spec() + i) as TxId) == Some(
                    (crate::tx_record::TxRecord {
                        caller: Some((#[trigger] bids[i]).0),
                        index: (pre.ledger.next_id_spec() + i) as TxId,
                        from: bids[i].0,
                        to: bids[i].0,
                        amount: (Tokens128 {
                            amount: pro_rata_spec(
                                pool.amount,
                                bids[i].1.amount,
                                total_cycles as u128,
                            ) as u128,
                        }),
                        fee: (Tokens128 { amount: 0 }),
                        timestamp: now,
                        status: crate::types::TransactionStatus::Succeeded,
                        operation: crate::types::Operation::Auction,
                    }),
                ),
        decreases n - k,
    {
        let (bidder, cycles) = auction.bidding_state.bids.entries[k];
        proof {
            lemma_take_fresh(bids, k as int);
            lemma_distributed_take_step(bids, pool.amount, total_cycles as u128, k as int);
            lemma_sum_take_le(bids, k + 1);
            crate::table::lemma_entry_le_sum(bids, k as int);
            crate::table::lemma_sum_nonneg(bids.take(k as int));
            // The next share still fits in what remains of the pool.
            let t = total_cycles as int;
            let s_k = sum(bids.take(k as int));
            let c_k = cycles.amount as int;
            assert(pool.amount * s_k >= 0) by (nonlinear_arith)
                requires
                    pool.amount >= 0,
                    s_k >= 0,
            ;
            assert(pool.amount * c_k >= 0) by (nonlinear_arith)
                requires
                    pool.amount >= 0,
                    c_k >= 0,
            ;
            lemma_div_superadd(pool.amount * s_k, pool.amount * c_k, t);
            assert(pool.amount * s_k + pool.amount * c_k == pool.amount * (s_k + c_k))
                by (nonlinear_arith);
            assert(pool.amount * (s_k + c_k) <= pool.amount * t) by (nonlinear_arith)
                requires
                    s_k + c_k <= t,
                    pool.amount >= 0,
            ;
            vstd::arithmetic::div_mod::lemma_div_is_ordered(
                pool.amount * (s_k + c_k),
                pool.amount * t,
                t,
            );
            vstd::arithmetic::div_mod::lemma_div_multiples_vanish(pool.amount as int, t);
            assert(pool.amount * t == t * pool.amount) by (nonlinear_arith);
            // The bidder is never the pool identity.
            if bidder == Principal::Auction {
                assert(has_key(bids, Principal::Auction));
            }
        }
        let amount = pro_rata(pool.amount, cycles.amount, total_cycles as u128);
        let moved = crate::erc20_transactions::transfer_balance(
            &mut state.balances,
            Principal::Auction,
            bidder,
            Tokens128 { amount },
        );
        proof {
            assert(moved is Ok);
        }
        let ghost ledger_before = state.ledger;
        state.ledger.record_auction(bidder, Tokens128 { amount }, now);
        transferred = transferred + amount;
        proof {
            assert forall|i: int|
                0 <= i < k + 1 && pre.ledger.next_id_spec() + i >= state.ledger.vec_offset
                    implies state.ledger.get_spec((pre.ledger.next_id_spec() + i) as TxId) == Some(
                (crate::tx_record::TxRecord {
                    caller: Some((#[trigger] bids[i]).0),
                    index: (pre.ledger.next_id_spec() + i) as TxId,
                    from: bids[i].0,
                    to: bids[i].0,
                    amount: (Tokens128 {
                        amount: pro_rata_spec(
                            pool.amount,
                            bids[i].1.amount,
                            total_cycles as u128,
                        ) as u128,
                    }),
                    fee: (Tokens128 { amount: 0 }),
                    timestamp: now,
                    status: crate::types::TransactionStatus::Succeeded,
                    operation: crate::types::Operation::Auction,
                }),
            ) by {
                let id_i = pre.ledger.next_id_spec() + i;
                if i < k {
                    assert(ledger_before.get_spec(id_i as TxId) == Some(
                        (crate::tx_record::TxRecord {
                            caller: Some(bids[i].0),
                            index: id_i as TxId,
                            from: bids[i].0,
                            to: bids[i].0,
                            amount: (Tokens128 {
                                amount: pro_rata_spec(
                                    pool.amount,
                                    bids[i].1.amount,
                                    total_cycles as u128,
                                ) as u128,
                            }),
                            fee: (Tokens128 { amount: 0 }),
                            timestamp: now,
                            status: crate::types::TransactionStatus::Succeeded,
                            operation: crate::types::Operation::Auction,
                        }),
                    ));
                }
            }
        }
        k = k + 1;
    }
    proof {
        assert(bids.take(n as int) =~= bids);
    }
    let last_transaction_id = state.ledger.len() - 1;
    Ok(
        AuctionInfo {
            auction_id: auction.history.len(),
            auction_time: now,
            tokens_distributed: Tokens128 { amount: transferred },
            cycles_collected: total_cycles,
            fee_ratio_e12: auction.bidding_state.fee_ratio_e12,
            first_transaction_id,
            last_transaction_id,
        },
    )
}

/// Settles the auction round when it is due: pays out the pool, records the
/// settlement in the auction history, resets the bidding round and derives
/// the next fee ratio from the host's current cycle balance.
pub fn run_auction(
    state: &mut CanisterState,
    auction: &mut AuctionState,
    now: u64,
    current_cycles: u64,
) -> (r: Result<AuctionInfo, AuctionError>)
    requires
        old(state).balances.wf(),
        old(state).ledger.wf(),
        old(auction).wf(),
        now >= old(auction).bidding_state.last_auction,
        old(state).ledger.next_id_spec() + old(auction).bidding_state.bids.entries@.len()
            <= u64::MAX,
        old(auction).history@.len() < usize::MAX,
    ensures
        final(state).balances.wf(),
        final(state).ledger.wf(),
        final(auction).wf(),
        final(state).balances.total() == old(state).balances.total(),
        final(state).stats == old(state).stats,
        final(state).allowances == old(state).allowances,
        r is Ok <==> (old(auction).bidding_state.bids.entries@.len() > 0 && old(
            auction,
        ).bidding_state.is_auction_due(now)),
        old(auction).bidding_state.bids.entries@.len() == 0 ==> r == Result::<
            AuctionInfo,
            AuctionError,
        >::Err(AuctionError::NoBids) && *final(state) == *old(state) && *final(auction) == *old(
            auction,
        ),
        old(auction).bidding_state.bids.entries@.len() > 0 && !old(
            auction,
        ).bidding_state.is_auction_due(now) ==> r == Result::<AuctionInfo, AuctionError>::Err(
            AuctionError::TooEarlyToBeginAuction(
                old(auction).bidding_state.cooldown_secs_spec(now) as u64,
            ),
        ) && *final(state) == *old(state) && *final(auction) == *old(auction),
        r is Ok ==> ({
            &&& disburse_ok_post(
                *old(state),
                *final(state),
                old(auction).bidding_state,
                old(auction).history@.len() as int,
                r->Ok_0,
                now,
            )
            &&& final(auction).history@ == old(auction).history@.push(r->Ok_0)
            &&& final(auction).bidding_state.bids.entries@.len() == 0
            &&& final(auction).bidding_state.cycles_since_auction == 0
            &&& final(auction).bidding_state.last_auction == now
            &&& final(auction).bidding_state.auction_period == old(
                auction,
            ).bidding_state.auction_period
            &&& final(auction).bidding_state.fee_ratio_e12 == fee_ratio_spec(
                old(state).stats.min_cycles,
                current_cycles,
            )
        }),
{
    if auction.bidding_state.bids.entries.len() == 0 {
        return Err(AuctionError::NoBids);
    }
    let elapsed = now - auction.bidding_state.last_auction;
    if elapsed < auction.bidding_state.auction_period {
        let secs = auction.bidding_state.cooldown_secs_remaining(now);
        return Err(AuctionError::TooEarlyToBeginAuction(secs));
    }
    let result = disburse_rewards(state, auction, now);
    let info = match result {
        Ok(info) => info,
        Err(e) => {
            // Unreachable: the bidding book was checked to be nonempty.
            proof {
                assert(false);
            }
            return Err(e);
        },
    };
    auction.history.push(info);
    auction.bidding_state.bids = Balances::new();
    auction.bidding_state.cycles_since_auction = 0;
    auction.bidding_state.last_auction = now;
    auction.bidding_state.fee_ratio_e12 = fee_ratio(state.stats.min_cycles, current_cycles);
    proof {
        assert(!has_key(auction.bidding_state.bids.entries@, Principal::Auction));
    }
    Ok(info)
}

} // verus!
