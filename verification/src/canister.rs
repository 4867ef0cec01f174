use vstd::prelude::*;

use crate::auction::disburse_ok_post;
use crate::auction::fee_ratio_spec;
use crate::auction::AuctionError;
use crate::auction::AuctionInfo;
use crate::auction::AuctionState;
use crate::auction::BiddingInfo;
use crate::auction::Interval;
use crate::balances::sorted_desc;
use crate::balances::Balances;
use crate::erc20_transactions;
use crate::erc20_transactions::batch_credited;
use crate::erc20_transactions::batch_total;
use crate::erc20_transactions::transfer_error;
use crate::erc20_transactions::transfer_from_error;
use crate::erc20_transactions::transfer_from_ok_cond;
use crate::erc20_transactions::transfer_from_ok_post;
use crate::erc20_transactions::transfer_include_fee_ok_post;
use crate::erc20_transactions::transfer_ok_cond;
use crate::erc20_transactions::transfer_ok_post;
use crate::erc20_transactions::approve_ok_post;
use crate::erc20_transactions::auction_share;
use crate::erc20_transactions::burn_ok_post;
use crate::erc20_transactions::mint_ok_post;
use crate::ledger::filtered_newest_first;
use crate::ledger::Ledger;
use crate::principal::Principal;
use crate::state::CanisterState;
use crate::tokens::Tokens128;
use crate::tx_record::TxRecord;
use crate::types::Metadata;
use crate::types::PaginatedResult;
use crate::types::StatsData;
use crate::types::Timestamp;
use crate::types::TokenInfo;
use crate::types::TxError;
use crate::types::TxId;
use crate::types::TxReceipt;

verus! {

/// The largest number of records one history query returns.
pub const MAX_TRANSACTION_QUERY_LEN: usize = 1000;

/// The default length of a bidding round, in seconds.
pub const DEFAULT_AUCTION_PERIOD_SECONDS: u64 = 60 * 60 * 24;

/// One token instance: the ledger state machine and its auction subsystem,
/// exposed through caller-checked operations. The host passes the caller's
/// identity and the current time into every call; nothing here talks to the
/// outside world.
#[derive(Debug)]
pub struct TokenCanister {
    pub state: CanisterState,
    pub auction: AuctionState,
}

impl TokenCanister {
    pub open spec fn wf(self) -> bool {
        &&& self.state.wf()
        &&& self.auction.wf()
    }

    /// The fee ratio the next fee split will use.
    pub open spec fn fee_ratio_e12(self) -> u64 {
        self.auction.bidding_state.fee_ratio_e12
    }

    /// Creates the instance: the whole initial supply is credited to the
    /// owner and recorded as the first mint, and a fresh bidding round with
    /// the default period starts.
    pub fn init(metadata: Metadata, now: Timestamp) -> (r: TokenCanister)
        ensures
            r.wf(),
            r.state.stats.logo == metadata.logo,
            r.state.stats.name == metadata.name,
            r.state.stats.symbol == metadata.symbol,
            r.state.stats.decimals == metadata.decimals,
            r.state.stats.total_supply == metadata.total_supply,
            r.state.stats.owner == metadata.owner,
            r.state.stats.fee == metadata.fee,
            r.state.stats.fee_to == metadata.fee_to,
            r.state.stats.is_test_token == (metadata.is_test_token == Some(true)),
            r.state.balances.balance(metadata.owner) == metadata.total_supply.amount,
            forall|p: Principal|
                p != metadata.owner ==> r.state.balances.balance(p) == 0,
            r.state.ledger.next_id_spec() == 1,
            r.state.ledger.get_spec(0) == Some(
                (TxRecord {
                    caller: Some(metadata.owner),
                    index: 0,
                    from: metadata.owner,
                    to: metadata.owner,
                    amount: metadata.total_supply,
                    fee: (Tokens128 { amount: 0 }),
                    timestamp: now,
                    status: crate::types::TransactionStatus::Succeeded,
                    operation: crate::types::Operation::Mint,
                }),
            ),
            r.state.allowances.entries@.len() == 0,
            r.auction.bidding_state.fee_ratio_e12 == 0,
            r.auction.bidding_state.last_auction == now,
            r.auction.bidding_state.cycles_since_auction == 0,
            r.auction.history@.len() == 0,
    {
        let owner = metadata.owner;
        let total_supply = metadata.total_supply;
        let mut balances = Balances::new();
        if total_supply.amount > 0 {
            balances.credit(owner, total_supply.amount);
        }
        let mut ledger = Ledger::new();
        let ghost empty_ledger = ledger;
        ledger.mint(owner, owner, total_supply, now);
        proof {
            assert(ledger.history@ =~= empty_ledger.history@.push(ledger.history@[0]));
        }
        let stats = StatsData::new(metadata, now);
        let state = CanisterState {
            balances,
            stats,
            allowances: crate::allowances::Allowances::new(),
            ledger,
        };
        let auction = AuctionState::new(
            Interval::Period { seconds: DEFAULT_AUCTION_PERIOD_SECONDS },
            now,
        );
        TokenCanister { state, auction }
    }

    pub fn is_test_token(&self) -> (r: bool)
        ensures
            r == self.state.stats.is_test_token,
    {
        self.state.stats.is_test_token
    }

    pub fn name(&self) -> (r: String)
        ensures
            r == self.state.stats.name,
    {
        self.state.stats.name.clone()
    }

    pub fn symbol(&self) -> (r: String)
        ensures
            r == self.state.stats.symbol,
    {
        self.state.stats.symbol.clone()
    }

    pub fn logo(&self) -> (r: String)
        ensures
            r == self.state.stats.logo,
    {
        self.state.stats.logo.clone()
    }

    pub fn decimals(&self) -> (r: u8)
        ensures
            r == self.state.stats.decimals,
    {
        self.state.stats.decimals
    }

    pub fn total_supply(&self) -> (r: Tokens128)
        ensures
            r == self.state.stats.total_supply,
    {
        self.state.stats.total_supply
    }

    pub fn owner(&self) -> (r: Principal)
        ensures
            r == self.state.stats.owner,
    {
        self.state.stats.owner
    }

    pub fn get_metadata(&self) -> (r: Metadata)
        ensures
            r.logo == self.state.stats.logo,
            r.name == self.state.stats.name,
            r.symbol == self.state.stats.symbol,
            r.decimals == self.state.stats.decimals,
            r.total_supply == self.state.stats.total_supply,
            r.owner == self.state.stats.owner,
            r.fee == self.state.stats.fee,
            r.fee_to == self.state.stats.fee_to,
            r.is_test_token == Some(self.state.stats.is_test_token),
    {
        self.state.get_metadata()
    }

    /// The summary queries combine stored stats with host figures passed in
    /// at the query edge.
    pub fn get_token_info(&self, cycles: u64) -> (r: TokenInfo)
        requires
            self.wf(),
        ensures
            r.metadata.name == self.state.stats.name,
            r.metadata.symbol == self.state.stats.symbol,
            r.metadata.total_supply == self.state.stats.total_supply,
            r.metadata.fee == self.state.stats.fee,
            r.metadata.owner == self.state.stats.owner,
            r.fee_to == self.state.stats.fee_to,
            r.history_size == self.state.ledger.next_id_spec(),
            r.deploy_time == self.state.stats.deploy_time,
            r.holder_number == self.state.balances.entries@.len(),
            r.cycles == cycles,
    {
        let metadata = self.state.get_metadata();
        TokenInfo {
            metadata,
            fee_to: self.state.stats.fee_to,
            history_size: self.state.ledger.len(),
            deploy_time: self.state.stats.deploy_time,
            holder_number: self.state.balances.holder_count(),
            cycles,
        }
    }

    pub fn balance_of(&self, holder: Principal) -> (r: Tokens128)
        requires
            self.wf(),
        ensures
            r.amount == self.state.balances.balance(holder),
    {
        self.state.balances.balance_of(&holder)
    }

    pub fn allowance(&self, owner: Principal, spender: Principal) -> (r: Tokens128)
        requires
            self.wf(),
        ensures
            r.amount == self.state.allowances.allowance(owner, spender),
    {
        self.state.allowance(owner, spender)
    }

    pub fn history_size(&self) -> (r: u64)
        requires
            self.wf(),
        ensures
            r == self.state.ledger.next_id_spec(),
    {
        self.state.ledger.len()
    }

    pub fn get_holders(&self, start: usize, limit: usize) -> (r: Vec<(Principal, Tokens128)>)
        requires
            self.wf(),
            start <= self.state.balances.entries@.len(),
        ensures
            exists|s: Seq<(Principal, Tokens128)>|
                {
                    &&& s.to_multiset() == self.state.balances.entries@.to_multiset()
                    &&& sorted_desc(s)
                    &&& r@ == s.subrange(
                        start as int,
                        if start + limit <= s.len() {
                            start + limit
                        } else {
                            s.len() as int
                        },
                    )
                },
    {
        self.state.balances.get_holders(start, limit)
    }

    pub fn get_allowance_size(&self) -> (r: usize)
        ensures
            r == self.state.allowances.entries@.len(),
    {
        self.state.allowance_size()
    }

    pub fn get_user_approvals(&self, who: Principal) -> (r: Vec<(Principal, Tokens128)>)
        ensures
            r@ == crate::allowances::approvals_of(self.state.allowances.entries@, who),
    {
        self.state.user_approvals(who)
    }

    /// Changing stored metadata and fee configuration is reserved to the
    /// owner; anyone else gets `Unauthorized` and changes nothing.
    pub fn set_name(&mut self, caller: Principal, name: String) -> (r: Result<(), TxError>)
        requires
            old(self).wf(),
        ensures
            final(self).wf(),
            r is Ok <==> caller == old(self).state.stats.owner,
            r is Err ==> *final(self) == *old(self) && r == Result::<(), TxError>::Err(
                TxError::Unauthorized,
            ),
            r is Ok ==> final(self).state.stats == (StatsData {
                name,
                ..old(self).state.stats
            }) && *final(self) == (TokenCanister {
                state: (CanisterState { stats: final(self).state.stats, ..old(self).state }),
                ..*old(self)
            }),
    {
        if !(caller == self.state.stats.owner) {
            return Err(TxError::Unauthorized);
        }
        self.state.stats.name = name;
        Ok(())
    }

    pub fn set_logo(&mut self, caller: Principal, logo: String) -> (r: Result<(), TxError>)
        requires
            old(self).wf(),
        ensures
            final(self).wf(),
            r is Ok <==> caller == old(self).state.stats.owner,
            r is Err ==> *final(self) == *old(self) && r == Result::<(), TxError>::Err(
                TxError::Unauthorized,
            ),
            r is Ok ==> final(self).state.stats == (StatsData {
                logo,
                ..old(self).state.stats
            }) && *final(self) == (TokenCanister {
                state: (CanisterState { stats: final(self).state.stats, ..old(self).state }),
                ..*old(self)
            }),
    {
        if !(caller == self.state.stats.owner) {
            return Err(TxError::Unauthorized);
        }
        self.state.stats.logo = logo;
        Ok(())
    }

    pub fn set_fee(&mut self, caller: Principal, fee: Tokens128) -> (r: Result<(), TxError>)
        requires
            old(self).wf(),
        ensures
            final(self).wf(),
            r is Ok <==> caller == old(self).state.stats.owner,
            r is Err ==> *final(self) == *old(self) && r == Result::<(), TxError>::Err(
                TxError::Unauthorized,
            ),
            r is Ok ==> final(self).state.stats == (StatsData {
                fee,
                ..old(self).state.stats
            }) && *final(self) == (TokenCanister {
                state: (CanisterState { stats: final(self).state.stats, ..old(self).state }),
                ..*old(self)
            }),
    {
        if !(caller == self.state.stats.owner) {
            return Err(TxError::Unauthorized);
        }
        self.state.stats.fee = fee;
        Ok(())
    }

    pub fn set_fee_to(&mut self, caller: Principal, fee_to: Principal) -> (r: Result<(), TxError>)
        requires
            old(self).wf(),
        ensures
            final(self).wf(),
            r is Ok <==> caller == old(self).state.stats.owner,
            r is Err ==> *final(self) == *old(self) && r == Result::<(), TxError>::Err(
                TxError::Unauthorized,
            ),
            r is Ok ==> final(self).state.stats == (StatsData {
                fee_to,
                ..old(self).state.stats
            }) && *final(self) == (TokenCanister {
                state: (CanisterState { stats: final(self).state.stats, ..old(self).state }),
                ..*old(self)
            }),
    {
        if !(caller == self.state.stats.owner) {
            return Err(TxError::Unauthorized);
        }
        self.state.stats.fee_to = fee_to;
        Ok(())
    }

    pub fn set_owner(&mut self, caller: Principal, owner: Principal) -> (r: Result<(), TxError>)
        requires
            old(self).wf(),
        ensures
            final(self).wf(),
            r is Ok <==> caller == old(self).state.stats.owner,
            r is Err ==> *final(self) == *old(self) && r == Result::<(), TxError>::Err(
                TxError::Unauthorized,
            ),
            r is Ok ==> final(self).state.stats == (StatsData {
                owner,
                ..old(self).state.stats
            }) && *final(self) == (TokenCanister {
                state: (CanisterState { stats: final(self).state.stats, ..old(self).state }),
                ..*old(self)
            }),
    {
        if !(caller == self.state.stats.owner) {
            return Err(TxError::Unauthorized);
        }
        self.state.stats.owner = owner;
        Ok(())
    }

    /// A transfer to oneself is rejected before anything else is looked at.
    pub fn transfer(
        &mut self,
        caller: Principal,
        to: Principal,
        amount: Tokens128,
        fee_limit: Option<Tokens128>,
        now: Timestamp,
    ) -> (r: TxReceipt)
        requires
            old(self).wf(),
            old(self).state.ledger.next_id_spec() < u64::MAX,
        ensures
            final(self).wf(),
            final(self).auction == old(self).auction,
            r is Ok <==> (caller != to && transfer_ok_cond(
                old(self).state,
                caller,
                amount,
                fee_limit,
            )),
            r is Err ==> *final(self) == *old(self) && r == Result::<TxId, TxError>::Err(
                if caller == to {
                    TxError::SelfTransfer
                } else {
                    transfer_error(old(self).state, amount, fee_limit)
                },
            ),
            r is Ok ==> r == Result::<TxId, TxError>::Ok(
                old(self).state.ledger.next_id_spec() as TxId,
            ) && transfer_ok_post(
                old(self).state,
                final(self).state,
                caller,
                to,
                amount,
                old(self).fee_ratio_e12(),
                now,
            ),
    {
        if caller == to {
            return Err(TxError::SelfTransfer);
        }
        erc20_transactions::transfer(
            &mut self.state,
            caller,
            to,
            amount,
            fee_limit,
            self.auction.bidding_state.fee_ratio_e12,
            now,
        )
    }

    pub fn transfer_include_fee(
        &mut self,
        caller: Principal,
        to: Principal,
        amount: Tokens128,
        now: Timestamp,
    ) -> (r: TxReceipt)
        requires
            old(self).wf(),
            old(self).state.ledger.next_id_spec() < u64::MAX,
        ensures
            final(self).wf(),
            final(self).auction == old(self).auction,
            r is Ok <==> (caller != to && amount.amount > old(self).state.stats.fee.amount && old(
                self,
            ).state.balances.balance(caller) >= amount.amount),
            r is Err ==> *final(self) == *old(self) && r == Result::<TxId, TxError>::Err(
                if caller == to {
                    TxError::SelfTransfer
                } else if amount.amount <= old(self).state.stats.fee.amount {
                    TxError::AmountTooSmall
                } else {
                    TxError::InsufficientBalance
                },
            ),
            r is Ok ==> r == Result::<TxId, TxError>::Ok(
                old(self).state.ledger.next_id_spec() as TxId,
            ) && transfer_include_fee_ok_post(
                old(self).state,
                final(self).state,
                caller,
                to,
                amount,
                old(self).fee_ratio_e12(),
                now,
            ),
    {
        if caller == to {
            return Err(TxError::SelfTransfer);
        }
        erc20_transactions::transfer_include_fee(
            &mut self.state,
            caller,
            to,
            amount,
            self.auction.bidding_state.fee_ratio_e12,
            now,
        )
    }

    /// A delegated transfer requires three pairwise-distinct parties; any
    /// coincidence is rejected as a self transfer.
    pub fn transfer_from(
        &mut self,
        caller: Principal,
        from: Principal,
        to: Principal,
        amount: Tokens128,
        now: Timestamp,
    ) -> (r: TxReceipt)
        requires
            old(self).wf(),
            old(self).state.ledger.next_id_spec() < u64::MAX,
        ensures
            final(self).wf(),
            final(self).auction == old(self).auction,
            r is Ok <==> (from != to && caller != from && caller != to && transfer_from_ok_cond(
                old(self).state,
                caller,
                from,
                amount,
            )),
            r is Err ==> *final(self) == *old(self) && r == Result::<TxId, TxError>::Err(
                if from == to || caller == from || caller == to {
                    TxError::SelfTransfer
                } else {
                    transfer_from_error(old(self).state, caller, from, amount)
                },
            ),
            r is Ok ==> r == Result::<TxId, TxError>::Ok(
                old(self).state.ledger.next_id_spec() as TxId,
            ) && transfer_from_ok_post(
                old(self).state,
                final(self).state,
                caller,
                from,
                to,
                amount,
                old(self).fee_ratio_e12(),
                now,
            ),
    {
        if from == to || caller == from || caller == to {
            return Err(TxError::SelfTransfer);
        }
        erc20_transactions::transfer_from(
            &mut self.state,
            caller,
            from,
            to,
            amount,
            self.auction.bidding_state.fee_ratio_e12,
            now,
        )
    }

    pub fn approve(
        &mut self,
        caller: Principal,
        spender: Principal,
        amount: Tokens128,
        now: Timestamp,
    ) -> (r: TxReceipt)
        requires
            old(self).wf(),
            old(self).state.ledger.next_id_spec() < u64::MAX,
        ensures
            final(self).wf(),
            final(self).auction == old(self).auction,
            r is Ok <==> (caller != spender && old(self).state.balances.balance(caller) >= old(
                self,
            ).state.stats.fee.amount && amount.amount + old(self).state.stats.fee.amount
                <= u128::MAX),
            r is Err ==> *final(self) == *old(self) && r == Result::<TxId, TxError>::Err(
                if caller == spender {
                    TxError::SelfTransfer
                } else if old(self).state.balances.balance(caller) < old(
                    self,
                ).state.stats.fee.amount {
                    TxError::InsufficientBalance
                } else {
                    TxError::AmountOverflow
                },
            ),
            r is Ok ==> r == Result::<TxId, TxError>::Ok(
                old(self).state.ledger.next_id_spec() as TxId,
            ) && approve_ok_post(
                old(self).state,
                final(self).state,
                caller,
                spender,
                amount,
                old(self).fee_ratio_e12(),
                now,
            ),
    {
        if caller == spender {
            return Err(TxError::SelfTransfer);
        }
        erc20_transactions::approve(
            &mut self.state,
            caller,
            spender,
            amount,
            self.auction.bidding_state.fee_ratio_e12,
            now,
        )
    }

    /// Minting is open to anyone on a test token, and to the owner
    /// otherwise.
    pub fn mint(
        &mut self,
        caller: Principal,
        to: Principal,
        amount: Tokens128,
        now: Timestamp,
    ) -> (r: TxReceipt)
        requires
            old(self).wf(),
            old(self).state.ledger.next_id_spec() < u64::MAX,
        ensures
            final(self).wf(),
            final(self).auction == old(self).auction,
            r is Ok <==> ((old(self).state.stats.is_test_token || caller == old(
                self,
            ).state.stats.owner) && old(self).state.stats.total_supply.amount + amount.amount
                <= u128::MAX),
            r is Err ==> *final(self) == *old(self) && r == Result::<TxId, TxError>::Err(
                if !old(self).state.stats.is_test_token && caller != old(self).state.stats.owner {
                    TxError::Unauthorized
                } else {
                    TxError::AmountOverflow
                },
            ),
            r is Ok ==> r == Result::<TxId, TxError>::Ok(
                old(self).state.ledger.next_id_spec() as TxId,
            ) && mint_ok_post(old(self).state, final(self).state, caller, to, amount, now),
    {
        if self.state.stats.is_test_token {
            erc20_transactions::mint_test_token(&mut self.state, caller, to, amount, now)
        } else {
            if !(caller == self.state.stats.owner) {
                return Err(TxError::Unauthorized);
            }
            erc20_transactions::mint_as_owner(&mut self.state, caller, to, amount, now)
        }
    }

    /// Burns the caller's tokens when `from` is absent or names the caller;
    /// burning someone else's tokens is reserved to the owner.
    pub fn burn(
        &mut self,
        caller: Principal,
        from: Option<Principal>,
        amount: Tokens128,
        now: Timestamp,
    ) -> (r: TxReceipt)
        requires
            old(self).wf(),
            old(self).state.ledger.next_id_spec() < u64::MAX,
        ensures
            final(self).wf(),
            final(self).auction == old(self).auction,
            ({
                let target = match from {
                    Some(p) => p,
                    None => caller,
                };
                let authorized = from is None || from == Some(caller) || caller == old(
                    self,
                ).state.stats.owner;
                &&& (r is Ok <==> (authorized && old(self).state.balances.balance(target)
                    >= amount.amount))
                &&& (r is Err ==> *final(self) == *old(self) && r == Result::<
                    TxId,
                    TxError,
                >::Err(
                    if !authorized {
                        TxError::Unauthorized
                    } else {
                        TxError::InsufficientBalance
                    },
                ))
                &&& (r is Ok ==> r == Result::<TxId, TxError>::Ok(
                    old(self).state.ledger.next_id_spec() as TxId,
                ) && burn_ok_post(old(self).state, final(self).state, caller, target, amount, now))
            }),
    {
        match from {
            None => erc20_transactions::burn_own_tokens(&mut self.state, caller, amount, now),
            Some(target) => {
                if target == caller {
                    erc20_transactions::burn_own_tokens(&mut self.state, caller, amount, now)
                } else {
                    if !(caller == self.state.stats.owner) {
                        return Err(TxError::Unauthorized);
                    }
                    erc20_transactions::burn_as_owner(&mut self.state, caller, target, amount, now)
                }
            },
        }
    }

    /// Transfers to several recipients at once; any recipient equal to the
    /// caller fails the whole batch up front.
    #[verifier::loop_isolation(false)]
    pub fn batch_transfer(
        &mut self,
        caller: Principal,
        transfers: Vec<(Principal, Tokens128)>,
        now: Timestamp,
    ) -> (r: Result<Vec<TxId>, TxError>)
        requires
            old(self).wf(),
            old(self).state.ledger.next_id_spec() + transfers@.len() <= u64::MAX,
        ensures
            final(self).wf(),
            final(self).auction == old(self).auction,
            (exists|i: int| 0 <= i < transfers@.len() && (#[trigger] transfers@[i]).0 == caller)
                ==> r == Result::<Vec<TxId>, TxError>::Err(TxError::SelfTransfer) && *final(self)
                == *old(self),
            (forall|i: int| 0 <= i < transfers@.len() ==> (#[trigger] transfers@[i]).0 != caller)
                ==> ({
                let fee = old(self).state.stats.fee.amount;
                let total = batch_total(transfers@, fee);
                &&& (r is Ok <==> (total <= u128::MAX && old(self).state.balances.balance(caller)
                    >= total))
                &&& (r is Err ==> *final(self) == *old(self) && r == Result::<
                    Vec<TxId>,
                    TxError,
                >::Err(
                    if total > u128::MAX {
                        TxError::AmountOverflow
                    } else {
                        TxError::InsufficientBalance
                    },
                ))
                &&& (r is Ok ==> ({
                    let n = transfers@.len() as int;
                    let auction_part = auction_share(fee, old(self).fee_ratio_e12());
                    let owner_part = fee - auction_part;
                    let ids = r->Ok_0;
                    &&& ids@.len() == n
                    &&& forall|i: int|
                        0 <= i < n ==> #[trigger] ids@[i] == old(self).state.ledger.next_id_spec()
                            + i
                    &&& final(self).state.balances.total() == old(self).state.balances.total()
                    &&& forall|p: Principal|
                        final(self).state.balances.balance(p) == old(self).state.balances.balance(
                            p,
                        ) - (if p == caller {
                            batch_total(transfers@, fee)
                        } else {
                            0
                        }) + batch_credited(transfers@, p) + (if p == old(
                            self,
                        ).state.stats.fee_to {
                            n * owner_part
                        } else {
                            0
                        }) + (if p == Principal::Auction {
                            n * auction_part
                        } else {
                            0
                        })
                    &&& final(self).state.stats == old(self).state.stats
                    &&& final(self).state.allowances == old(self).state.allowances
                    &&& final(self).state.ledger.next_id_spec() == old(
                        self,
                    ).state.ledger.next_id_spec() + n
                }))
            }),
    {
        let n = transfers.len();
        let mut i: usize = 0;
        while i < n
            invariant
                0 <= i <= n,
                n == transfers@.len(),
                forall|j: int| 0 <= j < i ==> (#[trigger] transfers@[j]).0 != caller,
            decreases n - i,
        {
            if transfers[i].0 == caller {
                return Err(TxError::SelfTransfer);
            }
            i = i + 1;
        }
        erc20_transactions::batch_transfer(
            &mut self.state,
            caller,
            transfers,
            self.auction.bidding_state.fee_ratio_e12,
            now,
        )
    }

    /// The record with the given id, unless it was truncated away or never
    /// assigned. The host layer traps on `None`.
    pub fn get_transaction(&self, id: TxId) -> (r: Option<TxRecord>)
        requires
            self.wf(),
        ensures
            r == self.state.ledger.get_spec(id),
    {
        self.state.ledger.get(id)
    }

    /// Up to `min(count, MAX_TRANSACTION_QUERY_LEN)` records, newest first,
    /// optionally restricted to one participant and to ids at or below a
    /// given offset.
    pub fn get_transactions(
        &self,
        who: Option<Principal>,
        count: usize,
        transaction_id: Option<TxId>,
    ) -> (r: PaginatedResult)
        requires
            self.wf(),
        ensures
            ({
                let capped = if count < MAX_TRANSACTION_QUERY_LEN {
                    count as int
                } else {
                    MAX_TRANSACTION_QUERY_LEN as int
                };
                let f = filtered_newest_first(self.state.ledger.history@, who, transaction_id);
                if f.len() > capped {
                    r.result@ == f.take(capped) && r.next == Some(f[capped].index)
                } else {
                    r.result@ == f && r.next is None
                }
            }),
    {
        let capped = if count < MAX_TRANSACTION_QUERY_LEN {
            count
        } else {
            MAX_TRANSACTION_QUERY_LEN
        };
        self.state.ledger.get_transactions(who, capped, transaction_id)
    }

    /// How many retained records concern `who`.
    pub fn get_user_transaction_count(&self, who: Principal) -> (r: usize)
        requires
            self.wf(),
        ensures
            r == filtered_newest_first(self.state.ledger.history@, Some(who), None).len(),
    {
        self.state.ledger.get_len_user_history(who)
    }

    /// Admits cycles sent by `bidder` into the open bidding round.
    pub fn bid_cycles(&mut self, bidder: Principal, cycles_sent: u64) -> (r: Result<
        (),
        AuctionError,
    >)
        requires
            old(self).wf(),
            bidder != Principal::Auction,
            old(self).auction.bidding_state.cycles_since_auction + cycles_sent <= u64::MAX,
        ensures
            final(self).wf(),
            final(self).state == old(self).state,
            r is Ok <==> cycles_sent >= crate::types::MIN_BIDDING_AMOUNT,
            r is Err ==> *final(self) == *old(self) && r == Result::<(), AuctionError>::Err(
                AuctionError::BiddingTooSmall,
            ),
            r is Ok ==> {
                &&& final(self).auction.bidding_state.bids.balance(bidder) == old(
                    self,
                ).auction.bidding_state.bids.balance(bidder) + cycles_sent
                &&& final(self).auction.bidding_state.cycles_since_auction == old(
                    self,
                ).auction.bidding_state.cycles_since_auction + cycles_sent
            },
    {
        self.auction.bid_cycles(bidder, cycles_sent)
    }

    pub fn bidding_info(&self, caller: Principal) -> (r: BiddingInfo)
        requires
            self.wf(),
        ensures
            r.fee_ratio_e12 == self.auction.bidding_state.fee_ratio_e12,
            r.last_auction == self.auction.bidding_state.last_auction,
            r.auction_period == self.auction.bidding_state.auction_period,
            r.total_cycles == self.auction.bidding_state.cycles_since_auction,
            r.caller_cycles == self.auction.bidding_state.bids.balance(caller),
    {
        self.auction.bidding_info(caller)
    }

    pub fn auction_info(&self, id: usize) -> (r: Option<AuctionInfo>)
        ensures
            id < self.auction.history@.len() ==> r == Some(self.auction.history@[id as int]),
            id >= self.auction.history@.len() ==> r is None,
    {
        self.auction.auction_info(id)
    }

    /// Settles the auction when it is due; `current_cycles` is the host's
    /// cycle balance, which seeds the next round's fee ratio.
    pub fn run_auction(&mut self, now: Timestamp, current_cycles: u64) -> (r: Result<
        AuctionInfo,
        AuctionError,
    >)
        requires
            old(self).wf(),
            now >= old(self).auction.bidding_state.last_auction,
            old(self).state.ledger.next_id_spec()
                + old(self).auction.bidding_state.bids.entries@.len() <= u64::MAX,
            old(self).auction.history@.len() < usize::MAX,
        ensures
            final(self).wf(),
            r is Ok <==> (old(self).auction.bidding_state.bids.entries@.len() > 0 && old(
                self,
            ).auction.bidding_state.is_auction_due(now)),
            old(self).auction.bidding_state.bids.entries@.len() == 0 ==> r == Result::<
                AuctionInfo,
                AuctionError,
            >::Err(AuctionError::NoBids) && *final(self) == *old(self),
            old(self).auction.bidding_state.bids.entries@.len() > 0 && !old(
                self,
            ).auction.bidding_state.is_auction_due(now) ==> r == Result::<
                AuctionInfo,
                AuctionError,
            >::Err(
                AuctionError::TooEarlyToBeginAuction(
                    old(self).auction.bidding_state.cooldown_secs_spec(now) as u64,
                ),
            ) && *final(self) == *old(self),
            r is Ok ==> {
                &&& disburse_ok_post(
                    old(self).state,
                    final(self).state,
                    old(self).auction.bidding_state,
                    old(self).auction.history@.len() as int,
                    r->Ok_0,
                    now,
                )
                &&& final(self).auction.history@ == old(self).auction.history@.push(r->Ok_0)
                &&& final(self).auction.bidding_state.bids.entries@.len() == 0
                &&& final(self).auction.bidding_state.cycles_since_auction == 0
                &&& final(self).auction.bidding_state.last_auction == now
                &&& final(self).auction.bidding_state.fee_ratio_e12 == fee_ratio_spec(
                    old(self).state.stats.min_cycles,
                    current_cycles,
                )
            },
    {
        let ghost pre = *self;
        let r = crate::auction::run_auction(&mut self.state, &mut self.auction, now, current_cycles);
        proof {
            if r is Ok {
                assert(self.state.balances.total() == pre.state.balances.total());
                assert(self.state.stats == pre.state.stats);
            }
        }
        r
    }

    pub fn get_min_cycles(&self) -> (r: u64)
        ensures
            r == self.state.stats.min_cycles,
    {
        self.state.stats.min_cycles
    }

    /// Setting the cycle threshold for the fee ratio is reserved to the
    /// owner.
    pub fn set_min_cycles(&mut self, caller: Principal, min_cycles: u64) -> (r: Result<
        (),
        AuctionError,
    >)
        requires
            old(self).wf(),
        ensures
            final(self).wf(),
            r is Ok <==> caller == old(self).state.stats.owner,
            r is Err ==> *final(self) == *old(self) && r == Result::<(), AuctionError>::Err(
                AuctionError::Unauthorized(caller),
            ),
            r is Ok ==> final(self).state.stats == (StatsData {
                min_cycles,
                ..old(self).state.stats
            }) && *final(self) == (TokenCanister {
                state: (CanisterState { stats: final(self).state.stats, ..old(self).state }),
                ..*old(self)
            }),
    {
        if !(caller == self.state.stats.owner) {
            return Err(AuctionError::Unauthorized(caller));
        }
        self.state.stats.min_cycles = min_cycles;
        Ok(())
    }

    /// Setting the bidding period is reserved to the owner.
    pub fn set_auction_period(&mut self, caller: Principal, period: Interval) -> (r: Result<
        (),
        AuctionError,
    >)
        requires
            old(self).wf(),
            period.nanos_spec() <= u64::MAX,
        ensures
            final(self).wf(),
            r is Ok <==> caller == old(self).state.stats.owner,
            r is Err ==> *final(self) == *old(self) && r == Result::<(), AuctionError>::Err(
                AuctionError::Unauthorized(caller),
            ),
            r is Ok ==> final(self).state == old(self).state
                && final(self).auction.bidding_state.auction_period == period.nanos_spec()
                && final(self).auction.bidding_state == (crate::auction::BiddingState {
                auction_period: final(self).auction.bidding_state.auction_period,
                ..old(self).auction.bidding_state
            }) && final(self).auction.history == old(self).auction.history,
    {
        if !(caller == self.state.stats.owner) {
            return Err(AuctionError::Unauthorized(caller));
        }
        self.auction.bidding_state.auction_period = period.nanos();
        Ok(())
    }
}

} // verus!
