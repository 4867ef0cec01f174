use vstd::prelude::*;

use crate::principal::Principal;
use crate::tokens::Tokens128;

verus! {

pub type Timestamp = u64;

/// Identifier of one ledger record; assigned monotonically and never reused.
pub type TxId = u64;

pub type Cycles = u64;

/// Outcome of a mutating token operation: the id of the appended record, or a
/// typed error with no state change.
pub type TxReceipt = Result<TxId, TxError>;

/// Number of cycles below which a bid is rejected.
pub const MIN_BIDDING_AMOUNT: u64 = 1_000_000;

/// Default minimum cycle level the canister tries to hold; used to derive the
/// share of fees routed to the auction pool.
pub const DEFAULT_MIN_CYCLES: u64 = 10_000_000_000_000;

/// Scale of the stored fee ratio: a ratio is a numerator over this constant.
pub const FEE_RATIO_SCALE: u64 = 1_000_000_000_000;

#[derive(Debug, PartialEq)]
pub enum TxError {
    InsufficientBalance,
    InsufficientAllowance,
    NoAllowance,
    Unauthorized,
    AmountTooSmall,
    FeeExceededLimit,
    ApproveSucceededButNotifyFailed { tx_error: Box<TxError> },
    NotificationFailed { transaction_id: u64 },
    AlreadyActioned,
    NotificationDoesNotExist,
    TransactionDoesNotExist,
    BadFee { expected_fee: Tokens128 },
    InsufficientFunds { balance: Tokens128 },
    TxTooOld { allowed_window_nanos: u64 },
    TxCreatedInFuture,
    TxDuplicate { duplicate_of: u64 },
    SelfTransfer,
    AmountOverflow,
}

#[derive(Debug, Clone, Copy, PartialEq, Eq, Structural)]
pub enum TransactionStatus {
    Succeeded,
    Failed,
}

#[derive(Debug, Clone, Copy, PartialEq, Eq, Structural)]
pub enum Operation {
    Approve,
    Mint,
    Transfer,
    TransferFrom,
    Burn,
    Auction,
}

/// The token description handed in at initialization and returned by
/// metadata queries.
#[derive(Debug)]
pub struct Metadata {
    pub logo: String,
    pub name: String,
    pub symbol: String,
    pub decimals: u8,
    pub total_supply: Tokens128,
    pub owner: Principal,
    pub fee: Tokens128,
    pub fee_to: Principal,
    pub is_test_token: Option<bool>,
}

/// Metadata and fee configuration of the token instance. Only the owner may
/// change any field; `total_supply` moves only through mint and burn.
#[derive(Debug)]
pub struct StatsData {
    pub logo: String,
    pub name: String,
    pub symbol: String,
    pub decimals: u8,
    pub total_supply: Tokens128,
    pub owner: Principal,
    pub fee: Tokens128,
    pub fee_to: Principal,
    pub deploy_time: Timestamp,
    pub min_cycles: u64,
    pub is_test_token: bool,
}

impl StatsData {
    pub fn fee_info(&self) -> (r: (Tokens128, Principal))
        ensures
            r.0 == self.fee,
            r.1 == self.fee_to,
    {
        (self.fee, self.fee_to)
    }

    /// Turns the initialization metadata into the stored stats, stamping the
    /// deployment time supplied by the host.
    pub fn new(md: Metadata, deploy_time: Timestamp) -> (r: StatsData)
        ensures
            r.logo == md.logo,
            r.name == md.name,
            r.symbol == md.symbol,
            r.decimals == md.decimals,
            r.total_supply == md.total_supply,
            r.owner == md.owner,
            r.fee == md.fee,
            r.fee_to == md.fee_to,
            r.deploy_time == deploy_time,
            r.min_cycles == DEFAULT_MIN_CYCLES,
            r.is_test_token == (md.is_test_token == Some(true)),
    {
        let is_test_token = match md.is_test_token {
            Some(v) => v,
            None => false,
        };
        StatsData {
            logo: md.logo,
            name: md.name,
            symbol: md.symbol,
            decimals: md.decimals,
            total_supply: md.total_supply,
            owner: md.owner,
            fee: md.fee,
            fee_to: md.fee_to,
            deploy_time,
            min_cycles: DEFAULT_MIN_CYCLES,
            is_test_token,
        }
    }
}

impl Default for StatsData {
    fn default() -> (r: StatsData)
        ensures
            r.logo@ == Seq::<char>::empty(),
            r.name@ == Seq::<char>::empty(),
            r.symbol@ == Seq::<char>::empty(),
            r.decimals == 0,
            r.total_supply.amount == 0,
            r.owner == Principal::Anonymous,
            r.fee.amount == 0,
            r.fee_to == Principal::Anonymous,
            r.deploy_time == 0,
            r.min_cycles == 0,
            r.is_test_token == false,
    {
        StatsData {
            logo: String::new(),
            name: String::new(),
            symbol: String::new(),
            decimals: 0,
            total_supply: Tokens128 { amount: 0 },
            owner: Principal::Anonymous,
            fee: Tokens128 { amount: 0 },
            fee_to: Principal::Anonymous,
            deploy_time: 0,
            min_cycles: 0,
            is_test_token: false,
        }
    }
}

/// Result of a paginated history query: the matching records, newest first,
/// and the id to pass as the offset of the next page, when one remains.
#[derive(Debug)]
pub struct PaginatedResult {
    pub result: Vec<crate::tx_record::TxRecord>,
    pub next: Option<TxId>,
}

/// Summary returned by the token-info query; `cycles` is the host's cycle
/// balance as supplied by the caller at the query edge.
#[derive(Debug)]
pub struct TokenInfo {
    pub metadata: Metadata,
    pub fee_to: Principal,
    pub history_size: u64,
    pub deploy_time: Timestamp,
    pub holder_number: usize,
    pub cycles: u64,
}

} // verus!
