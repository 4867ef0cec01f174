use vstd::prelude::*;

use crate::principal::Principal;
use crate::tokens::Tokens128;
use crate::types::Operation;
use crate::types::TransactionStatus;
use crate::types::TxId;

verus! {

/// One immutable entry of the transaction history.
#[derive(Debug, Clone, Copy, PartialEq)]
pub struct TxRecord {
    pub caller: Option<Principal>,
    pub index: TxId,
    pub from: Principal,
    pub to: Principal,
    pub amount: Tokens128,
    pub fee: Tokens128,
    pub timestamp: u64,
    pub status: TransactionStatus,
    pub operation: Operation,
}

impl TxRecord {
    pub fn transfer(
        index: TxId,
        from: Principal,
        to: Principal,
        amount: Tokens128,
        fee: Tokens128,
        timestamp: u64,
    ) -> (r: TxRecord)
        ensures
            r == (TxRecord {
                caller: Some(from),
                index,
                from,
                to,
                amount,
                fee,
                timestamp,
                status: TransactionStatus::Succeeded,
                operation: Operation::Transfer,
            }),
    {
        TxRecord {
            caller: Some(from),
            index,
            from,
            to,
            amount,
            fee,
            timestamp,
            status: TransactionStatus::Succeeded,
            operation: Operation::Transfer,
        }
    }

    pub fn transfer_from(
        index: TxId,
        caller: Principal,
        from: Principal,
        to: Principal,
        amount: Tokens128,
        fee: Tokens128,
        timestamp: u64,
    ) -> (r: TxRecord)
        ensures
            r == (TxRecord {
                caller: Some(caller),
                index,
                from,
                to,
                amount,
                fee,
                timestamp,
                status: TransactionStatus::Succeeded,
                operation: Operation::TransferFrom,
            }),
    {
        TxRecord {
            caller: Some(caller),
            index,
            from,
            to,
            amount,
            fee,
            timestamp,
            status: TransactionStatus::Succeeded,
            operation: Operation::TransferFrom,
        }
    }

    pub fn approve(
        index: TxId,
        from: Principal,
        to: Principal,
        amount: Tokens128,
        fee: Tokens128,
        timestamp: u64,
    ) -> (r: TxRecord)
        ensures
            r == (TxRecord {
                caller: Some(from),
                index,
                from,
                to,
                amount,
                fee,
                timestamp,
                status: TransactionStatus::Succeeded,
                operation: Operation::Approve,
            }),
    {
        TxRecord {
            caller: Some(from),
            index,
            from,
            to,
            amount,
            fee,
            timestamp,
            status: TransactionStatus::Succeeded,
            operation: Operation::Approve,
        }
    }

    pub fn mint(
        index: TxId,
        from: Principal,
        to: Principal,
        amount: Tokens128,
        timestamp: u64,
    ) -> (r: TxRecord)
        ensures
            r == (TxRecord {
                caller: Some(from),
                index,
                from,
                to,
                amount,
                fee: Tokens128 { amount: 0 },
                timestamp,
                status: TransactionStatus::Succeeded,
                operation: Operation::Mint,
            }),
    {
        TxRecord {
            caller: Some(from),
            index,
            from,
            to,
            amount,
            fee: Tokens128 { amount: 0 },
            timestamp,
            status: TransactionStatus::Succeeded,
            operation: Operation::Mint,
        }
    }

    /// A burn record points both `from` and `to` at the account whose tokens
    /// were destroyed.
    pub fn burn(
        index: TxId,
        caller: Principal,
        from: Principal,
        amount: Tokens128,
        timestamp: u64,
    ) -> (r: TxRecord)
        ensures
            r == (TxRecord {
                caller: Some(caller),
                index,
                from,
                to: from,
                amount,
                fee: Tokens128 { amount: 0 },
                timestamp,
                status: TransactionStatus::Succeeded,
                operation: Operation::Burn,
            }),
    {
        TxRecord {
            caller: Some(caller),
            index,
            from,
            to: from,
            amount,
            fee: Tokens128 { amount: 0 },
            timestamp,
            status: TransactionStatus::Succeeded,
            operation: Operation::Burn,
        }
    }

    /// An auction record documents tokens leaving the fee pool towards one
    /// bidder; all identity fields name the bidder.
    pub fn auction(index: TxId, to: Principal, amount: Tokens128, timestamp: u64) -> (r: TxRecord)
        ensures
            r == (TxRecord {
                caller: Some(to),
                index,
                from: to,
                to,
                amount,
                fee: Tokens128 { amount: 0 },
                timestamp,
                status: TransactionStatus::Succeeded,
                operation: Operation::Auction,
            }),
    {
        TxRecord {
            caller: Some(to),
            index,
            from: to,
            to,
            amount,
            fee: Tokens128 { amount: 0 },
            timestamp,
            status: TransactionStatus::Succeeded,
            operation: Operation::Auction,
        }
    }
}

} // verus!
