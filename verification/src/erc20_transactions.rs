use vstd::prelude::*;

use crate::balances::Balances;
use crate::ledger::appended;
use crate::principal::Principal;
use crate::state::CanisterState;
use crate::table::lemma_lookup_le_sum;
use crate::tokens::Tokens128;
use crate::tx_record::TxRecord;
use crate::types::Operation;
use crate::types::StatsData;
use crate::types::TransactionStatus;
use crate::types::TxError;
use crate::types::TxId;
use crate::types::TxReceipt;
use crate::types::FEE_RATIO_SCALE;

verus! {

/// The balance book after a fee-charged movement of `amount` from `from` to
/// `to`: the additive formula covers every aliasing of the four accounts
/// involved, and the total is conserved.
pub open spec fn balances_moved(
    pre: Balances,
    post: Balances,
    from: Principal,
    to: Principal,
    amount: u128,
    fee: u128,
    fee_to: Principal,
    fee_ratio_e12: u64,
) -> bool {
    let auction_part = auction_share(fee, fee_ratio_e12);
    let owner_part = fee - auction_part;
    &&& post.wf()
    &&& post.total() == pre.total()
    &&& forall|p: Principal|
        post.balance(p) == pre.balance(p) - (if p == from {
            amount + fee
        } else {
            0
        }) + (if p == to {
            amount as int
        } else {
            0
        }) + (if p == fee_to {
            owner_part
        } else {
            0
        }) + (if p == Principal::Auction {
            auction_part
        } else {
            0
        })
}

/// The part of a fee routed to the auction pool: the fee scaled by the
/// stored ratio numerator, with truncating integer division.
pub open spec fn auction_share(fee: u128, fee_ratio_e12: u64) -> int {
    fee * fee_ratio_e12 / (FEE_RATIO_SCALE as int)
}

pub proof fn lemma_auction_share_le_fee(fee: u128, fee_ratio_e12: u64)
    requires
        fee_ratio_e12 <= FEE_RATIO_SCALE,
    ensures
        0 <= auction_share(fee, fee_ratio_e12) <= fee,
{
    let k = FEE_RATIO_SCALE as int;
    assert(fee * fee_ratio_e12 <= fee * k) by (nonlinear_arith)
        requires
            fee_ratio_e12 <= k,
            fee >= 0,
    ;
    vstd::arithmetic::div_mod::lemma_div_is_ordered(
        fee * fee_ratio_e12,
        fee * k,
        k,
    );
    vstd::arithmetic::div_mod::lemma_div_multiples_vanish(fee as int, k);
    vstd::arithmetic::div_mod::lemma_div_pos_is_pos(fee * fee_ratio_e12, k);
    assert(fee * fee_ratio_e12 >= 0) by (nonlinear_arith)
        requires
            fee >= 0,
            fee_ratio_e12 >= 0,
    ;
}

/// Computes the auction part of `fee` without widening past 128 bits, by
/// splitting the fee at the ratio scale.
fn auction_share_exec(fee: Tokens128, fee_ratio_e12: u64) -> (r: Tokens128)
    requires
        fee_ratio_e12 <= FEE_RATIO_SCALE,
    ensures
        r.amount == auction_share(fee.amount, fee_ratio_e12),
{
    let k: u128 = FEE_RATIO_SCALE as u128;
    let ratio: u128 = fee_ratio_e12 as u128;
    let q: u128 = fee.amount / k;
    let rem: u128 = fee.amount % k;
    proof {
        let ki = k as int;
        vstd::arithmetic::div_mod::lemma_fundamental_div_mod(fee.amount as int, ki);
        // q * ratio is bounded by the fee itself.
        assert(q * ratio <= q * ki) by (nonlinear_arith)
            requires
                ratio <= ki,
                q >= 0,
        ;
        assert(q * ki <= fee.amount) by (nonlinear_arith)
            requires
                fee.amount == ki * q + rem,
                rem >= 0,
                q >= 0,
                ki > 0,
        ;
        assert(rem * ratio < ki * ki) by (nonlinear_arith)
            requires
                0 <= rem < ki,
                0 <= ratio <= ki,
                ki > 0,
        ;
        // The split equals the mathematical truncating share.
        vstd::arithmetic::div_mod::lemma_hoist_over_denominator(
            rem * ratio,
            q * ratio,
            k as nat,
        );
        assert(rem * ratio + (q * ratio) * ki == fee.amount * ratio) by (nonlinear_arith)
            requires
                fee.amount == ki * q + rem,
        ;
        vstd::arithmetic::div_mod::lemma_div_pos_is_pos(rem * ratio, ki);
        assert(rem * ratio >= 0) by (nonlinear_arith)
            requires
                rem >= 0,
                ratio >= 0,
        ;
        lemma_auction_share_le_fee(fee.amount, fee_ratio_e12);
    }
    let part: u128 = q * ratio + (rem * ratio) / k;
    Tokens128 { amount: part }
}

/// Moves `amount` from `from` to `to`. With a zero amount, or `from == to`,
/// nothing changes. Fails with `InsufficientBalance`, changing nothing, when
/// the source balance is short; conservation of the total is guaranteed.
pub fn transfer_balance(
    balances: &mut Balances,
    from: Principal,
    to: Principal,
    amount: Tokens128,
) -> (r: Result<(), TxError>)
    requires
        old(balances).wf(),
    ensures
        final(balances).wf(),
        r is Ok <==> (amount.amount == 0 || old(balances).balance(from) >= amount.amount),
        r is Err ==> r == Result::<(), TxError>::Err(TxError::InsufficientBalance)
            && *final(balances) == *old(balances),
        final(balances).total() == old(balances).total(),
        r is Ok && from != to ==> {
            &&& final(balances).balance(from) == old(balances).balance(from) - amount.amount
            &&& final(balances).balance(to) == old(balances).balance(to) + amount.amount
            &&& forall|p: Principal|
                p != from && p != to ==> final(balances).balance(p) == old(balances).balance(p)
        },
        r is Ok && from == to ==> *final(balances) == *old(balances),
        amount.amount == 0 ==> *final(balances) == *old(balances),
    {
    if amount.is_zero() {
        return Ok(());
    }
    let from_balance = balances.balance_of(&from);
    if from_balance.amount < amount.amount {
        return Err(TxError::InsufficientBalance);
    }
    if from == to {
        return Ok(());
    }
    balances.debit(from, amount.amount);
    balances.credit(to, amount.amount);
    Ok(())
}

/// Splits `fee` between the fee recipient and the auction pool and moves both
/// parts out of `user`'s balance. The caller must have established that the
/// user holds at least the fee; the move then cannot fail, and the balance of
/// every account changes exactly by the additive fee-split formula.
pub(crate) fn charge_fee(
    balances: &mut Balances,
    user: Principal,
    fee_to: Principal,
    fee: Tokens128,
    fee_ratio_e12: u64,
)
    requires
        old(balances).wf(),
        fee_ratio_e12 <= FEE_RATIO_SCALE,
        old(balances).balance(user) >= fee.amount,
    ensures
        final(balances).wf(),
        final(balances).total() == old(balances).total(),
        ({
            let auction_part = auction_share(fee.amount, fee_ratio_e12);
            let owner_part = fee.amount - auction_part;
            forall|p: Principal|
                final(balances).balance(p) == old(balances).balance(p) - (if p == user {
                    fee.amount as int
                } else {
                    0
                }) + (if p == fee_to {
                    owner_part
                } else {
                    0
                }) + (if p == Principal::Auction {
                    auction_part
                } else {
                    0
                })
        }),
{
    if fee.is_zero() {
        proof {
            assert(auction_share(0, fee_ratio_e12) == 0) by {
                lemma_auction_share_le_fee(0, fee_ratio_e12);
            }
        }
        return ;
    }
    proof {
        lemma_auction_share_le_fee(fee.amount, fee_ratio_e12);
    }
    let auction_fee_amount = auction_share_exec(fee, fee_ratio_e12);
    let owner_fee_amount = Tokens128 { amount: fee.amount - auction_fee_amount.amount };
    let r1 = transfer_balance(balances, user, fee_to, owner_fee_amount);
    proof {
        assert(r1 is Ok);
    }
    let r2 = transfer_balance(balances, user, Principal::Auction, auction_fee_amount);
    proof {
        assert(r2 is Ok);
    }
}

/// The error a transfer reports, by validation order: fee limit, overflow,
/// then balance.
pub open spec fn transfer_error(
    pre: CanisterState,
    amount: Tokens128,
    fee_limit: Option<Tokens128>,
) -> TxError {
    if (match fee_limit {
        Some(l) => pre.stats.fee.amount > l.amount,
        None => false,
    }) {
        TxError::FeeExceededLimit
    } else if amount.amount + pre.stats.fee.amount > u128::MAX {
        TxError::AmountOverflow
    } else {
        TxError::InsufficientBalance
    }
}

/// When a transfer is owed success: the fee is within the limit, the debit
/// does not overflow, and the sender covers amount plus fee.
pub open spec fn transfer_ok_cond(
    pre: CanisterState,
    caller: Principal,
    amount: Tokens128,
    fee_limit: Option<Tokens128>,
) -> bool {
    &&& (match fee_limit {
        Some(l) => pre.stats.fee.amount <= l.amount,
        None => true,
    })
    &&& amount.amount + pre.stats.fee.amount <= u128::MAX
    &&& pre.balances.balance(caller) >= amount.amount + pre.stats.fee.amount
}

/// The state after a successful transfer: the balances moved by the additive
/// fee-split formula, and one transfer record was appended.
pub open spec fn transfer_ok_post(
    pre: CanisterState,
    post: CanisterState,
    caller: Principal,
    to: Principal,
    amount: Tokens128,
    fee_ratio_e12: u64,
    now: u64,
) -> bool {
    &&& balances_moved(
        pre.balances,
        post.balances,
        caller,
        to,
        amount.amount,
        pre.stats.fee.amount,
        pre.stats.fee_to,
        fee_ratio_e12,
    )
    &&& post.stats == pre.stats
    &&& post.allowances == pre.allowances
    &&& appended(
        pre.ledger,
        post.ledger,
        (TxRecord {
            caller: Some(caller),
            index: pre.ledger.next_id_spec() as TxId,
            from: caller,
            to,
            amount,
            fee: pre.stats.fee,
            timestamp: now,
            status: TransactionStatus::Succeeded,
            operation: Operation::Transfer,
        }),
    )
}

/// Moves `amount` from the caller to `to` (European-style fee: the recipient
/// receives the full amount, the sender is debited amount plus fee), charges
/// and splits the fee, and appends one transfer record. All validations run
/// before any state change; on error nothing changes.
pub fn transfer(
    state: &mut CanisterState,
    caller: Principal,
    to: Principal,
    amount: Tokens128,
    fee_limit: Option<Tokens128>,
    fee_ratio_e12: u64,
    now: u64,
) -> (r: TxReceipt)
    requires
        old(state).wf(),
        caller != to,
        fee_ratio_e12 <= FEE_RATIO_SCALE,
        old(state).ledger.next_id_spec() < u64::MAX,
    ensures
        final(state).wf(),
        r is Ok <==> transfer_ok_cond(*old(state), caller, amount, fee_limit),
        r is Err ==> *final(state) == *old(state) && r == Result::<TxId, TxError>::Err(
            transfer_error(*old(state), amount, fee_limit),
        ),
        r is Ok ==> r == Result::<TxId, TxError>::Ok(old(state).ledger.next_id_spec() as TxId)
            && transfer_ok_post(*old(state), *final(state), caller, to, amount, fee_ratio_e12, now),
{
    let (fee, fee_to) = state.stats.fee_info();
    if let Some(limit) = fee_limit {
        if fee.amount > limit.amount {
            return Err(TxError::FeeExceededLimit);
        }
    }
    let value_with_fee = match amount.checked_add(fee) {
        Some(v) => v,
        None => {
            return Err(TxError::AmountOverflow);
        },
    };
    let caller_balance = state.balances.balance_of(&caller);
    if caller_balance.amount < value_with_fee.amount {
        return Err(TxError::InsufficientBalance);
    }
    charge_fee(&mut state.balances, caller, fee_to, fee, fee_ratio_e12);
    proof {
        lemma_auction_share_le_fee(fee.amount, fee_ratio_e12);
        assert(state.balances.balance(caller) >= amount.amount);
    }
    let moved = transfer_balance(&mut state.balances, caller, to, amount);
    proof {
        assert(moved is Ok);
    }
    let id = state.ledger.transfer(caller, to, amount, fee, now);
    Ok(id)
}

/// The state after a successful American-style transfer: the recipient got
/// amount minus fee, the sender paid exactly `amount`, and the appended
/// record carries the moved value beside the fee.
pub open spec fn transfer_include_fee_ok_post(
    pre: CanisterState,
    post: CanisterState,
    caller: Principal,
    to: Principal,
    amount: Tokens128,
    fee_ratio_e12: u64,
    now: u64,
) -> bool {
    let value = (amount.amount - pre.stats.fee.amount) as u128;
    &&& balances_moved(
        pre.balances,
        post.balances,
        caller,
        to,
        value,
        pre.stats.fee.amount,
        pre.stats.fee_to,
        fee_ratio_e12,
    )
    &&& post.stats == pre.stats
    &&& post.allowances == pre.allowances
    &&& appended(
        pre.ledger,
        post.ledger,
        (TxRecord {
            caller: Some(caller),
            index: pre.ledger.next_id_spec() as TxId,
            from: caller,
            to,
            amount: (Tokens128 { amount: value }),
            fee: pre.stats.fee,
            timestamp: now,
            status: TransactionStatus::Succeeded,
            operation: Operation::Transfer,
        }),
    )
}

/// Moves `amount` out of the caller with an American-style fee: the
/// recipient receives amount minus fee, and the sender is debited exactly
/// `amount`. An amount not exceeding the fee is rejected as too small.
pub fn transfer_include_fee(
    state: &mut CanisterState,
    caller: Principal,
    to: Principal,
    amount: Tokens128,
    fee_ratio_e12: u64,
    now: u64,
) -> (r: TxReceipt)
    requires
        old(state).wf(),
        caller != to,
        fee_ratio_e12 <= FEE_RATIO_SCALE,
        old(state).ledger.next_id_spec() < u64::MAX,
    ensures
        final(state).wf(),
        r is Ok <==> (amount.amount > old(state).stats.fee.amount && old(state).balances.balance(
            caller,
        ) >= amount.amount),
        r is Err ==> *final(state) == *old(state) && r == Result::<TxId, TxError>::Err(
            if amount.amount <= old(state).stats.fee.amount {
                TxError::AmountTooSmall
            } else {
                TxError::InsufficientBalance
            },
        ),
        r is Ok ==> r == Result::<TxId, TxError>::Ok(old(state).ledger.next_id_spec() as TxId)
            && transfer_include_fee_ok_post(*old(state), *final(state), caller, to, amount, fee_ratio_e12, now),
{
    let (fee, fee_to) = state.stats.fee_info();
    if amount.amount <= fee.amount {
        return Err(TxError::AmountTooSmall);
    }
    let value = Tokens128 { amount: amount.amount - fee.amount };
    let caller_balance = state.balances.balance_of(&caller);
    if caller_balance.amount < amount.amount {
        return Err(TxError::InsufficientBalance);
    }
    charge_fee(&mut state.balances, caller, fee_to, fee, fee_ratio_e12);
    proof {
        lemma_auction_share_le_fee(fee.amount, fee_ratio_e12);
        assert(state.balances.balance(caller) >= value.amount);
    }
    let moved = transfer_balance(&mut state.balances, caller, to, value);
    proof {
        assert(moved is Ok);
    }
    let id = state.ledger.transfer(caller, to, value, fee, now);
    Ok(id)
}

/// The error a delegated transfer reports, by validation order: overflow,
/// allowance, then balance.
pub open spec fn transfer_from_error(
    pre: CanisterState,
    caller: Principal,
    from: Principal,
    amount: Tokens128,
) -> TxError {
    if amount.amount + pre.stats.fee.amount > u128::MAX {
        TxError::AmountOverflow
    } else if pre.allowances.allowance(from, caller) < amount.amount + pre.stats.fee.amount {
        TxError::InsufficientAllowance
    } else {
        TxError::InsufficientBalance
    }
}

/// When a delegated transfer is owed success: no overflow, and both the
/// allowance granted to the caller and the source balance cover amount plus
/// fee.
pub open spec fn transfer_from_ok_cond(
    pre: CanisterState,
    caller: Principal,
    from: Principal,
    amount: Tokens128,
) -> bool {
    &&& amount.amount + pre.stats.fee.amount <= u128::MAX
    &&& pre.allowances.allowance(from, caller) >= amount.amount + pre.stats.fee.amount
    &&& pre.balances.balance(from) >= amount.amount + pre.stats.fee.amount
}

/// The state after a successful delegated transfer: the balances moved by
/// the additive fee-split formula, the spent allowance shrank by amount plus
/// fee (pruned at zero), and one record was appended.
pub open spec fn transfer_from_ok_post(
    pre: CanisterState,
    post: CanisterState,
    caller: Principal,
    from: Principal,
    to: Principal,
    amount: Tokens128,
    fee_ratio_e12: u64,
    now: u64,
) -> bool {
    let value_with_fee = amount.amount + pre.stats.fee.amount;
    &&& balances_moved(
        pre.balances,
        post.balances,
        from,
        to,
        amount.amount,
        pre.stats.fee.amount,
        pre.stats.fee_to,
        fee_ratio_e12,
    )
    &&& post.stats == pre.stats
    &&& post.allowances.wf()
    &&& post.allowances.allowance(from, caller) == pre.allowances.allowance(from, caller)
        - value_with_fee
    &&& post.allowances.holds(from, caller) == (pre.allowances.allowance(from, caller)
        - value_with_fee != 0)
    &&& forall|o: Principal, s: Principal|
        (o, s) != (from, caller) ==> post.allowances.allowance(o, s) == pre.allowances.allowance(
            o,
            s,
        )
    &&& appended(
        pre.ledger,
        post.ledger,
        (TxRecord {
            caller: Some(caller),
            index: pre.ledger.next_id_spec() as TxId,
            from,
            to,
            amount,
            fee: pre.stats.fee,
            timestamp: now,
            status: TransactionStatus::Succeeded,
            operation: Operation::TransferFrom,
        }),
    )
}

/// Spends the caller's allowance to move `amount` from `from` to `to`. The
/// fee is paid by `from` and the allowance is reduced by amount plus fee,
/// with the zero-elision rule applied.
pub fn transfer_from(
    state: &mut CanisterState,
    caller: Principal,
    from: Principal,
    to: Principal,
    amount: Tokens128,
    fee_ratio_e12: u64,
    now: u64,
) -> (r: TxReceipt)
    requires
        old(state).wf(),
        from != to,
        caller != from,
        caller != to,
        fee_ratio_e12 <= FEE_RATIO_SCALE,
        old(state).ledger.next_id_spec() < u64::MAX,
    ensures
        final(state).wf(),
        r is Ok <==> transfer_from_ok_cond(*old(state), caller, from, amount),
        r is Err ==> *final(state) == *old(state) && r == Result::<TxId, TxError>::Err(
            transfer_from_error(*old(state), caller, from, amount),
        ),
        r is Ok ==> r == Result::<TxId, TxError>::Ok(old(state).ledger.next_id_spec() as TxId)
            && transfer_from_ok_post(*old(state), *final(state), caller, from, to, amount, fee_ratio_e12, now),
{
    let from_allowance = state.allowances.allowance_of(from, caller);
    let (fee, fee_to) = state.stats.fee_info();
    let value_with_fee = match amount.checked_add(fee) {
        Some(v) => v,
        None => {
            return Err(TxError::AmountOverflow);
        },
    };
    if from_allowance.amount < value_with_fee.amount {
        return Err(TxError::InsufficientAllowance);
    }
    let from_balance = state.balances.balance_of(&from);
    if from_balance.amount < value_with_fee.amount {
        return Err(TxError::InsufficientBalance);
    }
    charge_fee(&mut state.balances, from, fee_to, fee, fee_ratio_e12);
    proof {
        lemma_auction_share_le_fee(fee.amount, fee_ratio_e12);
        assert(state.balances.balance(from) >= amount.amount);
    }
    let moved = transfer_balance(&mut state.balances, from, to, amount);
    proof {
        assert(moved is Ok);
    }
    state.allowances.decrement_allowance(from, caller, value_with_fee.amount);
    let id = state.ledger.transfer_from(caller, from, to, amount, fee, now);
    Ok(id)
}

/// The state after a successful approval: the fee has moved by the split
/// formula, the stored bound is amount plus fee (pruned when zero), and one
/// approve record was appended.
pub open spec fn approve_ok_post(
    pre: CanisterState,
    post: CanisterState,
    caller: Principal,
    spender: Principal,
    amount: Tokens128,
    fee_ratio_e12: u64,
    now: u64,
) -> bool {
    let amount_with_fee = amount.amount + pre.stats.fee.amount;
    &&& balances_moved(
        pre.balances,
        post.balances,
        caller,
        spender,
        0,
        pre.stats.fee.amount,
        pre.stats.fee_to,
        fee_ratio_e12,
    )
    &&& post.stats == pre.stats
    &&& post.allowances.wf()
    &&& post.allowances.allowance(caller, spender) == amount_with_fee
    &&& post.allowances.holds(caller, spender) == (amount_with_fee != 0)
    &&& post.allowances.entries@.len() == pre.allowances.entries@.len() + (if amount_with_fee != 0
        && !pre.allowances.holds(caller, spender) {
        1int
    } else if amount_with_fee == 0 && pre.allowances.holds(caller, spender) {
        -1int
    } else {
        0int
    })
    &&& forall|o: Principal, s: Principal|
        (o, s) != (caller, spender) ==> post.allowances.allowance(o, s) == pre.allowances.allowance(
            o,
            s,
        )
    &&& appended(
        pre.ledger,
        post.ledger,
        (TxRecord {
            caller: Some(caller),
            index: pre.ledger.next_id_spec() as TxId,
            from: caller,
            to: spender,
            amount,
            fee: pre.stats.fee,
            timestamp: now,
            status: TransactionStatus::Succeeded,
            operation: Operation::Approve,
        }),
    )
}

/// Sets the caller's approval for `spender` to amount plus fee (the spender
/// pays the fee of the later delegated transfer out of the allowance),
/// charging the approval fee to the caller. A resulting zero allowance is
/// pruned. The record carries the requested amount, not the stored bound.
pub fn approve(
    state: &mut CanisterState,
    caller: Principal,
    spender: Principal,
    amount: Tokens128,
    fee_ratio_e12: u64,
    now: u64,
) -> (r: TxReceipt)
    requires
        old(state).wf(),
        caller != spender,
        fee_ratio_e12 <= FEE_RATIO_SCALE,
        old(state).ledger.next_id_spec() < u64::MAX,
    ensures
        final(state).wf(),
        r is Ok <==> (old(state).balances.balance(caller) >= old(state).stats.fee.amount
            && amount.amount + old(state).stats.fee.amount <= u128::MAX),
        r is Err ==> *final(state) == *old(state) && r == Result::<TxId, TxError>::Err(
            if old(state).balances.balance(caller) < old(state).stats.fee.amount {
                TxError::InsufficientBalance
            } else {
                TxError::AmountOverflow
            },
        ),
        r is Ok ==> r == Result::<TxId, TxError>::Ok(old(state).ledger.next_id_spec() as TxId)
            && approve_ok_post(*old(state), *final(state), caller, spender, amount, fee_ratio_e12, now),
{
    let (fee, fee_to) = state.stats.fee_info();
    let caller_balance = state.balances.balance_of(&caller);
    if caller_balance.amount < fee.amount {
        return Err(TxError::InsufficientBalance);
    }
    let amount_with_fee = match amount.checked_add(fee) {
        Some(v) => v,
        None => {
            return Err(TxError::AmountOverflow);
        },
    };
    charge_fee(&mut state.balances, caller, fee_to, fee, fee_ratio_e12);
    state.allowances.set_allowance(caller, spender, amount_with_fee.amount);
    let id = state.ledger.approve(caller, spender, amount, fee, now);
    Ok(id)
}

/// The state after a successful mint: the supply grew by `amount`, all of it
/// credited to `to`, and one fee-less mint record was appended.
pub open spec fn mint_ok_post(
    pre: CanisterState,
    post: CanisterState,
    caller: Principal,
    to: Principal,
    amount: Tokens128,
    now: u64,
) -> bool {
    &&& post.stats.total_supply.amount == pre.stats.total_supply.amount + amount.amount
    &&& post.stats == (StatsData { total_supply: post.stats.total_supply, ..pre.stats })
    &&& post.balances.wf()
    &&& post.balances.balance(to) == pre.balances.balance(to) + amount.amount
    &&& forall|p: Principal| p != to ==> post.balances.balance(p) == pre.balances.balance(p)
    &&& post.allowances == pre.allowances
    &&& appended(
        pre.ledger,
        post.ledger,
        (TxRecord {
            caller: Some(caller),
            index: pre.ledger.next_id_spec() as TxId,
            from: caller,
            to,
            amount,
            fee: Tokens128 { amount: 0 },
            timestamp: now,
            status: TransactionStatus::Succeeded,
            operation: Operation::Mint,
        }),
    )
}

/// Creates `amount` new tokens for `to`, growing the total supply, and
/// appends a fee-less mint record. Authorization is the caller's concern;
/// this core is invoked with an already-checked caller.
pub fn mint(
    state: &mut CanisterState,
    caller: Principal,
    to: Principal,
    amount: Tokens128,
    now: u64,
) -> (r: TxReceipt)
    requires
        old(state).wf(),
        old(state).ledger.next_id_spec() < u64::MAX,
    ensures
        final(state).wf(),
        r is Ok <==> old(state).stats.total_supply.amount + amount.amount <= u128::MAX,
        r is Err ==> *final(state) == *old(state) && r == Result::<TxId, TxError>::Err(
            TxError::AmountOverflow,
        ),
        r is Ok ==> r == Result::<TxId, TxError>::Ok(old(state).ledger.next_id_spec() as TxId)
            && mint_ok_post(*old(state), *final(state), caller, to, amount, now),
{
    let new_supply = match state.stats.total_supply.checked_add(amount) {
        Some(v) => v,
        None => {
            return Err(TxError::AmountOverflow);
        },
    };
    state.stats.total_supply = new_supply;
    if amount.amount > 0 {
        state.balances.credit(to, amount.amount);
    }
    let id = state.ledger.mint(caller, to, amount, now);
    Ok(id)
}

/// The state after a successful burn: the supply shrank by `amount`, all of
/// it debited from `from`, and one fee-less burn record was appended.
pub open spec fn burn_ok_post(
    pre: CanisterState,
    post: CanisterState,
    caller: Principal,
    from: Principal,
    amount: Tokens128,
    now: u64,
) -> bool {
    &&& post.stats.total_supply.amount == pre.stats.total_supply.amount - amount.amount
    &&& post.stats == (StatsData { total_supply: post.stats.total_supply, ..pre.stats })
    &&& post.balances.wf()
    &&& post.balances.balance(from) == pre.balances.balance(from) - amount.amount
    &&& forall|p: Principal| p != from ==> post.balances.balance(p) == pre.balances.balance(p)
    &&& post.allowances == pre.allowances
    &&& appended(
        pre.ledger,
        post.ledger,
        (TxRecord {
            caller: Some(caller),
            index: pre.ledger.next_id_spec() as TxId,
            from,
            to: from,
            amount,
            fee: Tokens128 { amount: 0 },
            timestamp: now,
            status: TransactionStatus::Succeeded,
            operation: Operation::Burn,
        }),
    )
}

/// Destroys `amount` tokens of `from`, shrinking the total supply, and
/// appends a fee-less burn record. An absent account can only burn zero.
/// Authorization is the caller's concern; this core is invoked with an
/// already-checked caller.
pub fn burn(
    state: &mut CanisterState,
    caller: Principal,
    from: Principal,
    amount: Tokens128,
    now: u64,
) -> (r: TxReceipt)
    requires
        old(state).wf(),
        old(state).ledger.next_id_spec() < u64::MAX,
    ensures
        final(state).wf(),
        r is Ok <==> old(state).balances.balance(from) >= amount.amount,
        r is Err ==> *final(state) == *old(state) && r == Result::<TxId, TxError>::Err(
            TxError::InsufficientBalance,
        ),
        r is Ok ==> r == Result::<TxId, TxError>::Ok(old(state).ledger.next_id_spec() as TxId)
            && burn_ok_post(*old(state), *final(state), caller, from, amount, now),
{
    let from_balance = state.balances.balance_of(&from);
    if from_balance.amount < amount.amount {
        return Err(TxError::InsufficientBalance);
    }
    proof {
        lemma_lookup_le_sum(state.balances.entries@, from);
    }
    if amount.amount > 0 {
        state.balances.debit(from, amount.amount);
    }
    state.stats.total_supply = Tokens128 { amount: state.stats.total_supply.amount
        - amount.amount };
    let id = state.ledger.burn(caller, from, amount, now);
    Ok(id)
}

/// Mint entry for test tokens: any caller may mint once the instance is
/// marked as a test token.
pub fn mint_test_token(
    state: &mut CanisterState,
    caller: Principal,
    to: Principal,
    amount: Tokens128,
    now: u64,
) -> (r: TxReceipt)
    requires
        old(state).wf(),
        old(state).stats.is_test_token,
        old(state).ledger.next_id_spec() < u64::MAX,
    ensures
        final(state).wf(),
        r is Ok <==> old(state).stats.total_supply.amount + amount.amount <= u128::MAX,
        r is Err ==> *final(state) == *old(state) && r == Result::<TxId, TxError>::Err(
            TxError::AmountOverflow,
        ),
        r is Ok ==> r == Result::<TxId, TxError>::Ok(old(state).ledger.next_id_spec() as TxId)
            && mint_ok_post(*old(state), *final(state), caller, to, amount, now),
{
    mint(state, caller, to, amount, now)
}

/// Mint entry for the owner of a regular token instance.
pub fn mint_as_owner(
    state: &mut CanisterState,
    caller: Principal,
    to: Principal,
    amount: Tokens128,
    now: u64,
) -> (r: TxReceipt)
    requires
        old(state).wf(),
        caller == old(state).stats.owner,
        old(state).ledger.next_id_spec() < u64::MAX,
    ensures
        final(state).wf(),
        r is Ok <==> old(state).stats.total_supply.amount + amount.amount <= u128::MAX,
        r is Err ==> *final(state) == *old(state) && r == Result::<TxId, TxError>::Err(
            TxError::AmountOverflow,
        ),
        r is Ok ==> r == Result::<TxId, TxError>::Ok(old(state).ledger.next_id_spec() as TxId)
            && mint_ok_post(*old(state), *final(state), caller, to, amount, now),
{
    mint(state, caller, to, amount, now)
}

/// Burns the caller's own tokens.
pub fn burn_own_tokens(
    state: &mut CanisterState,
    caller: Principal,
    amount: Tokens128,
    now: u64,
) -> (r: TxReceipt)
    requires
        old(state).wf(),
        old(state).ledger.next_id_spec() < u64::MAX,
    ensures
        final(state).wf(),
        r is Ok <==> old(state).balances.balance(caller) >= amount.amount,
        r is Err ==> *final(state) == *old(state) && r == Result::<TxId, TxError>::Err(
            TxError::InsufficientBalance,
        ),
        r is Ok ==> r == Result::<TxId, TxError>::Ok(old(state).ledger.next_id_spec() as TxId)
            && burn_ok_post(*old(state), *final(state), caller, caller, amount, now),
{
    burn(state, caller, caller, amount, now)
}

/// Burns tokens of an arbitrary holder; only the owner may do that.
pub fn burn_as_owner(
    state: &mut CanisterState,
    caller: Principal,
    from: Principal,
    amount: Tokens128,
    now: u64,
) -> (r: TxReceipt)
    requires
        old(state).wf(),
        caller == old(state).stats.owner,
        old(state).ledger.next_id_spec() < u64::MAX,
    ensures
        final(state).wf(),
        r is Ok <==> old(state).balances.balance(from) >= amount.amount,
        r is Err ==> *final(state) == *old(state) && r == Result::<TxId, TxError>::Err(
            TxError::InsufficientBalance,
        ),
        r is Ok ==> r == Result::<TxId, TxError>::Ok(old(state).ledger.next_id_spec() as TxId)
            && burn_ok_post(*old(state), *final(state), caller, from, amount, now),
{
    burn(state, caller, from, amount, now)
}

/// The sum the sender pays for a batch: each amount plus one fee per entry.
pub open spec fn batch_total(ts: Seq<(Principal, Tokens128)>, fee: u128) -> int
    decreases ts.len(),
{
    if ts.len() == 0 {
        0
    } else {
        batch_total(ts.drop_last(), fee) + ts.last().1.amount + fee
    }
}

/// What a batch credits to account `p`: the amounts of all entries naming it.
pub open spec fn batch_credited(ts: Seq<(Principal, Tokens128)>, p: Principal) -> int
    decreases ts.len(),
{
    if ts.len() == 0 {
        0
    } else {
        batch_credited(ts.drop_last(), p) + (if ts.last().0 == p {
            ts.last().1.amount as int
        } else {
            0
        })
    }
}

proof fn lemma_batch_total_take(ts: Seq<(Principal, Tokens128)>, fee: u128, i: int)
    requires
        0 <= i < ts.len(),
    ensures
        batch_total(ts.take(i + 1), fee) == batch_total(ts.take(i), fee) + ts[i].1.amount + fee,
        batch_credited(ts.take(i + 1), ts[i].0) == batch_credited(ts.take(i), ts[i].0)
            + ts[i].1.amount,
        forall|p: Principal|
            p != ts[i].0 ==> batch_credited(ts.take(i + 1), p) == batch_credited(ts.take(i), p),
{
    assert(ts.take(i + 1).drop_last() =~= ts.take(i));
    assert(ts.take(i + 1).last() == ts[i]);
}

proof fn lemma_batch_total_mono(ts: Seq<(Principal, Tokens128)>, fee: u128, i: int)
    requires
        0 <= i <= ts.len(),
    ensures
        batch_total(ts.take(i), fee) <= batch_total(ts, fee),
    decreases ts.len() - i,
{
    if i == ts.len() {
        assert(ts.take(i) =~= ts);
    } else {
        lemma_batch_total_take(ts, fee, i);
        lemma_batch_total_mono(ts, fee, i + 1);
    }
}

/// Transfers to several recipients in one all-or-nothing batch: the guards
/// and the total debit are validated up front, then each pair is applied and
/// recorded in list order. The returned ids are consecutive.
#[verifier::loop_isolation(false)]
pub fn batch_transfer(
    state: &mut CanisterState,
    caller: Principal,
    transfers: Vec<(Principal, Tokens128)>,
    fee_ratio_e12: u64,
    now: u64,
) -> (r: Result<Vec<TxId>, TxError>)
    requires
        old(state).wf(),
        forall|i: int| 0 <= i < transfers@.len() ==> (#[trigger] transfers@[i]).0 != caller,
        fee_ratio_e12 <= FEE_RATIO_SCALE,
        old(state).ledger.next_id_spec() + transfers@.len() <= u64::MAX,
    ensures
        final(state).wf(),
        ({
            let fee = old(state).stats.fee.amount;
            let total = batch_total(transfers@, fee);
            &&& (r is Ok <==> (total <= u128::MAX && old(state).balances.balance(caller)
                >= total))
            &&& (r is Err ==> *final(state) == *old(state) && r == Result::<
                Vec<TxId>,
                TxError,
            >::Err(
                if total > u128::MAX {
                    TxError::AmountOverflow
                } else {
                    TxError::InsufficientBalance
                },
            ))
        }),
        r is Ok ==> ({
            let fee = old(state).stats.fee.amount;
            let fee_to = old(state).stats.fee_to;
            let n = transfers@.len() as int;
            let auction_part = auction_share(fee, fee_ratio_e12);
            let owner_part = fee - auction_part;
            let ids = r->Ok_0;
            &&& ids@.len() == n
            &&& forall|i: int|
                0 <= i < n ==> #[trigger] ids@[i] == old(state).ledger.next_id_spec() + i
            &&& final(state).balances.total() == old(state).balances.total()
            &&& forall|p: Principal|
                final(state).balances.balance(p) == old(state).balances.balance(p) - (if p
                    == caller {
                    batch_total(transfers@, fee)
                } else {
                    0
                }) + batch_credited(transfers@, p) + (if p == fee_to {
                    n * owner_part
                } else {
                    0
                }) + (if p == Principal::Auction {
                    n * auction_part
                } else {
                    0
                })
            &&& final(state).stats == old(state).stats
            &&& final(state).allowances == old(state).allowances
            &&& final(state).ledger.next_id_spec() == old(state).ledger.next_id_spec() + n
            &&& forall|i: int|
                0 <= i < n && old(state).ledger.next_id_spec() + i
                    >= final(state).ledger.vec_offset ==> final(state).ledger.get_spec(
                    (old(state).ledger.next_id_spec() + i) as TxId,
                ) == Some(
                    (TxRecord {
                        caller: Some(caller),
                        index: (old(state).ledger.next_id_spec() + i) as TxId,
                        from: caller,
                        to: (#[trigger] transfers@[i]).0,
                        amount: transfers@[i].1,
                        fee: old(state).stats.fee,
                        timestamp: now,
                        status: TransactionStatus::Succeeded,
                        operation: Operation::Transfer,
                    }),
                )
        }),
{
    let ghost pre = *state;
    let (fee, fee_to) = state.stats.fee_info();
    let n = transfers.len();

    // Validate the whole batch before touching any state.
    let mut total: u128 = 0;
    let mut i: usize = 0;
    proof {
        assert(transfers@.take(0) =~= Seq::<(Principal, Tokens128)>::empty());
    }
    while i < n
        invariant
            0 <= i <= n,
            n == transfers@.len(),
            total == batch_total(transfers@.take(i as int), fee.amount),
            fee == state.stats.fee,
            *state == pre,
        decreases n - i,
    {
        proof {
            lemma_batch_total_take(transfers@, fee.amount, i as int);
        }
        let step = match transfers[i].1.checked_add(fee) {
            Some(v) => v,
            None => {
                proof {
                    lemma_batch_total_mono(transfers@, fee.amount, i + 1);
                }
                return Err(TxError::AmountOverflow);
            },
        };
        total = match step.checked_add(Tokens128 { amount: total }) {
            Some(v) => v.amount,
            None => {
                proof {
                    lemma_batch_total_mono(transfers@, fee.amount, i + 1);
                }
                return Err(TxError::AmountOverflow);
            },
        };
        i = i + 1;
    }
    proof {
        assert(transfers@.take(n as int) =~= transfers@);
    }
    let caller_balance = state.balances.balance_of(&caller);
    if caller_balance.amount < total {
        return Err(TxError::InsufficientBalance);
    }

    // Apply the validated batch.
    let mut ids: Vec<TxId> = Vec::new();
    let mut k: usize = 0;
    proof {
        assert(transfers@.take(0) =~= Seq::<(Principal, Tokens128)>::empty());
        lemma_auction_share_le_fee(fee.amount, fee_ratio_e12);
    }
    while k < n
        invariant
            0 <= k <= n,
            n == transfers@.len(),
            pre.wf(),
            fee == pre.stats.fee,
            fee_to == pre.stats.fee_to,
            fee_ratio_e12 <= FEE_RATIO_SCALE,
            forall|i: int| 0 <= i < transfers@.len() ==> (#[trigger] transfers@[i]).0 != caller,
            pre.balances.balance(caller) >= batch_total(transfers@, fee.amount),
            batch_total(transfers@, fee.amount) <= u128::MAX,
            pre.ledger.next_id_spec() + transfers@.len() <= u64::MAX,
            state.balances.wf(),
            state.balances.total() == pre.balances.total(),
            forall|p: Principal|
                state.balances.balance(p) == pre.balances.balance(p) - (if p == caller {
                    batch_total(transfers@.take(k as int), fee.amount)
                } else {
                    0
                }) + batch_credited(transfers@.take(k as int), p) + (if p == fee_to {
                    k * (fee.amount - auction_share(fee.amount, fee_ratio_e12))
                } else {
                    0
                }) + (if p == Principal::Auction {
                    k * auction_share(fee.amount, fee_ratio_e12)
                } else {
                    0
                }),
            state.stats == pre.stats,
            state.allowances == pre.allowances,
            state.ledger.wf(),
            state.ledger.next_id_spec() == pre.ledger.next_id_spec() + k,
            ids@.len() == k,
            forall|i: int| 0 <= i < k ==> #[trigger] ids@[i] == pre.ledger.next_id_spec() + i,
            forall|i: int|
                0 <= i < k && pre.ledger.next_id_spec() + i >= state.ledger.vec_offset
                    ==> state.ledger.get_spec((pre.ledger.next_id_spec() + i) as TxId) == Some(
                    (TxRecord {
                        caller: Some(caller),
                        index: (pre.ledger.next_id_spec() + i) as TxId,
                        from: caller,
                        to: (#[trigger] transfers@[i]).0,
                        amount: transfers@[i].1,
                        fee,
                        timestamp: now,
                        status: TransactionStatus::Succeeded,
                        operation: Operation::Transfer,
                    }),
                ),
        decreases n - k,
    {
        let (to, amount) = transfers[k];
        proof {
            lemma_batch_total_take(transfers@, fee.amount, k as int);
            lemma_batch_total_mono(transfers@, fee.amount, k + 1);
            assert(batch_credited(transfers@.take(k as int), caller) == 0) by {
                lemma_batch_credited_absent(transfers@.take(k as int), caller);
            }
            let op = fee.amount - auction_share(fee.amount, fee_ratio_e12);
            let ap = auction_share(fee.amount, fee_ratio_e12);
            assert(k * op >= 0 && k * ap >= 0) by (nonlinear_arith)
                requires
                    k >= 0,
                    op >= 0,
                    ap >= 0,
            ;
            assert(state.balances.balance(caller) >= amount.amount + fee.amount);
        }
        charge_fee(&mut state.balances, caller, fee_to, fee, fee_ratio_e12);
        proof {
            assert(state.balances.balance(caller) >= amount.amount);
        }
        let moved = transfer_balance(&mut state.balances, caller, to, amount);
        proof {
            assert(moved is Ok);
        }
        let ghost ledger_before = state.ledger;
        let id = state.ledger.transfer(caller, to, amount, fee, now);
        ids.push(id);
        proof {
            assert forall|i: int|
                0 <= i < k + 1 && pre.ledger.next_id_spec() + i >= state.ledger.vec_offset
                    implies state.ledger.get_spec((pre.ledger.next_id_spec() + i) as TxId) == Some(
                (TxRecord {
                    caller: Some(caller),
                    index: (pre.ledger.next_id_spec() + i) as TxId,
                    from: caller,
                    to: (#[trigger] transfers@[i]).0,
                    amount: transfers@[i].1,
                    fee,
                    timestamp: now,
                    status: TransactionStatus::Succeeded,
                    operation: Operation::Transfer,
                }),
            ) by {
                let id_i = pre.ledger.next_id_spec() + i;
                if i < k {
                    assert(ledger_before.get_spec(id_i as TxId) == Some(
                        (TxRecord {
                            caller: Some(caller),
                            index: id_i as TxId,
                            from: caller,
                            to: transfers@[i].0,
                            amount: transfers@[i].1,
                            fee,
                            timestamp: now,
                            status: TransactionStatus::Succeeded,
                            operation: Operation::Transfer,
                        }),
                    ));
                }
            }
            let op = fee.amount - auction_share(fee.amount, fee_ratio_e12);
            let ap = auction_share(fee.amount, fee_ratio_e12);
            assert((k + 1) * op == k * op + op) by (nonlinear_arith);
            assert((k + 1) * ap == k * ap + ap) by (nonlinear_arith);
        }
        k = k + 1;
    }
    proof {
        assert(transfers@.take(n as int) =~= transfers@);
    }
    Ok(ids)
}

proof fn lemma_batch_credited_nonneg(ts: Seq<(Principal, Tokens128)>, p: Principal)
    ensures
        batch_credited(ts, p) >= 0,
    decreases ts.len(),
{
    if ts.len() > 0 {
        lemma_batch_credited_nonneg(ts.drop_last(), p);
    }
}

proof fn lemma_batch_credited_absent(ts: Seq<(Principal, Tokens128)>, p: Principal)
    requires
        forall|i: int| 0 <= i < ts.len() ==> (#[trigger] ts[i]).0 != p,
    ensures
        batch_credited(ts, p) == 0,
    decreases ts.len(),
{
    if ts.len() > 0 {
        lemma_batch_credited_absent(ts.drop_last(), p);
    }
}

} // verus!
