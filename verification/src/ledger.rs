use vstd::prelude::*;

use crate::principal::Principal;
use crate::tokens::Tokens128;
use crate::tx_record::TxRecord;
use crate::types::Operation;
use crate::types::PaginatedResult;
use crate::types::TransactionStatus;
use crate::types::TxId;

verus! {

/// Number of retained records above which the history is truncated.
pub const MAX_HISTORY_LENGTH: usize = 1_000_000;

/// Number of oldest records discarded in one truncation batch; batching
/// amortizes the cost of moving the retained records.
pub const HISTORY_REMOVAL_BATCH_SIZE: usize = 10_000;

/// Whether a record concerns `who` (when given) and lies at or before the
/// record `upto` (when given).
pub open spec fn tx_matches(tx: TxRecord, who: Option<Principal>, upto: Option<TxId>) -> bool {
    &&& match who {
        Some(p) => tx.from == p || tx.to == p || tx.caller == Some(p),
        None => true,
    }
    &&& match upto {
        Some(id) => tx.index <= id,
        None => true,
    }
}

/// The matching records of `h`, newest first.
pub open spec fn filtered_newest_first(
    h: Seq<TxRecord>,
    who: Option<Principal>,
    upto: Option<TxId>,
) -> Seq<TxRecord>
    decreases h.len(),
{
    if h.len() == 0 {
        Seq::empty()
    } else if tx_matches(h.last(), who, upto) {
        seq![h.last()] + filtered_newest_first(h.drop_last(), who, upto)
    } else {
        filtered_newest_first(h.drop_last(), who, upto)
    }
}

/// Every record selected by the filter is a retained record, and the
/// selection is ordered newest first (strictly decreasing ids).
pub proof fn lemma_filtered_newest_first(h: Seq<TxRecord>, who: Option<Principal>, upto: Option<
    TxId,
>)
    requires
        forall|i: int, j: int|
            0 <= i < j < h.len() ==> (#[trigger] h[i]).index < (#[trigger] h[j]).index,
    ensures
        filtered_newest_first(h, who, upto).len() <= h.len(),
        forall|k: int|
            0 <= k < filtered_newest_first(h, who, upto).len() ==> exists|i: int|
                0 <= i < h.len() && (#[trigger] filtered_newest_first(h, who, upto)[k]) == h[i],
        forall|k: int, l: int|
            0 <= k < l < filtered_newest_first(h, who, upto).len() ==> (
            #[trigger] filtered_newest_first(h, who, upto)[k]).index > (
            #[trigger] filtered_newest_first(h, who, upto)[l]).index,
    decreases h.len(),
{
    if h.len() > 0 {
        let rest = h.drop_last();
        lemma_filtered_newest_first(rest, who, upto);
        let f = filtered_newest_first(h, who, upto);
        let fr = filtered_newest_first(rest, who, upto);
        assert forall|k: int| 0 <= k < f.len() implies exists|i: int|
            0 <= i < h.len() && (#[trigger] f[k]) == h[i] by {
            if tx_matches(h.last(), who, upto) && k == 0 {
                assert(f[0] == h[h.len() - 1]);
            } else {
                let k2 = if tx_matches(h.last(), who, upto) {
                    k - 1
                } else {
                    k
                };
                assert(f[k] == fr[k2]);
                let i = choose|i: int| 0 <= i < rest.len() && fr[k2] == rest[i];
                assert(h[i] == rest[i]);
            }
        }
        assert forall|k: int, l: int| 0 <= k < l < f.len() implies (#[trigger] f[k]).index > (
        #[trigger] f[l]).index by {
            if tx_matches(h.last(), who, upto) {
                if k == 0 {
                    assert(f[0] == h.last());
                    assert(f[l] == fr[l - 1]);
                    let i = choose|i: int| 0 <= i < rest.len() && fr[l - 1] == rest[i];
                    assert(h[i] == rest[i]);
                    assert(h[i].index < h[h.len() - 1].index);
                } else {
                    assert(f[k] == fr[k - 1]);
                    assert(f[l] == fr[l - 1]);
                }
            } else {
                assert(f[k] == fr[k]);
                assert(f[l] == fr[l]);
            }
        }
    }
}

/// The append-only transaction history.
///
/// The public id of the record at physical position `i` is `vec_offset + i`;
/// truncation discards the oldest records in batches and advances
/// `vec_offset`, so ids stay stable while memory stays bounded. A pending
/// notification slot is kept per retained record.
#[derive(Debug)]
pub struct Ledger {
    pub history: Vec<TxRecord>,
    pub vec_offset: u64,
    pub notifications: Vec<(TxId, Option<Principal>)>,
}

/// Relation between a ledger and its state after appending `rec`: the record
/// is stored at the tail, and when the retained length would exceed the
/// ceiling, the oldest batch is discarded and the offset advanced.
pub open spec fn appended(pre: Ledger, post: Ledger, rec: TxRecord) -> bool {
    let grown = pre.history@.push(rec);
    let truncate = grown.len() > MAX_HISTORY_LENGTH + HISTORY_REMOVAL_BATCH_SIZE;
    &&& rec.index == pre.next_id()
    &&& post.history@ == (if truncate {
        grown.skip(HISTORY_REMOVAL_BATCH_SIZE as int)
    } else {
        grown
    })
    &&& post.vec_offset == (if truncate {
        pre.vec_offset + HISTORY_REMOVAL_BATCH_SIZE
    } else {
        pre.vec_offset as int
    })
    &&& post.next_id() == pre.next_id() + 1
}

impl Ledger {
    /// Representation invariant: the id of each retained record is its
    /// physical position displaced by `vec_offset`, ids fit in 64 bits, and
    /// one notification slot exists per retained record.
    pub open spec fn wf(self) -> bool {
        &&& forall|i: int|
            0 <= i < self.history@.len() ==> (#[trigger] self.history@[i]).index == self.vec_offset
                + i
        &&& self.vec_offset + self.history@.len() <= u64::MAX
        &&& self.notifications@.len() == self.history@.len()
        &&& forall|i: int|
            0 <= i < self.notifications@.len() ==> (#[trigger] self.notifications@[i]).0
                == self.vec_offset + i
    }

    /// The id the next appended record will receive; also the count of all
    /// records ever appended.
    pub open spec fn next_id_spec(self) -> int {
        self.vec_offset + self.history@.len()
    }

    #[verifier::inline]
    pub open spec fn next_id(self) -> int {
        self.next_id_spec()
    }

    /// The retained record with id `id`, if it is neither truncated away nor
    /// in the future.
    pub open spec fn get_spec(self, id: TxId) -> Option<TxRecord> {
        if self.vec_offset <= id < self.next_id_spec() {
            Some(self.history@[id - self.vec_offset])
        } else {
            None
        }
    }

    pub fn new() -> (r: Ledger)
        ensures
            r.wf(),
            r.history@.len() == 0,
            r.vec_offset == 0,
            r.next_id_spec() == 0,
    {
        Ledger { history: Vec::new(), vec_offset: 0, notifications: Vec::new() }
    }

    pub fn is_empty(&self) -> (r: bool)
        requires
            self.wf(),
        ensures
            r == (self.next_id_spec() == 0),
    {
        self.len() == 0
    }

    /// The count of all records ever appended (truncated ones included).
    pub fn len(&self) -> (r: u64)
        requires
            self.wf(),
        ensures
            r == self.next_id_spec(),
    {
        self.vec_offset + (self.history.len() as u64)
    }

    fn next_id_exec(&self) -> (r: u64)
        requires
            self.wf(),
        ensures
            r == self.next_id_spec(),
    {
        self.vec_offset + (self.history.len() as u64)
    }

    pub fn get(&self, id: TxId) -> (r: Option<TxRecord>)
        requires
            self.wf(),
        ensures
            r == self.get_spec(id),
    {
        if id < self.vec_offset {
            return None;
        }
        let idx = id - self.vec_offset;
        if idx >= self.history.len() as u64 {
            return None;
        }
        Some(self.history[idx as usize])
    }

    /// Appends one record, truncating the oldest batch when the retained
    /// length exceeds the ceiling.
    fn push(&mut self, record: TxRecord)
        requires
            old(self).wf(),
            old(self).next_id_spec() < u64::MAX,
            record.index == old(self).next_id_spec(),
        ensures
            final(self).wf(),
            appended(*old(self), *final(self), record),
    {
        self.history.push(record);
        self.notifications.push((record.index, None));
        if self.history.len() > MAX_HISTORY_LENGTH + HISTORY_REMOVAL_BATCH_SIZE {
            let n = self.history.len();
            let mut kept: Vec<TxRecord> = Vec::new();
            let mut i: usize = HISTORY_REMOVAL_BATCH_SIZE;
            while i < n
                invariant
                    HISTORY_REMOVAL_BATCH_SIZE <= i <= n,
                    n == self.history@.len(),
                    kept@ =~= self.history@.subrange(HISTORY_REMOVAL_BATCH_SIZE as int, i as int),
                decreases n - i,
            {
                kept.push(self.history[i]);
                i = i + 1;
            }
            let mut kept_notifications: Vec<(TxId, Option<Principal>)> = Vec::new();
            let mut j: usize = HISTORY_REMOVAL_BATCH_SIZE;
            while j < n
                invariant
                    HISTORY_REMOVAL_BATCH_SIZE <= j <= n,
                    n == self.notifications@.len(),
                    kept_notifications@ =~= self.notifications@.subrange(
                        HISTORY_REMOVAL_BATCH_SIZE as int,
                        j as int,
                    ),
                decreases n - j,
            {
                kept_notifications.push(self.notifications[j]);
                j = j + 1;
            }
            self.history = kept;
            self.notifications = kept_notifications;
            self.vec_offset = self.vec_offset + (HISTORY_REMOVAL_BATCH_SIZE as u64);
            proof {
                assert(self.history@ =~= old(self).history@.push(record).skip(
                    HISTORY_REMOVAL_BATCH_SIZE as int,
                ));
            }
        }
    }

    pub fn transfer(
        &mut self,
        from: Principal,
        to: Principal,
        amount: Tokens128,
        fee: Tokens128,
        now: u64,
    ) -> (id: TxId)
        requires
            old(self).wf(),
            old(self).next_id_spec() < u64::MAX,
        ensures
            final(self).wf(),
            id == old(self).next_id_spec(),
            appended(
                *old(self),
                *final(self),
                (TxRecord {
                    caller: Some(from),
                    index: id,
                    from,
                    to,
                    amount,
                    fee,
                    timestamp: now,
                    status: TransactionStatus::Succeeded,
                    operation: Operation::Transfer,
                }),
            ),
    {
        let id = self.next_id_exec();
        self.push(TxRecord::transfer(id, from, to, amount, fee, now));
        id
    }

    pub fn transfer_from(
        &mut self,
        caller: Principal,
        from: Principal,
        to: Principal,
        amount: Tokens128,
        fee: Tokens128,
        now: u64,
    ) -> (id: TxId)
        requires
            old(self).wf(),
            old(self).next_id_spec() < u64::MAX,
        ensures
            final(self).wf(),
            id == old(self).next_id_spec(),
            appended(
                *old(self),
                *final(self),
                (TxRecord {
                    caller: Some(caller),
                    index: id,
                    from,
                    to,
                    amount,
                    fee,
                    timestamp: now,
                    status: TransactionStatus::Succeeded,
                    operation: Operation::TransferFrom,
                }),
            ),
    {
        let id = self.next_id_exec();
        self.push(TxRecord::transfer_from(id, caller, from, to, amount, fee, now));
        id
    }

    pub fn approve(
        &mut self,
        from: Principal,
        to: Principal,
        amount: Tokens128,
        fee: Tokens128,
        now: u64,
    ) -> (id: TxId)
        requires
            old(self).wf(),
            old(self).next_id_spec() < u64::MAX,
        ensures
            final(self).wf(),
            id == old(self).next_id_spec(),
            appended(
                *old(self),
                *final(self),
                (TxRecord {
                    caller: Some(from),
                    index: id,
                    from,
                    to,
                    amount,
                    fee,
                    timestamp: now,
                    status: TransactionStatus::Succeeded,
                    operation: Operation::Approve,
                }),
            ),
    {
        let id = self.next_id_exec();
        self.push(TxRecord::approve(id, from, to, amount, fee, now));
        id
    }

    pub fn mint(&mut self, from: Principal, to: Principal, amount: Tokens128, now: u64) -> (id:
        TxId)
        requires
            old(self).wf(),
            old(self).next_id_spec() < u64::MAX,
        ensures
            final(self).wf(),
            id == old(self).next_id_spec(),
            appended(
                *old(self),
                *final(self),
                (TxRecord {
                    caller: Some(from),
                    index: id,
                    from,
                    to,
                    amount,
                    fee: Tokens128 { amount: 0 },
                    timestamp: now,
                    status: TransactionStatus::Succeeded,
                    operation: Operation::Mint,
                }),
            ),
    {
        let id = self.next_id_exec();
        self.push(TxRecord::mint(id, from, to, amount, now));
        id
    }

    pub fn burn(&mut self, caller: Principal, from: Principal, amount: Tokens128, now: u64) -> (id:
        TxId)
        requires
            old(self).wf(),
            old(self).next_id_spec() < u64::MAX,
        ensures
            final(self).wf(),
            id == old(self).next_id_spec(),
            appended(
                *old(self),
                *final(self),
                (TxRecord {
                    caller: Some(caller),
                    index: id,
                    from,
                    to: from,
                    amount,
                    fee: Tokens128 { amount: 0 },
                    timestamp: now,
                    status: TransactionStatus::Succeeded,
                    operation: Operation::Burn,
                }),
            ),
    {
        let id = self.next_id_exec();
        self.push(TxRecord::burn(id, caller, from, amount, now));
        id
    }

    pub fn record_auction(&mut self, to: Principal, amount: Tokens128, now: u64)
        requires
            old(self).wf(),
            old(self).next_id_spec() < u64::MAX,
        ensures
            final(self).wf(),
            appended(
                *old(self),
                *final(self),
                (TxRecord {
                    caller: Some(to),
                    index: old(self).next_id_spec() as u64,
                    from: to,
                    to,
                    amount,
                    fee: Tokens128 { amount: 0 },
                    timestamp: now,
                    status: TransactionStatus::Succeeded,
                    operation: Operation::Auction,
                }),
            ),
    {
        let id = self.next_id_exec();
        self.push(TxRecord::auction(id, to, amount, now));
    }

    /// Up to `count` matching records, newest first. When more remain, `next`
    /// carries the id of the next (older) matching record, to be passed back
    /// as the offset of a follow-up query.
    pub fn get_transactions(
        &self,
        who: Option<Principal>,
        count: usize,
        transaction_id: Option<TxId>,
    ) -> (r: PaginatedResult)
        requires
            self.wf(),
            count < usize::MAX,
        ensures
            ({
                let f = filtered_newest_first(self.history@, who, transaction_id);
                if f.len() > count {
                    r.result@ == f.take(count as int) && r.next == Some(f[count as int].index)
                } else {
                    r.result@ == f && r.next is None
                }
            }),
    {
        let ghost f = filtered_newest_first(self.history@, who, transaction_id);
        let n = self.history.len();
        let mut collected: Vec<TxRecord> = Vec::new();
        let mut i: usize = n;
        proof {
            assert(self.history@.take(n as int) =~= self.history@);
        }
        while i > 0 && collected.len() < count + 1
            invariant
                0 <= i <= n,
                n == self.history@.len(),
                count < usize::MAX,
                collected@.len() <= count + 1,
                f == collected@ + filtered_newest_first(
                    self.history@.take(i as int),
                    who,
                    transaction_id,
                ),
            decreases i,
    {
            let tx = self.history[i - 1];
            proof {
                let pre = self.history@.take(i as int);
                assert(pre.drop_last() =~= self.history@.take(i - 1));
                assert(pre.last() == tx);
                if tx_matches(tx, who, transaction_id) {
                    assert(filtered_newest_first(pre, who, transaction_id) == seq![tx]
                        + filtered_newest_first(
                        self.history@.take(i - 1),
                        who,
                        transaction_id,
                    ));
                    assert(collected@ + filtered_newest_first(pre, who, transaction_id)
                        =~= collected@.push(tx) + filtered_newest_first(
                        self.history@.take(i - 1),
                        who,
                        transaction_id,
                    ));
                }
            }
            if tx_matches_exec(&tx, &who, &transaction_id) {
                collected.push(tx);
            }
            i = i - 1;
        }
        proof {
            if i == 0 {
                assert(self.history@.take(0) =~= Seq::<TxRecord>::empty());
                assert(f =~= collected@ + Seq::<TxRecord>::empty());
                assert(f =~= collected@);
            } else {
                assert(collected@.len() == count + 1);
                assert(f.take(count + 1) =~= collected@);
            }
        }
        if collected.len() == count + 1 {
            let last = collected.pop();
            proof {
                assert(collected@ =~= f.take(count + 1).drop_last());
                assert(f.take(count + 1).drop_last() =~= f.take(count as int));
            }
            match last {
                Some(tx) => PaginatedResult { result: collected, next: Some(tx.index) },
                None => {
                    // Unreachable: the vector held `count + 1 >= 1` records.
                    proof {
                        assert(false);
                    }
                    PaginatedResult { result: collected, next: None }
                },
            }
        } else {
            proof {
                if f.len() > count {
                    assert(collected@.len() == f.len());
                }
            }
            PaginatedResult { result: collected, next: None }
        }
    }

    /// The number of retained records that concern `user`.
    pub fn get_len_user_history(&self, user: Principal) -> (r: usize)
        requires
            self.wf(),
        ensures
            r == filtered_newest_first(self.history@, Some(user), None).len(),
    {
        let n = self.history.len();
        let mut counted: usize = 0;
        let mut i: usize = 0;
        proof {
            assert(self.history@.take(0) =~= Seq::<TxRecord>::empty());
        }
        while i < n
            invariant
                0 <= i <= n,
                n == self.history@.len(),
                counted == filtered_newest_first(self.history@.take(i as int), Some(user), None).len(),
                counted <= i,
            decreases n - i,
        {
            let tx = self.history[i];
            proof {
                let pre = self.history@.take(i + 1);
                assert(pre.drop_last() =~= self.history@.take(i as int));
                assert(pre.last() == tx);
            }
            if tx_matches_exec(&tx, &Some(user), &None) {
                counted = counted + 1;
            }
            i = i + 1;
        }
        proof {
            assert(self.history@.take(n as int) =~= self.history@);
        }
        counted
    }
}

/// Executable form of the record filter.
fn tx_matches_exec(tx: &TxRecord, who: &Option<Principal>, upto: &Option<TxId>) -> (r: bool)
    ensures
        r == tx_matches(*tx, *who, *upto),
{
    let who_ok = match who {
        Some(p) => tx.from == *p || tx.to == *p || (match tx.caller {
            Some(c) => c == *p,
            None => false,
        }),
        None => true,
    };
    let upto_ok = match upto {
        Some(id) => tx.index <= *id,
        None => true,
    };
    who_ok && upto_ok
}

} // verus!
