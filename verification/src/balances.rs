use vstd::prelude::*;

use crate::principal::Principal;
use crate::table::has_key;
use crate::table::key_at;
use crate::table::lemma_entry_le_sum;
use crate::table::lemma_lookup_at;
use crate::table::lemma_lookup_le_sum;
use crate::table::lemma_push_effect;
use crate::table::lemma_remove_effect;
use crate::table::lemma_sum_nonneg;
use crate::table::lemma_sum_push;
use crate::table::lemma_sum_remove;
use crate::table::lemma_sum_update;
use crate::table::lemma_update_effect;
use crate::table::lookup;
use crate::table::no_zero;
use crate::table::sum;
use crate::table::unique_keys;
use crate::tokens::Tokens128;

verus! {

/// The balance book: each holder with a nonzero balance appears in exactly
/// one entry, and zero balances are never stored.
#[derive(Debug)]
pub struct Balances {
    pub entries: Vec<(Principal, Tokens128)>,
}

impl Balances {
    /// Representation invariant: unique keys, no zero amounts, and a total
    /// that fits the token width.
    pub open spec fn wf(self) -> bool {
        &&& unique_keys(self.entries@)
        &&& no_zero(self.entries@)
        &&& sum(self.entries@) <= u128::MAX
    }

    /// The balance of `p`: the stored amount, or zero when absent.
    pub open spec fn balance(self, p: Principal) -> u128 {
        lookup(self.entries@, p)
    }

    /// Whether `p` occurs in the book.
    pub open spec fn holds(self, p: Principal) -> bool {
        has_key(self.entries@, p)
    }

    /// The sum of all stored balances.
    pub open spec fn total(self) -> int {
        sum(self.entries@)
    }

    pub fn new() -> (r: Balances)
        ensures
            r.wf(),
            r.total() == 0,
            forall|p: Principal| r.balance(p) == 0,
            r.entries@.len() == 0,
    {
        let r = Balances { entries: Vec::new() };
        proof {
            assert forall|p: Principal| r.balance(p) == 0 by {
                assert(!has_key(r.entries@, p));
            }
        }
        r
    }

    fn position_of(&self, p: Principal) -> (r: Option<usize>)
        ensures
            match r {
                Some(i) => 0 <= i < self.entries@.len() && self.entries@[i as int].0 == p,
                None => !has_key(self.entries@, p),
            },
    {
        let n = self.entries.len();
        let mut i: usize = 0;
        while i < n
            invariant
                n == self.entries@.len(),
                0 <= i <= n,
                forall|j: int| 0 <= j < i ==> (#[trigger] self.entries@[j]).0 != p,
            decreases n - i,
        {
            if self.entries[i].0 == p {
                return Some(i);
            }
            i = i + 1;
        }
        proof {
            if has_key(self.entries@, p) {
                let j = key_at(self.entries@, p);
                assert(0 <= j < self.entries@.len() && self.entries@[j].0 == p);
            }
        }
        None
    }

    pub fn balance_of(&self, who: &Principal) -> (r: Tokens128)
        requires
            self.wf(),
        ensures
            r.amount == self.balance(*who),
    {
        match self.position_of(*who) {
            Some(i) => {
                proof {
                    lemma_lookup_at(self.entries@, i as int);
                }
                self.entries[i].1
            },
            None => Tokens128 { amount: 0 },
        }
    }

    /// Adds `amount` to the balance of `to`. Callers must leave room in the
    /// total; the conservation argument of the engine provides it.
    pub(crate) fn credit(&mut self, to: Principal, amount: u128)
        requires
            old(self).wf(),
            amount > 0,
            old(self).total() + amount <= u128::MAX,
        ensures
            final(self).wf(),
            final(self).balance(to) == old(self).balance(to) + amount,
            forall|p: Principal| p != to ==> final(self).balance(p) == old(self).balance(p),
            final(self).total() == old(self).total() + amount,
    {
        proof {
            lemma_lookup_le_sum(self.entries@, to);
        }
        match self.position_of(to) {
            Some(i) => {
                proof {
                    lemma_lookup_at(self.entries@, i as int);
                    lemma_entry_le_sum(self.entries@, i as int);
                    lemma_sum_nonneg(self.entries@);
                }
                let cur = self.entries[i].1.amount;
                proof {
                    lemma_sum_remove(self.entries@, i as int);
                    lemma_sum_nonneg(self.entries@.remove(i as int));
                }
                let e = (to, Tokens128 { amount: cur + amount });
                proof {
                    lemma_sum_update(self.entries@, i as int, e);
                    lemma_update_effect(self.entries@, i as int, e);
                }
                self.entries.set(i, e);
            },
            None => {
                let e = (to, Tokens128 { amount });
                proof {
                    lemma_sum_push(self.entries@, e);
                    lemma_push_effect(self.entries@, e);
                }
                self.entries.push(e);
            },
        }
    }

    /// Removes `amount` from the balance of `from`, eliding the entry when it
    /// reaches zero.
    pub(crate) fn debit(&mut self, from: Principal, amount: u128)
        requires
            old(self).wf(),
            amount > 0,
            old(self).balance(from) >= amount,
        ensures
            final(self).wf(),
            final(self).balance(from) == old(self).balance(from) - amount,
            forall|p: Principal| p != from ==> final(self).balance(p) == old(self).balance(p),
            final(self).total() == old(self).total() - amount,
    {
        let pos = self.position_of(from);
        match pos {
            Some(i) => {
                proof {
                    lemma_lookup_at(self.entries@, i as int);
                }
                let cur = self.entries[i].1.amount;
                let rest = cur - amount;
                if rest == 0 {
                    proof {
                        lemma_sum_remove(self.entries@, i as int);
                        lemma_remove_effect(self.entries@, i as int);
                        lemma_sum_nonneg(self.entries@.remove(i as int));
                    }
                    self.entries.remove(i);
                } else {
                    let e = (from, Tokens128 { amount: rest });
                    proof {
                        lemma_sum_update(self.entries@, i as int, e);
                        lemma_update_effect(self.entries@, i as int, e);
                        lemma_sum_nonneg(self.entries@.update(i as int, e));
                    }
                    self.entries.set(i, e);
                }
            },
            None => {
                proof {
                    assert(self.balance(from) == 0);
                }
                // Unreachable: a positive balance implies a stored entry.
                assert(false);
            },
        }
    }

    /// How many holders the book currently lists.
    pub fn holder_count(&self) -> (r: usize)
        ensures
            r == self.entries@.len(),
    {
        self.entries.len()
    }

    /// A page of the holders ordered by balance, largest first: the slice
    /// `[start, min(start + limit, holder count))` of some descending
    /// reordering of the book. The order among equal balances is
    /// implementation-defined.
    pub fn get_holders(&self, start: usize, limit: usize) -> (r: Vec<(Principal, Tokens128)>)
        requires
            self.wf(),
            start <= self.entries@.len(),
        ensures
            exists|s: Seq<(Principal, Tokens128)>|
                {
                    &&& s.to_multiset() == self.entries@.to_multiset()
                    &&& sorted_desc(s)
                    &&& r@ == s.subrange(
                        start as int,
                        if start + limit <= s.len() {
                            start + limit
                        } else {
                            s.len() as int
                        },
                    )
                },
    {
        let sorted = sort_by_amount_desc(&self.entries);
        proof {
            broadcast use vstd::seq_lib::group_to_multiset_ensures;

            assert(sorted@.len() == self.entries@.len());
        }
        let page = slice_page(&sorted, start, limit);
        proof {
            let s = sorted@;
            assert(s.to_multiset() == self.entries@.to_multiset() && sorted_desc(s) && page@
                == s.subrange(
                start as int,
                if start + limit <= s.len() {
                    start + limit
                } else {
                    s.len() as int
                },
            ));
        }
        page
    }

    /// The holders whose balance lies in `[low, high]`, ordered by balance,
    /// largest first. The order among equal balances is
    /// implementation-defined.
    pub fn get_holders_between(&self, high: Tokens128, low: Tokens128) -> (r: Vec<
        (Principal, Tokens128),
    >)
        requires
            self.wf(),
        ensures
            exists|s: Seq<(Principal, Tokens128)>|
                {
                    &&& s.to_multiset() == amounts_between(
                        self.entries@,
                        high.amount,
                        low.amount,
                    ).to_multiset()
                    &&& sorted_desc(s)
                    &&& r@ == s
                },
    {
        let n = self.entries.len();
        let mut picked: Vec<(Principal, Tokens128)> = Vec::new();
        let mut i: usize = 0;
        proof {
            assert(self.entries@.take(0) =~= Seq::<(Principal, Tokens128)>::empty());
        }
        while i < n
            invariant
                0 <= i <= n,
                n == self.entries@.len(),
                picked@ == amounts_between(self.entries@.take(i as int), high.amount, low.amount),
            decreases n - i,
        {
            proof {
                assert(self.entries@.take(i + 1).drop_last() =~= self.entries@.take(i as int));
                assert(self.entries@.take(i + 1).last() == self.entries@[i as int]);
            }
            let e = self.entries[i];
            if low.amount <= e.1.amount && e.1.amount <= high.amount {
                picked.push(e);
            }
            i = i + 1;
        }
        proof {
            assert(self.entries@.take(n as int) =~= self.entries@);
        }
        let sorted = sort_by_amount_desc(&picked);
        proof {
            let s = sorted@;
            assert(s.to_multiset() == amounts_between(
                self.entries@,
                high.amount,
                low.amount,
            ).to_multiset() && sorted_desc(s) && sorted@ == s);
        }
        sorted
    }
}

/// Descending order by stored amount.
pub open spec fn sorted_desc(s: Seq<(Principal, Tokens128)>) -> bool {
    forall|i: int, j: int|
        0 <= i < j < s.len() ==> (#[trigger] s[i]).1.amount >= (#[trigger] s[j]).1.amount
}

/// The entries whose amount lies in `[low, high]`, in storage order.
pub open spec fn amounts_between(s: Seq<(Principal, Tokens128)>, high: u128, low: u128) -> Seq<
    (Principal, Tokens128),
>
    decreases s.len(),
{
    if s.len() == 0 {
        Seq::empty()
    } else if low <= s.last().1.amount <= high {
        amounts_between(s.drop_last(), high, low).push(s.last())
    } else {
        amounts_between(s.drop_last(), high, low)
    }
}

proof fn lemma_insert_to_multiset(s: Seq<(Principal, Tokens128)>, i: int, e: (Principal, Tokens128))
    requires
        0 <= i <= s.len(),
    ensures
        s.insert(i, e).to_multiset() == s.to_multiset().insert(e),
{
    broadcast use vstd::seq_lib::group_to_multiset_ensures;
    broadcast use vstd::multiset::group_multiset_axioms;

    let prefix = s.subrange(0, i);
    let suffix = s.subrange(i, s.len() as int);
    s.lemma_split_at(i);
    vstd::seq_lib::lemma_multiset_commutative(prefix, suffix);
    vstd::seq_lib::lemma_multiset_commutative(prefix.push(e), suffix);
    assert(s.insert(i, e) == prefix.push(e) + suffix);
    assert(prefix.push(e).to_multiset() =~= prefix.to_multiset().insert(e));
    assert(s.insert(i, e).to_multiset() =~= s.to_multiset().insert(e));
}

/// Sorts the given entries by amount, largest first, with an insertion sort;
/// the result holds exactly the given entries.
fn sort_by_amount_desc(input: &Vec<(Principal, Tokens128)>) -> (r: Vec<(Principal, Tokens128)>)
    ensures
        r@.to_multiset() == input@.to_multiset(),
        sorted_desc(r@),
        r@.len() == input@.len(),
{
    let n = input.len();
    let mut out: Vec<(Principal, Tokens128)> = Vec::new();
    let mut i: usize = 0;
    proof {
        broadcast use vstd::seq_lib::group_to_multiset_ensures;

        assert(input@.take(0) =~= Seq::<(Principal, Tokens128)>::empty());
        assert(out@.to_multiset() =~= input@.take(0).to_multiset());
    }
    while i < n
        invariant
            0 <= i <= n,
            n == input@.len(),
            out@.len() == i,
            sorted_desc(out@),
            out@.to_multiset() == input@.take(i as int).to_multiset(),
        decreases n - i,
    {
        let e = input[i];
        let out_len = out.len();
        let mut pos: usize = 0;
        while pos < out_len && out[pos].1.amount >= e.1.amount
            invariant
                0 <= pos <= out_len,
                out_len == out@.len(),
                forall|j: int| 0 <= j < pos ==> (#[trigger] out@[j]).1.amount >= e.1.amount,
            decreases out_len - pos,
        {
            pos = pos + 1;
        }
        proof {
            broadcast use vstd::seq_lib::group_to_multiset_ensures;

            out@.insert_ensures(pos as int, e);
            lemma_insert_to_multiset(out@, pos as int, e);
            assert(input@.take(i + 1).drop_last() =~= input@.take(i as int));
            assert(input@.take(i + 1).last() == input@[i as int]);
            assert(input@.take(i + 1) =~= input@.take(i as int).push(input@[i as int]));
            let t = out@.insert(pos as int, e);
            assert(sorted_desc(t)) by {
                assert forall|x: int, y: int|
                    0 <= x < y < t.len() implies (#[trigger] t[x]).1.amount >= (
                #[trigger] t[y]).1.amount by {
                    if x < pos && y < pos {
                    } else if x == pos {
                        assert(t[y] == out@[y - 1]);
                        assert(out@[y - 1].1.amount < e.1.amount || y - 1 >= pos);
                        if y - 1 > pos {
                            assert(out@[pos as int].1.amount >= out@[y - 1].1.amount);
                        }
                    } else if y == pos {
                        assert(t[x] == out@[x]);
                    } else if x < pos {
                        assert(t[x] == out@[x]);
                        assert(t[y] == out@[y - 1]);
                        if y - 1 >= pos {
                            if pos < out@.len() {
                                assert(out@[pos as int].1.amount < e.1.amount);
                            }
                        }
                    } else {
                        assert(t[x] == out@[x - 1]);
                        assert(t[y] == out@[y - 1]);
                    }
                }
            }
        }
        out.insert(pos, e);
        i = i + 1;
    }
    proof {
        assert(input@.take(n as int) =~= input@);
    }
    out
}

/// Copies the page `[start, min(start + limit, len))` of the given entries.
fn slice_page(sorted: &Vec<(Principal, Tokens128)>, start: usize, limit: usize) -> (r: Vec<
    (Principal, Tokens128),
>)
    requires
        start <= sorted@.len(),
    ensures
        r@ == sorted@.subrange(
            start as int,
            if start + limit <= sorted@.len() {
                start + limit
            } else {
                sorted@.len() as int
            },
        ),
{
    let len = sorted.len();
    let end = if limit > len - start {
        len
    } else {
        start + limit
    };
    let mut r: Vec<(Principal, Tokens128)> = Vec::new();
    let mut k: usize = start;
    proof {
        assert(sorted@.subrange(start as int, start as int) =~= Seq::<
            (Principal, Tokens128),
        >::empty());
    }
    while k < end
        invariant
            start <= k <= end,
            end <= sorted@.len(),
            end == (if start + limit <= sorted@.len() {
                start + limit
            } else {
                sorted@.len() as int
            }),
            r@ == sorted@.subrange(start as int, k as int),
        decreases end - k,
    {
        proof {
            assert(sorted@.subrange(start as int, k + 1) =~= sorted@.subrange(
                start as int,
                k as int,
            ).push(sorted@[k as int]));
        }
        r.push(sorted[k]);
        k = k + 1;
    }
    r
}

} // verus!
