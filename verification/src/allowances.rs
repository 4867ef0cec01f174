use vstd::prelude::*;

use crate::principal::Principal;
use crate::table::has_key;
use crate::table::key_at;
use crate::table::lemma_lookup_at;
use crate::table::lemma_push_effect;
use crate::table::lemma_remove_effect;
use crate::table::lemma_update_effect;
use crate::table::lookup;
use crate::table::no_zero;
use crate::table::unique_keys;
use crate::tokens::Tokens128;

verus! {

/// The approvals granted to `who`: the spender and amount of every entry
/// whose owner is `who`, in storage order.
pub open spec fn approvals_of(
    s: Seq<((Principal, Principal), Tokens128)>,
    who: Principal,
) -> Seq<(Principal, Tokens128)>
    decreases s.len(),
{
    if s.len() == 0 {
        Seq::empty()
    } else if s.last().0.0 == who {
        approvals_of(s.drop_last(), who).push((s.last().0.1, s.last().1))
    } else {
        approvals_of(s.drop_last(), who)
    }
}

/// The allowance book, keyed by owner and spender.
///
/// An allowance is an upper bound on what the spender may move out of the
/// owner's account; it is deducted inclusive of the fee on use. Zero-valued
/// entries are eagerly pruned, so an owner without approvals simply has no
/// entries — the book never stores an empty inner table for anyone.
#[derive(Debug)]
pub struct Allowances {
    pub entries: Vec<((Principal, Principal), Tokens128)>,
}

impl Allowances {
    /// Representation invariant: one entry per owner–spender pair, and no
    /// zero amounts.
    pub open spec fn wf(self) -> bool {
        &&& unique_keys(self.entries@)
        &&& no_zero(self.entries@)
    }

    /// The allowance granted by `owner` to `spender`, zero when absent.
    pub open spec fn allowance(self, owner: Principal, spender: Principal) -> u128 {
        lookup(self.entries@, (owner, spender))
    }

    /// Whether an entry for the pair is stored.
    pub open spec fn holds(self, owner: Principal, spender: Principal) -> bool {
        has_key(self.entries@, (owner, spender))
    }

    pub fn new() -> (r: Allowances)
        ensures
            r.wf(),
            forall|o: Principal, s: Principal| r.allowance(o, s) == 0,
            r.entries@.len() == 0,
    {
        let r = Allowances { entries: Vec::new() };
        proof {
            assert forall|o: Principal, s: Principal| r.allowance(o, s) == 0 by {
                assert(!has_key(r.entries@, (o, s)));
            }
        }
        r
    }

    fn position_of(&self, owner: Principal, spender: Principal) -> (r: Option<usize>)
        ensures
            match r {
                Some(i) => 0 <= i < self.entries@.len() && self.entries@[i as int].0 == (
                owner,
                spender,
                ),
                None => !has_key(self.entries@, (owner, spender)),
            },
    {
        let n = self.entries.len();
        let mut i: usize = 0;
        while i < n
            invariant
                n == self.entries@.len(),
                0 <= i <= n,
                forall|j: int| 0 <= j < i ==> (#[trigger] self.entries@[j]).0 != (owner, spender),
            decreases n - i,
        {
            if self.entries[i].0.0 == owner && self.entries[i].0.1 == spender {
                proof {
                    assert(self.entries@[i as int].0 == (owner, spender));
                }
                return Some(i);
            }
            i = i + 1;
        }
        proof {
            if has_key(self.entries@, (owner, spender)) {
                let j = key_at(self.entries@, (owner, spender));
                assert(0 <= j < self.entries@.len() && self.entries@[j].0 == (owner, spender));
            }
        }
        None
    }

    pub fn allowance_of(&self, owner: Principal, spender: Principal) -> (r: Tokens128)
        requires
            self.wf(),
        ensures
            r.amount == self.allowance(owner, spender),
    {
        match self.position_of(owner, spender) {
            Some(i) => {
                proof {
                    lemma_lookup_at(self.entries@, i as int);
                }
                self.entries[i].1
            },
            None => Tokens128 { amount: 0 },
        }
    }

    /// Stores `value` for the pair; a zero value removes the entry instead.
    pub fn set_allowance(&mut self, owner: Principal, spender: Principal, value: u128)
        requires
            old(self).wf(),
        ensures
            final(self).wf(),
            final(self).allowance(owner, spender) == value,
            forall|o: Principal, s: Principal|
                (o, s) != (owner, spender) ==> final(self).allowance(o, s) == old(self).allowance(
                    o,
                    s,
                ),
            final(self).holds(owner, spender) == (value != 0),
            final(self).entries@.len() == old(self).entries@.len() + (if value != 0 && !old(
                self,
            ).holds(owner, spender) {
                1int
            } else if value == 0 && old(self).holds(owner, spender) {
                -1int
            } else {
                0int
            }),
    {
        let key = (owner, spender);
        match self.position_of(owner, spender) {
            Some(i) => {
                if value == 0 {
                    proof {
                        lemma_remove_effect(self.entries@, i as int);
                    }
                    self.entries.remove(i);
                } else {
                    let e = (key, Tokens128 { amount: value });
                    proof {
                        lemma_update_effect(self.entries@, i as int, e);
                    }
                    self.entries.set(i, e);
                }
            },
            None => {
                if value != 0 {
                    let e = (key, Tokens128 { amount: value });
                    proof {
                        lemma_push_effect(self.entries@, e);
                    }
                    self.entries.push(e);
                }
            },
        }
        proof {
            if value != 0 && !self.holds(owner, spender) {
                assert(lookup(self.entries@, key) == 0);
            }
        }
    }

    /// Lowers the pair's allowance by `value`, eliding the entry on zero.
    pub fn decrement_allowance(&mut self, owner: Principal, spender: Principal, value: u128)
        requires
            old(self).wf(),
            old(self).allowance(owner, spender) >= value,
        ensures
            final(self).wf(),
            final(self).allowance(owner, spender) == old(self).allowance(owner, spender) - value,
            forall|o: Principal, s: Principal|
                (o, s) != (owner, spender) ==> final(self).allowance(o, s) == old(self).allowance(
                    o,
                    s,
                ),
            final(self).holds(owner, spender) == (old(self).allowance(owner, spender) - value
                != 0),
    {
        if value == 0 {
            proof {
                if old(self).allowance(owner, spender) != 0 {
                    assert(self.holds(owner, spender));
                } else {
                    if self.holds(owner, spender) {
                        lemma_lookup_at(self.entries@, key_at(self.entries@, (owner, spender)));
                    }
                }
            }
            return ;
        }
        match self.position_of(owner, spender) {
            Some(i) => {
                proof {
                    lemma_lookup_at(self.entries@, i as int);
                }
                let cur = self.entries[i].1.amount;
                let rest = cur - value;
                if rest == 0 {
                    proof {
                        lemma_remove_effect(self.entries@, i as int);
                    }
                    self.entries.remove(i);
                } else {
                    let e = ((owner, spender), Tokens128 { amount: rest });
                    proof {
                        lemma_update_effect(self.entries@, i as int, e);
                    }
                    self.entries.set(i, e);
                }
            },
            None => {
                proof {
                    assert(self.allowance(owner, spender) == 0);
                }
                // Unreachable: a positive allowance implies a stored entry.
                assert(false);
            },
        }
    }

    /// Number of stored owner–spender entries.
    pub fn entry_count(&self) -> (r: usize)
        ensures
            r == self.entries@.len(),
    {
        self.entries.len()
    }

    /// All approvals granted by `who`, as spender–amount pairs in storage
    /// order.
    pub fn user_approvals(&self, who: Principal) -> (r: Vec<(Principal, Tokens128)>)
        ensures
            r@ == approvals_of(self.entries@, who),
    {
        let n = self.entries.len();
        let mut r: Vec<(Principal, Tokens128)> = Vec::new();
        let mut i: usize = 0;
        while i < n
            invariant
                n == self.entries@.len(),
                0 <= i <= n,
                r@ == approvals_of(self.entries@.take(i as int), who),
            decreases n - i,
        {
            proof {
                assert(self.entries@.take(i + 1).drop_last() =~= self.entries@.take(i as int));
                assert(self.entries@.take(i + 1).last() == self.entries@[i as int]);
            }
            let e = self.entries[i];
            if e.0.0 == who {
                r.push((e.0.1, e.1));
            }
            i = i + 1;
        }
        proof {
            assert(self.entries@.take(n as int) =~= self.entries@);
        }
        r
    }
}

} // verus!
