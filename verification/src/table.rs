use vstd::prelude::*;

use crate::tokens::Tokens128;

verus! {

/// True when some entry of `s` carries the key `p`.
pub open spec fn has_key<K>(s: Seq<(K, Tokens128)>, p: K) -> bool {
    exists|i: int| 0 <= i < s.len() && (#[trigger] s[i]).0 == p
}

/// The position of the entry carrying `p`, meaningful only under `has_key`.
pub open spec fn key_at<K>(s: Seq<(K, Tokens128)>, p: K) -> int {
    choose|i: int| 0 <= i < s.len() && (#[trigger] s[i]).0 == p
}

/// The amount stored under `p`, or zero when `p` is absent.
pub open spec fn lookup<K>(s: Seq<(K, Tokens128)>, p: K) -> u128 {
    if has_key(s, p) {
        s[key_at(s, p)].1.amount
    } else {
        0
    }
}

/// No two entries share a key.
pub open spec fn unique_keys<K>(s: Seq<(K, Tokens128)>) -> bool {
    forall|i: int, j: int|
        0 <= i < s.len() && 0 <= j < s.len() && i != j ==> (#[trigger] s[i]).0 != (
        #[trigger] s[j]).0
}

/// No entry stores a zero amount (zero balances are elided).
pub open spec fn no_zero<K>(s: Seq<(K, Tokens128)>) -> bool {
    forall|i: int| 0 <= i < s.len() ==> (#[trigger] s[i]).1.amount != 0
}

/// The sum of all stored amounts.
pub open spec fn sum<K>(s: Seq<(K, Tokens128)>) -> int
    decreases s.len(),
{
    if s.len() == 0 {
        0
    } else {
        sum(s.drop_last()) + s.last().1.amount
    }
}

pub proof fn lemma_sum_nonneg<K>(s: Seq<(K, Tokens128)>)
    ensures
        sum(s) >= 0,
    decreases s.len(),
{
    if s.len() > 0 {
        lemma_sum_nonneg(s.drop_last());
    }
}

pub proof fn lemma_sum_push<K>(s: Seq<(K, Tokens128)>, e: (K, Tokens128))
    ensures
        sum(s.push(e)) == sum(s) + e.1.amount,
{
    assert(s.push(e).drop_last() =~= s);
}

pub proof fn lemma_sum_update<K>(s: Seq<(K, Tokens128)>, i: int, e: (K, Tokens128))
    requires
        0 <= i < s.len(),
    ensures
        sum(s.update(i, e)) == sum(s) - s[i].1.amount + e.1.amount,
    decreases s.len(),
{
    let t = s.update(i, e);
    if i == s.len() - 1 {
        assert(t.drop_last() =~= s.drop_last());
        assert(t.last() == e);
    } else {
        assert(t.drop_last() =~= s.drop_last().update(i, e));
        assert(t.last() == s.last());
        lemma_sum_update(s.drop_last(), i, e);
    }
}

pub proof fn lemma_sum_remove<K>(s: Seq<(K, Tokens128)>, i: int)
    requires
        0 <= i < s.len(),
    ensures
        sum(s.remove(i)) == sum(s) - s[i].1.amount,
    decreases s.len(),
{
    let t = s.remove(i);
    s.remove_ensures(i);
    if i == s.len() - 1 {
        assert(t =~= s.drop_last());
    } else {
        assert(t.drop_last() =~= s.drop_last().remove(i));
        assert(t.last() == s.last());
        lemma_sum_remove(s.drop_last(), i);
    }
}

/// Every single entry is bounded by the sum of all entries.
pub proof fn lemma_entry_le_sum<K>(s: Seq<(K, Tokens128)>, i: int)
    requires
        0 <= i < s.len(),
    ensures
        s[i].1.amount <= sum(s),
    decreases s.len(),
{
    lemma_sum_nonneg(s.drop_last());
    if i < s.len() - 1 {
        lemma_entry_le_sum(s.drop_last(), i);
    }
}

/// Under unique keys, the entry at a known position is what `lookup` returns.
pub proof fn lemma_lookup_at<K>(s: Seq<(K, Tokens128)>, i: int)
    requires
        unique_keys(s),
        0 <= i < s.len(),
    ensures
        has_key(s, s[i].0),
        key_at(s, s[i].0) == i,
        lookup(s, s[i].0) == s[i].1.amount,
{
    assert(has_key(s, s[i].0)) by {
        assert(0 <= i < s.len() && s[i].0 == s[i].0);
    }
    let j = key_at(s, s[i].0);
    assert(0 <= j < s.len() && s[j].0 == s[i].0);
    if i != j {
        assert(s[i].0 != s[j].0);
    }
}

/// The balance of every key is bounded by the sum of all entries.
pub proof fn lemma_lookup_le_sum<K>(s: Seq<(K, Tokens128)>, p: K)
    ensures
        lookup(s, p) <= sum(s),
        sum(s) >= 0,
{
    lemma_sum_nonneg(s);
    if has_key(s, p) {
        lemma_entry_le_sum(s, key_at(s, p));
    }
}

/// Overwriting the entry at `i` with an entry of the same key changes only
/// that key's balance.
pub proof fn lemma_update_effect<K>(s: Seq<(K, Tokens128)>, i: int, e: (K, Tokens128))
    requires
        unique_keys(s),
        0 <= i < s.len(),
        s[i].0 == e.0,
    ensures
        unique_keys(s.update(i, e)),
        lookup(s.update(i, e), e.0) == e.1.amount,
        forall|q: K| q != e.0 ==> lookup(s.update(i, e), q) == lookup(s, q),
{
    let t = s.update(i, e);
    assert(unique_keys(t)) by {
        assert forall|x: int, y: int|
            0 <= x < t.len() && 0 <= y < t.len() && x != y implies (#[trigger] t[x]).0 != (
        #[trigger] t[y]).0 by {
            assert(t[x].0 == s[x].0);
            assert(t[y].0 == s[y].0);
        }
    }
    lemma_lookup_at(t, i);
    assert forall|q: K| q != e.0 implies lookup(t, q) == lookup(s, q) by {
        if has_key(s, q) {
            let j = key_at(s, q);
            assert(0 <= j < s.len() && s[j].0 == q);
            assert(j != i);
            assert(t[j].0 == q);
            lemma_lookup_at(s, j);
            lemma_lookup_at(t, j);
        } else {
            assert(!has_key(t, q)) by {
                if has_key(t, q) {
                    let j = key_at(t, q);
                    assert(0 <= j < t.len() && t[j].0 == q);
                    assert(j != i);
                    assert(s[j].0 == q);
                }
            }
        }
    }
}

/// Removing the entry at `i` zeroes that key's balance and changes no other.
pub proof fn lemma_remove_effect<K>(s: Seq<(K, Tokens128)>, i: int)
    requires
        unique_keys(s),
        0 <= i < s.len(),
    ensures
        unique_keys(s.remove(i)),
        no_zero(s) ==> no_zero(s.remove(i)),
        !has_key(s.remove(i), s[i].0),
        lookup(s.remove(i), s[i].0) == 0,
        forall|q: K| q != s[i].0 ==> lookup(s.remove(i), q) == lookup(s, q),
{
    let t = s.remove(i);
    s.remove_ensures(i);
    assert forall|x: int| 0 <= x < t.len() implies exists|y: int|
        0 <= y < s.len() && y != i && #[trigger] t[x] == s[y] by {
        if x < i {
            assert(t[x] == s[x]);
        } else {
            assert(t[x] == s[x + 1]);
        }
    }
    assert(unique_keys(t)) by {
        assert forall|x: int, y: int|
            0 <= x < t.len() && 0 <= y < t.len() && x != y implies (#[trigger] t[x]).0 != (
        #[trigger] t[y]).0 by {
            let sx = if x < i { x } else { x + 1 };
            let sy = if y < i { y } else { y + 1 };
            assert(t[x] == s[sx]);
            assert(t[y] == s[sy]);
        }
    }
    assert(!has_key(t, s[i].0)) by {
        if has_key(t, s[i].0) {
            let x = key_at(t, s[i].0);
            assert(0 <= x < t.len() && t[x].0 == s[i].0);
            let sx = if x < i { x } else { x + 1 };
            assert(t[x] == s[sx]);
            assert(sx != i);
        }
    }
    assert forall|q: K| q != s[i].0 implies lookup(t, q) == lookup(s, q) by {
        if has_key(s, q) {
            let j = key_at(s, q);
            assert(0 <= j < s.len() && s[j].0 == q);
            assert(j != i);
            let tj = if j < i { j } else { j - 1 };
            assert(t[tj] == s[j]);
            lemma_lookup_at(s, j);
            lemma_lookup_at(t, tj);
        } else {
            assert(!has_key(t, q)) by {
                if has_key(t, q) {
                    let x = key_at(t, q);
                    assert(0 <= x < t.len() && t[x].0 == q);
                    let sx = if x < i { x } else { x + 1 };
                    assert(t[x] == s[sx]);
                }
            }
        }
    }
}

/// Appending an entry with a fresh, nonzero key adds exactly that balance.
pub proof fn lemma_push_effect<K>(s: Seq<(K, Tokens128)>, e: (K, Tokens128))
    requires
        unique_keys(s),
        !has_key(s, e.0),
    ensures
        unique_keys(s.push(e)),
        no_zero(s) && e.1.amount != 0 ==> no_zero(s.push(e)),
        lookup(s.push(e), e.0) == e.1.amount,
        forall|q: K| q != e.0 ==> lookup(s.push(e), q) == lookup(s, q),
{
    let t = s.push(e);
    assert(unique_keys(t)) by {
        assert forall|x: int, y: int|
            0 <= x < t.len() && 0 <= y < t.len() && x != y implies (#[trigger] t[x]).0 != (
        #[trigger] t[y]).0 by {
            if x < s.len() && y < s.len() {
                assert(t[x] == s[x]);
                assert(t[y] == s[y]);
            } else if x < s.len() {
                assert(t[y] == e);
                assert(t[x] == s[x]);
                assert(s[x].0 != e.0) by {
                    if s[x].0 == e.0 {
                        assert(has_key(s, e.0));
                    }
                }
            } else {
                assert(t[x] == e);
                assert(t[y] == s[y]);
                assert(s[y].0 != e.0) by {
                    if s[y].0 == e.0 {
                        assert(has_key(s, e.0));
                    }
                }
            }
        }
    }
    lemma_lookup_at(t, s.len() as int);
    assert forall|q: K| q != e.0 implies lookup(t, q) == lookup(s, q) by {
        if has_key(s, q) {
            let j = key_at(s, q);
            assert(0 <= j < s.len() && s[j].0 == q);
            assert(t[j] == s[j]);
            lemma_lookup_at(s, j);
            lemma_lookup_at(t, j);
        } else {
            assert(!has_key(t, q)) by {
                if has_key(t, q) {
                    let x = key_at(t, q);
                    assert(0 <= x < t.len() && t[x].0 == q);
                    assert(x < s.len());
                    assert(t[x] == s[x]);
                }
            }
        }
    }
}


} // verus!
