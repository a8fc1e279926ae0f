//! Association lists of amounts: what a key holds in a list of entries
//! that names no key twice, and how an update or a new entry changes it.

use vstd::prelude::*;

verus! {

/// No key occurs in two entries.
pub open spec fn distinct_keys<K>(s: Seq<(K, u128)>) -> bool {
    forall|i: int, j: int| 0 <= i < j < s.len() ==> s[i].0 != s[j].0
}

/// No entry has the key `key`.
pub open spec fn absent<K>(s: Seq<(K, u128)>, key: K) -> bool {
    forall|i: int| 0 <= i < s.len() ==> s[i].0 != key
}

/// The amount that `key` holds: that of its entry, or zero without one.
pub open spec fn held<K>(s: Seq<(K, u128)>, key: K) -> nat
    decreases s.len(),
{
    if s.len() == 0 {
        0
    } else if s.last().0 == key {
        s.last().1 as nat
    } else {
        held(s.drop_last(), key)
    }
}

/// The sum of the amounts of all entries.
pub open spec fn total<K>(s: Seq<(K, u128)>) -> nat
    decreases s.len(),
{
    if s.len() == 0 {
        0
    } else {
        total(s.drop_last()) + s.last().1 as nat
    }
}

/// A key without an entry holds nothing.
pub proof fn lemma_absent_holds_nothing<K>(s: Seq<(K, u128)>, key: K)
    requires
        absent(s, key),
    ensures
        held(s, key) == 0,
    decreases s.len(),
{
    if s.len() > 0 {
        assert(s.last().0 != key);
        lemma_absent_holds_nothing(s.drop_last(), key);
    }
}

/// A key holds the amount of its one entry.
pub proof fn lemma_entry_is_held<K>(s: Seq<(K, u128)>, i: int)
    requires
        distinct_keys(s),
        0 <= i < s.len(),
    ensures
        held(s, s[i].0) == s[i].1,
    decreases s.len(),
{
    if i < s.len() - 1 {
        assert(s[i].0 != s.last().0);
        let front = s.drop_last();
        assert(front[i] == s[i]);
        lemma_entry_is_held(front, i);
    }
}

/// An entry holds no more than the whole list.
pub proof fn lemma_entry_within_total<K>(s: Seq<(K, u128)>, i: int)
    requires
        0 <= i < s.len(),
    ensures
        s[i].1 <= total(s),
    decreases s.len(),
{
    if i < s.len() - 1 {
        lemma_entry_within_total(s.drop_last(), i);
    }
}

/// Giving the entry at `i` the amount `amount` changes what its key holds
/// to `amount`, the total by the difference, and nothing else.
pub proof fn lemma_update<K>(s: Seq<(K, u128)>, i: int, amount: u128, other: K)
    requires
        distinct_keys(s),
        0 <= i < s.len(),
    ensures
        distinct_keys(s.update(i, (s[i].0, amount))),
        total(s.update(i, (s[i].0, amount))) == total(s) - s[i].1 + amount,
        held(s.update(i, (s[i].0, amount)), other) == if other == s[i].0 {
            amount as nat
        } else {
            held(s, other)
        },
    decreases s.len(),
{
    let t = s.update(i, (s[i].0, amount));
    let last = s.len() - 1;
    if i == last {
        assert(t.drop_last() =~= s.drop_last());
    } else {
        let front = s.drop_last();
        assert(front[i] == s[i]);
        assert(t.drop_last() =~= front.update(i, (s[i].0, amount)));
        assert(t.last() == s.last());
        assert(s[i].0 != s.last().0);
        lemma_update(front, i, amount, other);
    }
}

/// A new entry for a key that had none changes what the key holds to its
/// amount, the total by the same, and nothing else.
pub proof fn lemma_push<K>(s: Seq<(K, u128)>, key: K, amount: u128, other: K)
    requires
        distinct_keys(s),
        absent(s, key),
    ensures
        distinct_keys(s.push((key, amount))),
        total(s.push((key, amount))) == total(s) + amount,
        held(s.push((key, amount)), other) == if other == key {
            amount as nat
        } else {
            held(s, other)
        },
{
    let t = s.push((key, amount));
    assert(t.drop_last() =~= s);
    assert(t.last() == (key, amount));
}

/// The entries before `i` hold no more than the whole list, and one entry
/// more adds its amount.
pub proof fn lemma_total_of_front<K>(s: Seq<(K, u128)>, i: int)
    requires
        0 <= i < s.len(),
    ensures
        total(s.take(i + 1)) == total(s.take(i)) + s[i].1,
        total(s.take(i + 1)) <= total(s),
        total(s.take(s.len() as int)) == total(s),
    decreases s.len() - i,
{
    assert(s.take(i + 1).drop_last() =~= s.take(i));
    assert(s.take(s.len() as int) =~= s);
    if i + 1 < s.len() {
        lemma_total_of_front(s, i + 1);
        assert(s.take(i + 2).drop_last() =~= s.take(i + 1));
    }
}

} // verus!
