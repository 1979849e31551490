//! Association sequences: sequences of key-value entries in which the first
//! entry with a given key is the one that counts. They model the ordered
//! collections of an element, its attributes and its event-handler slots.

use vstd::prelude::*;

verus! {

/// The index of the first entry of `s` with key `k`, or `s.len()` if there is
/// none.
pub open spec fn position<K, V>(s: Seq<(K, V)>, k: K) -> int
    decreases s.len(),
{
    if s.len() == 0 {
        0
    } else if s[0].0 == k {
        0
    } else {
        1 + position(s.drop_first(), k)
    }
}

/// Some entry of `s` has the key `k`.
pub open spec fn contains_key<K, V>(s: Seq<(K, V)>, k: K) -> bool {
    position(s, k) < s.len()
}

/// The value that `s` holds for `k`.
pub open spec fn get<K, V>(s: Seq<(K, V)>, k: K) -> Option<V> {
    if contains_key(s, k) {
        Some(s[position(s, k)].1)
    } else {
        None
    }
}

/// `s` after `v` was stored for `k`: the entry for `k` is replaced where it
/// stands, or a new entry is added at the end.
pub open spec fn put<K, V>(s: Seq<(K, V)>, k: K, v: V) -> Seq<(K, V)> {
    if contains_key(s, k) {
        s.update(position(s, k), (k, v))
    } else {
        s.push((k, v))
    }
}

/// `s` without its entry for `k`.
pub open spec fn remove<K, V>(s: Seq<(K, V)>, k: K) -> Seq<(K, V)> {
    if contains_key(s, k) {
        s.remove(position(s, k))
    } else {
        s
    }
}

/// No two entries of `s` have the same key.
pub open spec fn unique_keys<K, V>(s: Seq<(K, V)>) -> bool {
    forall|i: int, j: int| 0 <= i < j < s.len() ==> (#[trigger] s[i]).0 != (#[trigger] s[j]).0
}

/// The number of entries of `s` with the key `k`.
pub open spec fn count<K, V>(s: Seq<(K, V)>, k: K) -> nat
    decreases s.len(),
{
    if s.len() == 0 {
        0
    } else {
        count(s.drop_last(), k) + if s.last().0 == k {
            1nat
        } else {
            0nat
        }
    }
}

/// What `position` finds: an entry with the key and no earlier one, or the
/// length where no entry has the key.
pub proof fn lemma_position<K, V>(s: Seq<(K, V)>, k: K)
    ensures
        0 <= position(s, k) <= s.len(),
        contains_key(s, k) ==> s[position(s, k)].0 == k,
        forall|j: int| 0 <= j < position(s, k) ==> (#[trigger] s[j]).0 != k,
    decreases s.len(),
{
    if s.len() > 0 && s[0].0 != k {
        let rest = s.drop_first();
        lemma_position(rest, k);
        assert forall|j: int| 0 <= j < position(s, k) implies (#[trigger] s[j]).0 != k by {
            if j > 0 {
                assert(s[j] == rest[j - 1]);
            }
        }
    }
}

/// An entry with the key that no entry with the key precedes is the one that
/// `position` finds.
pub proof fn lemma_position_is<K, V>(s: Seq<(K, V)>, k: K, i: int)
    requires
        0 <= i < s.len(),
        s[i].0 == k,
        forall|j: int| 0 <= j < i ==> (#[trigger] s[j]).0 != k,
    ensures
        position(s, k) == i,
{
    lemma_position(s, k);
}

/// Where no entry has the key, `position` is the length.
pub proof fn lemma_position_absent<K, V>(s: Seq<(K, V)>, k: K)
    requires
        forall|j: int| 0 <= j < s.len() ==> (#[trigger] s[j]).0 != k,
    ensures
        position(s, k) == s.len(),
        !contains_key(s, k),
{
    lemma_position(s, k);
}

/// After `put`, the key holds the value that was stored.
pub proof fn lemma_get_put_same<K, V>(s: Seq<(K, V)>, k: K, v: V)
    ensures
        get(put(s, k, v), k) == Some(v),
{
    lemma_position(s, k);
    let t = put(s, k, v);
    if contains_key(s, k) {
        lemma_position_is(t, k, position(s, k));
    } else {
        lemma_position_is(t, k, s.len() as int);
    }
}

/// `put` leaves the values of all other keys as they were.
pub proof fn lemma_get_put_other<K, V>(s: Seq<(K, V)>, k: K, v: V, other: K)
    requires
        other != k,
    ensures
        get(put(s, k, v), other) == get(s, other),
{
    lemma_position(s, k);
    lemma_position(s, other);
    let t = put(s, k, v);
    if contains_key(s, other) {
        lemma_position_is(t, other, position(s, other));
    } else {
        lemma_position_absent(t, other);
    }
}

/// `put` keeps keys unique, and stores exactly one entry for the key.
pub proof fn lemma_put_unique<K, V>(s: Seq<(K, V)>, k: K, v: V)
    requires
        unique_keys(s),
    ensures
        unique_keys(put(s, k, v)),
{
    lemma_position(s, k);
}

/// Storing a second value for a key replaces the first: the result is the
/// same as if only the second had been stored.
pub proof fn lemma_put_put<K, V>(s: Seq<(K, V)>, k: K, a: V, b: V)
    ensures
        put(put(s, k, a), k, b) == put(s, k, b),
{
    lemma_position(s, k);
    let t = put(s, k, a);
    if contains_key(s, k) {
        lemma_position_is(t, k, position(s, k));
    } else {
        lemma_position_is(t, k, s.len() as int);
    }
    assert(put(t, k, b) =~= put(s, k, b));
}

/// `remove` keeps keys unique.
pub proof fn lemma_remove_unique<K, V>(s: Seq<(K, V)>, k: K)
    requires
        unique_keys(s),
    ensures
        unique_keys(remove(s, k)),
{
    lemma_position(s, k);
}

/// After `remove`, a sequence with unique keys holds nothing for the key.
pub proof fn lemma_get_remove_same<K, V>(s: Seq<(K, V)>, k: K)
    requires
        unique_keys(s),
    ensures
        !contains_key(remove(s, k), k),
        get(remove(s, k), k) is None,
{
    lemma_position(s, k);
    lemma_position_absent(remove(s, k), k);
}

/// `remove` leaves the values of all other keys as they were.
pub proof fn lemma_get_remove_other<K, V>(s: Seq<(K, V)>, k: K, other: K)
    requires
        other != k,
    ensures
        get(remove(s, k), other) == get(s, other),
{
    lemma_position(s, k);
    lemma_position(s, other);
    let t = remove(s, k);
    if contains_key(s, k) {
        let p = position(s, k);
        if contains_key(s, other) {
            let q = position(s, other);
            if q < p {
                lemma_position_is(t, other, q);
            } else {
                assert forall|j: int| 0 <= j < q - 1 implies (#[trigger] t[j]).0 != other by {
                    if j >= p {
                        assert(t[j] == s[j + 1]);
                    }
                }
                lemma_position_is(t, other, q - 1);
            }
        } else {
            assert forall|j: int| 0 <= j < t.len() implies (#[trigger] t[j]).0 != other by {
                if j >= p {
                    assert(t[j] == s[j + 1]);
                }
            }
            lemma_position_absent(t, other);
        }
    }
}

/// Removing a key a second time changes nothing.
pub proof fn lemma_remove_remove<K, V>(s: Seq<(K, V)>, k: K)
    requires
        unique_keys(s),
    ensures
        remove(remove(s, k), k) == remove(s, k),
{
    lemma_get_remove_same(s, k);
}

/// Where no entry has the key, the key is counted zero times.
pub proof fn lemma_count_absent<K, V>(s: Seq<(K, V)>, k: K)
    requires
        forall|j: int| 0 <= j < s.len() ==> (#[trigger] s[j]).0 != k,
    ensures
        count(s, k) == 0,
    decreases s.len(),
{
    if s.len() > 0 {
        lemma_count_absent(s.drop_last(), k);
    }
}

/// In a sequence with unique keys, a key that occurs is counted exactly once.
pub proof fn lemma_count_unique<K, V>(s: Seq<(K, V)>, k: K)
    requires
        unique_keys(s),
    ensures
        count(s, k) == if contains_key(s, k) {
            1nat
        } else {
            0nat
        },
    decreases s.len(),
{
    lemma_position(s, k);
    if s.len() > 0 {
        let front = s.drop_last();
        lemma_position(front, k);
        if s.last().0 == k {
            lemma_count_absent(front, k);
        } else {
            lemma_count_unique(front, k);
            if contains_key(front, k) {
                lemma_position_is(s, k, position(front, k));
            } else {
                assert forall|j: int| 0 <= j < s.len() implies (#[trigger] s[j]).0 != k by {
                    if j < front.len() {
                        assert(front[j] == s[j]);
                    }
                }
                lemma_position_absent(s, k);
            }
        }
    }
}

} // verus!
