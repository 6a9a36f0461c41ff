//! Association sequences: a finite map written down as a sequence of
//! key-value pairs in which no key occurs twice.
//!
//! The role registry and the membership store both keep their entries this
//! way. The lemmas here relate the three ways such a sequence is edited
//! (append, overwrite in place, delete) to the map it stands for.

use vstd::prelude::*;

verus! {

/// The key of the `i`-th pair.
pub open spec fn key_at<K, V>(s: Seq<(K, V)>, i: int) -> K {
    s[i].0
}

/// No key occurs in two places.
pub open spec fn distinct_keys<K, V>(s: Seq<(K, V)>) -> bool {
    forall|i: int, j: int|
        0 <= i < s.len() && 0 <= j < s.len() && i != j ==> #[trigger] key_at(s, i) != #[trigger] key_at(
            s,
            j,
        )
}

/// Some pair of `s` has the key `k`.
pub open spec fn has_key<K, V>(s: Seq<(K, V)>, k: K) -> bool {
    exists|i: int| 0 <= i < s.len() && #[trigger] key_at(s, i) == k
}

/// A place at which `k` occurs in `s`, where there is one.
pub open spec fn place_of<K, V>(s: Seq<(K, V)>, k: K) -> int {
    choose|i: int| 0 <= i < s.len() && #[trigger] key_at(s, i) == k
}

/// The map that `s` stands for.
pub open spec fn as_map<K, V>(s: Seq<(K, V)>) -> Map<K, V> {
    Map::new(|k: K| has_key(s, k), |k: K| s[place_of(s, k)].1)
}

/// With distinct keys, the pair found at place `i` is what the map holds
/// under that pair's key.
pub proof fn lemma_lookup<K, V>(s: Seq<(K, V)>, i: int)
    requires
        distinct_keys(s),
        0 <= i < s.len(),
    ensures
        as_map(s).contains_key(s[i].0),
        as_map(s)[s[i].0] == s[i].1,
{
    let k = s[i].0;
    assert(key_at(s, i) == k);
    let p = place_of(s, k);
    assert(key_at(s, p) == k);
    assert(p == i);
}

/// A key that no pair carries is not in the map.
pub proof fn lemma_absent<K, V>(s: Seq<(K, V)>, k: K)
    requires
        forall|i: int| 0 <= i < s.len() ==> #[trigger] key_at(s, i) != k,
    ensures
        !as_map(s).contains_key(k),
{
}

/// Appending a pair under a fresh key inserts it into the map.
pub proof fn lemma_push<K, V>(s: Seq<(K, V)>, k: K, v: V)
    requires
        distinct_keys(s),
        !as_map(s).contains_key(k),
    ensures
        distinct_keys(s.push((k, v))),
        as_map(s.push((k, v))) == as_map(s).insert(k, v),
{
    let t = s.push((k, v));
    assert forall|i: int, j: int| 0 <= i < t.len() && 0 <= j < t.len() && i != j implies #[trigger] key_at(
        t,
        i,
    ) != #[trigger] key_at(t, j) by {
        if i < s.len() {
            assert(key_at(t, i) == key_at(s, i));
            assert(has_key(s, key_at(s, i)));
        }
        if j < s.len() {
            assert(key_at(t, j) == key_at(s, j));
            assert(has_key(s, key_at(s, j)));
        }
    }
    assert forall|q: K| as_map(t).contains_key(q) <==> as_map(s).insert(k, v).contains_key(q) by {
        if has_key(t, q) {
            let i = place_of(t, q);
            if i < s.len() {
                assert(key_at(s, i) == q);
            }
        }
        if has_key(s, q) {
            let i = place_of(s, q);
            assert(key_at(t, i) == q);
        }
        if q == k {
            assert(key_at(t, s.len() as int) == k);
        }
    }
    assert forall|q: K| as_map(t).contains_key(q) implies as_map(t)[q] == as_map(s).insert(k, v)[q] by {
        let i = place_of(t, q);
        lemma_lookup(t, i);
        if i < s.len() {
            assert(key_at(s, i) == q);
            lemma_lookup(s, i);
        }
    }
    assert(as_map(t) =~= as_map(s).insert(k, v));
}

/// Overwriting the value at place `i` updates the map under that key.
pub proof fn lemma_update<K, V>(s: Seq<(K, V)>, i: int, v: V)
    requires
        distinct_keys(s),
        0 <= i < s.len(),
    ensures
        distinct_keys(s.update(i, (s[i].0, v))),
        as_map(s.update(i, (s[i].0, v))) == as_map(s).insert(s[i].0, v),
{
    let k = s[i].0;
    let t = s.update(i, (k, v));
    assert forall|a: int| 0 <= a < s.len() implies #[trigger] key_at(t, a) == key_at(s, a) by {}
    assert forall|a: int, b: int| 0 <= a < t.len() && 0 <= b < t.len() && a != b implies #[trigger] key_at(
        t,
        a,
    ) != #[trigger] key_at(t, b) by {
        assert(key_at(s, a) != key_at(s, b));
    }
    assert forall|q: K| as_map(t).contains_key(q) <==> as_map(s).insert(k, v).contains_key(q) by {
        if has_key(t, q) {
            let a = place_of(t, q);
            assert(key_at(s, a) == q);
        }
        if has_key(s, q) {
            let a = place_of(s, q);
            assert(key_at(t, a) == q);
        }
        if q == k {
            assert(key_at(t, i) == k);
        }
    }
    assert forall|q: K| as_map(t).contains_key(q) implies as_map(t)[q] == as_map(s).insert(k, v)[q] by {
        let a = place_of(t, q);
        lemma_lookup(t, a);
        assert(key_at(s, a) == q);
        lemma_lookup(s, a);
        if q == k {
            assert(key_at(s, i) == k);
            assert(a == i);
        } else {
            assert(a != i);
        }
    }
    assert(as_map(t) =~= as_map(s).insert(k, v));
}

/// Deleting the pair at place `i` removes its key from the map.
pub proof fn lemma_remove<K, V>(s: Seq<(K, V)>, i: int)
    requires
        distinct_keys(s),
        0 <= i < s.len(),
    ensures
        distinct_keys(s.remove(i)),
        as_map(s.remove(i)) == as_map(s).remove(s[i].0),
{
    let k = s[i].0;
    let t = s.remove(i);
    assert forall|a: int| 0 <= a < t.len() implies #[trigger] key_at(t, a) == key_at(
        s,
        if a < i {
            a
        } else {
            a + 1
        },
    ) by {}
    assert forall|a: int, b: int| 0 <= a < t.len() && 0 <= b < t.len() && a != b implies #[trigger] key_at(
        t,
        a,
    ) != #[trigger] key_at(t, b) by {
        let a0 = if a < i { a } else { a + 1 };
        let b0 = if b < i { b } else { b + 1 };
        assert(key_at(s, a0) != key_at(s, b0));
    }
    assert forall|q: K| as_map(t).contains_key(q) <==> as_map(s).remove(k).contains_key(q) by {
        if has_key(t, q) {
            let a = place_of(t, q);
            let a0 = if a < i { a } else { a + 1 };
            assert(key_at(s, a0) == q);
            assert(key_at(s, i) == k);
        }
        if has_key(s, q) && q != k {
            let a0 = place_of(s, q);
            assert(key_at(s, i) == k);
            let a = if a0 < i { a0 } else { a0 - 1 };
            assert(key_at(t, a) == q);
        }
    }
    assert forall|q: K| as_map(t).contains_key(q) implies as_map(t)[q] == as_map(s).remove(k)[q] by {
        let a = place_of(t, q);
        lemma_lookup(t, a);
        let a0 = if a < i { a } else { a + 1 };
        assert(key_at(s, a0) == q);
        lemma_lookup(s, a0);
    }
    assert(as_map(t) =~= as_map(s).remove(k));
}

} // verus!
