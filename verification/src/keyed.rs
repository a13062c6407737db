//! Association lists: sequences of `(key, value)` pairs whose keys are unique,
//! read as finite maps. The tables of the library store their entries in a
//! `Vec` and state their contracts over the map that these lemmas relate to it.
use vstd::prelude::*;

verus! {

/// No key occurs twice.
pub open spec fn unique_keys<K, V>(s: Seq<(K, V)>) -> bool {
    forall|i: int, j: int|
        #![trigger s[i], s[j]]
        0 <= i < s.len() && 0 <= j < s.len() && i != j ==> s[i].0 != s[j].0
}

/// The map that an association list denotes (a later pair wins, which only
/// matters when keys repeat).
pub open spec fn map_of<K, V>(s: Seq<(K, V)>) -> Map<K, V>
    decreases s.len(),
{
    if s.len() == 0 {
        Map::empty()
    } else {
        map_of(s.drop_last()).insert(s.last().0, s.last().1)
    }
}

/// A key is in the map exactly when some pair carries it.
pub proof fn lemma_map_of_contains<K, V>(s: Seq<(K, V)>, k: K)
    ensures
        map_of(s).contains_key(k) <==> exists|i: int| 0 <= i < s.len() && #[trigger] s[i].0 == k,
    decreases s.len(),
{
    if s.len() > 0 {
        let t = s.drop_last();
        lemma_map_of_contains(t, k);
        if map_of(s).contains_key(k) {
            if s.last().0 != k {
                let i = choose|i: int| 0 <= i < t.len() && #[trigger] t[i].0 == k;
                assert(s[i].0 == k);
            } else {
                assert(s[s.len() - 1].0 == k);
            }
        }
        if exists|i: int| 0 <= i < s.len() && #[trigger] s[i].0 == k {
            let i = choose|i: int| 0 <= i < s.len() && #[trigger] s[i].0 == k;
            if i < s.len() - 1 {
                assert(t[i].0 == k);
            }
        }
    }
}

/// With unique keys, each pair's value is the map's value at its key.
pub proof fn lemma_map_of_index<K, V>(s: Seq<(K, V)>, i: int)
    requires
        unique_keys(s),
        0 <= i < s.len(),
    ensures
        map_of(s).contains_key(s[i].0),
        map_of(s)[s[i].0] == s[i].1,
    decreases s.len(),
{
    let t = s.drop_last();
    if i < s.len() - 1 {
        assert(unique_keys(t)) by {
            assert forall|a: int, b: int|
                0 <= a < t.len() && 0 <= b < t.len() && a != b implies t[a].0 != t[b].0 by {
                assert(t[a] == s[a] && t[b] == s[b]);
            }
        }
        assert(t[i] == s[i]);
        lemma_map_of_index(t, i);
        assert(s[i].0 != s[s.len() - 1].0);
    }
}

/// An association list with unique keys has as many pairs as its map has keys.
pub proof fn lemma_map_of_len<K, V>(s: Seq<(K, V)>)
    requires
        unique_keys(s),
    ensures
        map_of(s).dom().finite(),
        map_of(s).dom().len() == s.len(),
    decreases s.len(),
{
    if s.len() > 0 {
        let t = s.drop_last();
        assert(unique_keys(t)) by {
            assert forall|a: int, b: int|
                0 <= a < t.len() && 0 <= b < t.len() && a != b implies t[a].0 != t[b].0 by {
                assert(t[a] == s[a] && t[b] == s[b]);
            }
        }
        lemma_map_of_len(t);
        lemma_map_of_contains(t, s.last().0);
        if map_of(t).contains_key(s.last().0) {
            let i = choose|i: int| 0 <= i < t.len() && #[trigger] t[i].0 == s.last().0;
            assert(s[i].0 == s[s.len() - 1].0);
        }
    }
}

/// Dropping the last pair leaves unique keys unique.
pub proof fn lemma_unique_take<K, V>(s: Seq<(K, V)>, n: int)
    requires
        unique_keys(s),
        0 <= n <= s.len(),
    ensures
        unique_keys(s.take(n)),
{
    let t = s.take(n);
    assert forall|a: int, b: int|
        0 <= a < t.len() && 0 <= b < t.len() && a != b implies t[a].0 != t[b].0 by {
        assert(t[a] == s[a] && t[b] == s[b]);
    }
}

/// Replacing the value of one pair updates the map at that key.
pub proof fn lemma_map_of_update<K, V>(s: Seq<(K, V)>, i: int, v: V)
    requires
        unique_keys(s),
        0 <= i < s.len(),
    ensures
        unique_keys(s.update(i, (s[i].0, v))),
        map_of(s.update(i, (s[i].0, v))) == map_of(s).insert(s[i].0, v),
{
    let u = s.update(i, (s[i].0, v));
    assert(unique_keys(u)) by {
        assert forall|a: int, b: int|
            0 <= a < u.len() && 0 <= b < u.len() && a != b implies u[a].0 != u[b].0 by {
            assert(u[a].0 == s[a].0 && u[b].0 == s[b].0);
        }
    }
    let m = map_of(s).insert(s[i].0, v);
    assert forall|k: K| #[trigger] map_of(u).contains_key(k) <==> m.contains_key(k) by {
        lemma_map_of_contains(u, k);
        lemma_map_of_contains(s, k);
        if exists|j: int| 0 <= j < u.len() && #[trigger] u[j].0 == k {
            let j = choose|j: int| 0 <= j < u.len() && #[trigger] u[j].0 == k;
            assert(s[j].0 == k);
        }
        if exists|j: int| 0 <= j < s.len() && #[trigger] s[j].0 == k {
            let j = choose|j: int| 0 <= j < s.len() && #[trigger] s[j].0 == k;
            assert(u[j].0 == k);
        }
    }
    assert forall|k: K| #[trigger] map_of(u).contains_key(k) implies map_of(u)[k] == m[k] by {
        lemma_map_of_contains(u, k);
        let j = choose|j: int| 0 <= j < u.len() && #[trigger] u[j].0 == k;
        lemma_map_of_index(u, j);
        if j != i {
            assert(u[j] == s[j]);
            lemma_map_of_index(s, j);
        }
    }
    assert(map_of(u) =~= m);
}

/// Appending a pair with a new key inserts it into the map.
pub proof fn lemma_map_of_push<K, V>(s: Seq<(K, V)>, k: K, v: V)
    requires
        unique_keys(s),
        !map_of(s).contains_key(k),
    ensures
        unique_keys(s.push((k, v))),
        map_of(s.push((k, v))) == map_of(s).insert(k, v),
{
    let u = s.push((k, v));
    assert(u.drop_last() =~= s);
    lemma_map_of_contains(s, k);
    assert(unique_keys(u)) by {
        assert forall|a: int, b: int|
            0 <= a < u.len() && 0 <= b < u.len() && a != b implies u[a].0 != u[b].0 by {
            if a < s.len() && b < s.len() {
                assert(u[a] == s[a] && u[b] == s[b]);
            } else if a < s.len() {
                assert(u[a] == s[a]);
                assert(s[a].0 != k);
            } else {
                assert(u[b] == s[b]);
                assert(s[b].0 != k);
            }
        }
    }
}

/// Removing one pair removes its key from the map.
pub proof fn lemma_map_of_remove<K, V>(s: Seq<(K, V)>, i: int)
    requires
        unique_keys(s),
        0 <= i < s.len(),
    ensures
        unique_keys(s.remove(i)),
        map_of(s.remove(i)) == map_of(s).remove(s[i].0),
{
    let u = s.remove(i);
    assert(unique_keys(u)) by {
        assert forall|a: int, b: int|
            0 <= a < u.len() && 0 <= b < u.len() && a != b implies u[a].0 != u[b].0 by {
            let a2 = if a < i { a } else { a + 1 };
            let b2 = if b < i { b } else { b + 1 };
            assert(u[a] == s[a2] && u[b] == s[b2]);
        }
    }
    let m = map_of(s).remove(s[i].0);
    assert forall|k: K| #[trigger] map_of(u).contains_key(k) <==> m.contains_key(k) by {
        lemma_map_of_contains(u, k);
        lemma_map_of_contains(s, k);
        if exists|j: int| 0 <= j < u.len() && #[trigger] u[j].0 == k {
            let j = choose|j: int| 0 <= j < u.len() && #[trigger] u[j].0 == k;
            let j2 = if j < i { j } else { j + 1 };
            assert(s[j2].0 == k);
            assert(j2 != i);
        }
        if m.contains_key(k) {
            let j = choose|j: int| 0 <= j < s.len() && #[trigger] s[j].0 == k;
            assert(j != i);
            let j2 = if j < i { j } else { j - 1 };
            assert(u[j2].0 == k);
        }
    }
    assert forall|k: K| #[trigger] map_of(u).contains_key(k) implies map_of(u)[k] == m[k] by {
        lemma_map_of_contains(u, k);
        let j = choose|j: int| 0 <= j < u.len() && #[trigger] u[j].0 == k;
        lemma_map_of_index(u, j);
        let j2 = if j < i { j } else { j + 1 };
        assert(u[j] == s[j2]);
        lemma_map_of_index(s, j2);
    }
    assert(map_of(u) =~= m);
}

/// Extending a prefix by one pair extends the map by that pair.
pub proof fn lemma_map_of_take_succ<K, V>(s: Seq<(K, V)>, n: int)
    requires
        0 <= n < s.len(),
    ensures
        map_of(s.take(n + 1)) == map_of(s.take(n)).insert(s[n].0, s[n].1),
{
    assert(s.take(n + 1).drop_last() =~= s.take(n));
}

/// The keys of a map retained by a predicate on its entries.
pub open spec fn keep_where<K, V>(m: Map<K, V>, keep: spec_fn(K, V) -> bool) -> Map<K, V> {
    Map::new(|k: K| m.contains_key(k) && keep(k, m[k]), |k: K| m[k])
}

/// Filtering one more pair extends the filtered map accordingly.
pub proof fn lemma_keep_where_step<K, V>(
    s: Seq<(K, V)>,
    n: int,
    kept: Seq<(K, V)>,
    keep: spec_fn(K, V) -> bool,
)
    requires
        unique_keys(s),
        0 <= n < s.len(),
        unique_keys(kept),
        map_of(kept) == keep_where(map_of(s.take(n)), keep),
    ensures
        keep(s[n].0, s[n].1) ==> !map_of(kept).contains_key(s[n].0),
        keep(s[n].0, s[n].1) ==> map_of(kept).insert(s[n].0, s[n].1) == keep_where(
            map_of(s.take(n + 1)),
            keep,
        ),
        !keep(s[n].0, s[n].1) ==> map_of(kept) == keep_where(map_of(s.take(n + 1)), keep),
{
    lemma_map_of_take_succ(s, n);
    lemma_unique_take(s, n);
    let t = s.take(n);
    lemma_map_of_contains(t, s[n].0);
    if map_of(t).contains_key(s[n].0) {
        let j = choose|j: int| 0 <= j < t.len() && #[trigger] t[j].0 == s[n].0;
        assert(s[j].0 == s[n].0);
    }
    let big = keep_where(map_of(s.take(n + 1)), keep);
    if keep(s[n].0, s[n].1) {
        assert(map_of(kept).insert(s[n].0, s[n].1) =~= big);
    } else {
        assert(map_of(kept) =~= big);
    }
}

/// The whole sequence is its own longest prefix.
pub proof fn lemma_take_full<K, V>(s: Seq<(K, V)>)
    ensures
        s.take(s.len() as int) == s,
{
    assert(s.take(s.len() as int) =~= s);
}

/// The sum of the counts of an association list.
pub open spec fn sum_counts<K>(s: Seq<(K, usize)>) -> int
    decreases s.len(),
{
    if s.len() == 0 {
        0
    } else {
        sum_counts(s.drop_last()) + s.last().1
    }
}

/// Changing one count changes the sum by the difference.
pub proof fn lemma_sum_counts_update<K>(s: Seq<(K, usize)>, i: int, v: usize)
    requires
        0 <= i < s.len(),
    ensures
        sum_counts(s.update(i, (s[i].0, v))) == sum_counts(s) - s[i].1 + v,
    decreases s.len(),
{
    let u = s.update(i, (s[i].0, v));
    if i < s.len() - 1 {
        assert(u.drop_last() =~= s.drop_last().update(i, (s[i].0, v)));
        lemma_sum_counts_update(s.drop_last(), i, v);
    } else {
        assert(u.drop_last() =~= s.drop_last());
    }
}

/// Appending a count adds it to the sum.
pub proof fn lemma_sum_counts_push<K>(s: Seq<(K, usize)>, k: K, v: usize)
    ensures
        sum_counts(s.push((k, v))) == sum_counts(s) + v,
{
    assert(s.push((k, v)).drop_last() =~= s);
}

/// Removing a count subtracts it from the sum.
pub proof fn lemma_sum_counts_remove<K>(s: Seq<(K, usize)>, i: int)
    requires
        0 <= i < s.len(),
    ensures
        sum_counts(s.remove(i)) == sum_counts(s) - s[i].1,
    decreases s.len(),
{
    let u = s.remove(i);
    if i < s.len() - 1 {
        assert(u.drop_last() =~= s.drop_last().remove(i));
        lemma_sum_counts_remove(s.drop_last(), i);
    } else {
        assert(u =~= s.drop_last());
    }
}

/// A sum of counts is at least each of its counts.
pub proof fn lemma_sum_counts_bound<K>(s: Seq<(K, usize)>, i: int)
    requires
        0 <= i < s.len(),
    ensures
        sum_counts(s) >= s[i].1,
    decreases s.len(),
{
    lemma_sum_counts_nonneg(s.drop_last());
    if i < s.len() - 1 {
        lemma_sum_counts_bound(s.drop_last(), i);
    }
}

/// A sum of counts is never negative.
pub proof fn lemma_sum_counts_nonneg<K>(s: Seq<(K, usize)>)
    ensures
        sum_counts(s) >= 0,
    decreases s.len(),
{
    if s.len() > 0 {
        lemma_sum_counts_nonneg(s.drop_last());
    }
}

} // verus!
