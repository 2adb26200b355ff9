//! Lists of key-value pairs read as maps.
//!
//! Small tables are kept as lists and searched from the front. These are the
//! facts that relate a change of the list to a change of the map.

use vstd::prelude::*;

verus! {

/// The map that a list of pairs stands for. Where a key occurs more than
/// once, the first pair counts.
pub open spec fn pairs_map<K, V>(pairs: Seq<(K, V)>) -> Map<K, V>
    decreases pairs.len(),
{
    if pairs.len() == 0 {
        Map::<K, V>::empty()
    } else {
        pairs_map(pairs.subrange(1, pairs.len() as int)).insert(pairs[0].0, pairs[0].1)
    }
}

/// The value that `map` holds for `key`, if it holds one.
pub open spec fn lookup<K, V>(map: Map<K, V>, key: K) -> Option<V> {
    if map.dom().contains(key) {
        Some(map[key])
    } else {
        None
    }
}

/// Pairs with other keys at the front of the list do not matter to what the
/// map holds for `key`.
pub proof fn lemma_pairs_map_skips<K, V>(pairs: Seq<(K, V)>, key: K, n: int)
    requires
        0 <= n <= pairs.len(),
        forall|k: int| 0 <= k < n ==> (#[trigger] pairs[k]).0 != key,
    ensures
        lookup(pairs_map(pairs), key) == lookup(
            pairs_map(pairs.subrange(n, pairs.len() as int)),
            key,
        ),
    decreases n,
{
    if n == 0 {
        assert(pairs.subrange(0, pairs.len() as int) =~= pairs);
    } else {
        let rest = pairs.subrange(1, pairs.len() as int);
        lemma_pairs_map_skips(rest, key, n - 1);
        assert(rest.subrange(n - 1, rest.len() as int) =~= pairs.subrange(n, pairs.len() as int));
    }
}

/// What the map holds for `key` where the first pair with that key is at
/// `i`, and where there is no such pair.
pub proof fn lemma_pairs_map_lookup<K, V>(pairs: Seq<(K, V)>, key: K, i: int)
    requires
        0 <= i <= pairs.len(),
        forall|k: int| 0 <= k < i ==> (#[trigger] pairs[k]).0 != key,
        i < pairs.len() ==> pairs[i].0 == key,
    ensures
        lookup(pairs_map(pairs), key) == if i < pairs.len() {
            Some(pairs[i].1)
        } else {
            None
        },
{
    lemma_pairs_map_skips(pairs, key, i);
}

/// Replacing the value of the first pair with `key` is an insertion into
/// the map.
pub proof fn lemma_pairs_map_update<K, V>(pairs: Seq<(K, V)>, i: int, key: K, value: V)
    requires
        0 <= i < pairs.len(),
        pairs[i].0 == key,
        forall|k: int| 0 <= k < i ==> (#[trigger] pairs[k]).0 != key,
    ensures
        pairs_map(pairs.update(i, (key, value))) == pairs_map(pairs).insert(key, value),
    decreases i,
{
    let updated = pairs.update(i, (key, value));
    let rest = pairs.subrange(1, pairs.len() as int);
    if i > 0 {
        lemma_pairs_map_update(rest, i - 1, key, value);
        assert(updated.subrange(1, updated.len() as int) =~= rest.update(i - 1, (key, value)));
    } else {
        assert(updated.subrange(1, updated.len() as int) =~= rest);
    }
}

/// Adding a pair with a key that the list does not hold yet is an insertion
/// into the map.
pub proof fn lemma_pairs_map_push<K, V>(pairs: Seq<(K, V)>, key: K, value: V)
    requires
        forall|k: int| 0 <= k < pairs.len() ==> (#[trigger] pairs[k]).0 != key,
    ensures
        pairs_map(pairs.push((key, value))) == pairs_map(pairs).insert(key, value),
    decreases pairs.len(),
{
    let pushed = pairs.push((key, value));
    if pairs.len() > 0 {
        let rest = pairs.subrange(1, pairs.len() as int);
        lemma_pairs_map_push(rest, key, value);
        assert(pushed.subrange(1, pushed.len() as int) =~= rest.push((key, value)));
    } else {
        let tail = pushed.subrange(1, pushed.len() as int);
        assert(pairs_map(tail) =~= Map::<K, V>::empty());
    }
}

} // verus!
