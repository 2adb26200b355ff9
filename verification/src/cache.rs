//! The last value seen for each session on the serial line.

use crate::assoc::{
    lemma_pairs_map_lookup, lemma_pairs_map_push, lemma_pairs_map_update, lookup, pairs_map,
};
use crate::text::str_eq;
use vstd::prelude::*;

verus! {

/// One session's last value. The sign carries the mute state: a negative
/// value means muted, and its magnitude is the volume to restore.
pub struct CacheEntry {
    pub key: String,
    pub value: i32,
}

/// The value that `cache` holds for `key`; a session that was never seen
/// counts as zero.
pub open spec fn cached(cache: Map<Seq<char>, i32>, key: Seq<char>) -> i32 {
    match lookup(cache, key) {
        Some(value) => value,
        None => 0,
    }
}

/// The last value seen for each session, by session key.
pub struct SessionVolumeCache {
    entries: Vec<CacheEntry>,
}

impl SessionVolumeCache {
    closed spec fn pairs(&self) -> Seq<(Seq<char>, i32)> {
        self.entries@.map_values(|e: CacheEntry| (e.key@, e.value))
    }
}

impl View for SessionVolumeCache {
    type V = Map<Seq<char>, i32>;

    closed spec fn view(&self) -> Map<Seq<char>, i32> {
        pairs_map(self.pairs())
    }
}

impl SessionVolumeCache {
    /// A cache that has seen nothing.
    pub fn new() -> (r: SessionVolumeCache)
        ensures
            r@ == Map::<Seq<char>, i32>::empty(),
    {
        let r = SessionVolumeCache { entries: Vec::new() };
        r
    }

    /// The value held for `key`, or zero if the session was never seen.
    pub fn get(&self, key: &str) -> (value: i32)
        ensures
            value == cached(self@, key@),
    {
        let ghost pairs = self.pairs();
        let mut i: usize = 0;
        while i < self.entries.len()
            invariant
                i <= self.entries@.len(),
                pairs == self.pairs(),
                forall|k: int| 0 <= k < i ==> (#[trigger] pairs[k]).0 != key@,
            decreases self.entries@.len() - i,
        {
            if str_eq(self.entries[i].key.as_str(), key) {
                proof {
                    lemma_pairs_map_lookup(pairs, key@, i as int);
                }
                return self.entries[i].value;
            }
            i = i + 1;
        }
        proof {
            lemma_pairs_map_lookup(pairs, key@, i as int);
        }
        0
    }

    /// Records `value` for `key` in place of what was held before.
    pub fn set(&mut self, key: &str, value: i32)
        ensures
            final(self)@ == old(self)@.insert(key@, value),
    {
        let ghost pairs = self.pairs();
        let mut i: usize = 0;
        while i < self.entries.len()
            invariant
                i <= self.entries@.len(),
                pairs == self.pairs(),
                pairs == old(self).pairs(),
                forall|k: int| 0 <= k < i ==> (#[trigger] pairs[k]).0 != key@,
            decreases self.entries@.len() - i,
        {
            if str_eq(self.entries[i].key.as_str(), key) {
                self.entries.set(i, CacheEntry { key: key.to_owned(), value });
                proof {
                    assert(self.pairs() =~= pairs.update(i as int, (key@, value)));
                    lemma_pairs_map_update(pairs, i as int, key@, value);
                }
                return ;
            }
            i = i + 1;
        }
        self.entries.push(CacheEntry { key: key.to_owned(), value });
        proof {
            assert(self.pairs() =~= pairs.push((key@, value)));
            lemma_pairs_map_push(pairs, key@, value);
        }
    }
}

} // verus!
