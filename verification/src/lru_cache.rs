//! A byte-budgeted LRU cache of documents keyed by URL hash.
//!
//! The order of entries is explicit: index 0 is the least recently used
//! entry, the last index the most recently used. The accounted size always
//! equals the sum of the stored payload lengths and never exceeds the
//! budget. A fresh `put` evicts from the front until the new entry fits;
//! a `put` on a present key leaves the cache unchanged (it does not
//! refresh the position); a `get` on a hit moves the key to the
//! most-recent end.

use vstd::prelude::*;

use crate::document::Document;
use crate::strings::str_eq;

verus! {

/// One cache slot: a key and the document stored under it.
pub struct CacheEntry {
    pub key: String,
    pub value: Document,
}

/// The sum of the accounted sizes of the entries.
pub open spec fn size_sum(s: Seq<CacheEntry>) -> int
    decreases s.len(),
{
    if s.len() == 0 {
        0
    } else {
        size_sum(s.drop_last()) + s.last().value.bytes@.len()
    }
}

/// How many front entries must leave so that a new entry of size `need`
/// fits under `max`.
pub open spec fn evict_count(s: Seq<CacheEntry>, need: int, max: int) -> int
    decreases s.len(),
{
    if size_sum(s) + need <= max {
        0
    } else if s.len() == 0 {
        0
    } else {
        1 + evict_count(s.drop_first(), need, max)
    }
}

/// `a + b` capped at the largest counter value.
pub open spec fn sat_add(a: u64, b: int) -> u64 {
    if a + b > u64::MAX {
        u64::MAX
    } else {
        (a + b) as u64
    }
}

pub proof fn lemma_size_sum_nonneg(s: Seq<CacheEntry>)
    ensures
        0 <= size_sum(s),
    decreases s.len(),
{
    if s.len() > 0 {
        lemma_size_sum_nonneg(s.drop_last());
    }
}

pub proof fn lemma_size_sum_drop_first(s: Seq<CacheEntry>)
    requires
        s.len() > 0,
    ensures
        size_sum(s) == s[0].value.bytes@.len() + size_sum(s.drop_first()),
    decreases s.len(),
{
    if s.len() == 1 {
        assert(s.drop_first() =~= Seq::<CacheEntry>::empty());
        assert(s.drop_last() =~= Seq::<CacheEntry>::empty());
    } else {
        lemma_size_sum_drop_first(s.drop_last());
        assert(s.drop_last().drop_first() =~= s.drop_first().drop_last());
        assert(s.drop_first().last() == s.last());
    }
}

pub proof fn lemma_size_sum_remove(s: Seq<CacheEntry>, i: int)
    requires
        0 <= i < s.len(),
    ensures
        size_sum(s.remove(i)) == size_sum(s) - s[i].value.bytes@.len(),
    decreases s.len(),
{
    if i == s.len() - 1 {
        assert(s.remove(i) =~= s.drop_last());
    } else {
        lemma_size_sum_remove(s.drop_last(), i);
        assert(s.remove(i).drop_last() =~= s.drop_last().remove(i));
        assert(s.remove(i).last() == s.last());
    }
}

/// The in-memory LRU cache. `entries` is ordered least-recently-used
/// first; `current_size` is the accounted sum of payload lengths.
pub struct MemoryBoundedLruCache {
    entries: Vec<CacheEntry>,
    max_size_in_bytes: u64,
    current_size: u64,
    hits: u64,
    misses: u64,
    evictions: u64,
}

/// A snapshot of the cache gauges, for the metrics endpoint.
pub struct CacheMetrics {
    pub items: usize,
    pub mem_total_bytes: u64,
    pub mem_used_bytes: u64,
    pub hits: u64,
    pub misses: u64,
    pub evictions: u64,
}

impl MemoryBoundedLruCache {
    /// The entries in usage order, least recently used first.
    pub closed spec fn entries_view(&self) -> Seq<CacheEntry> {
        self.entries@
    }

    /// The keys in usage order, least recently used first.
    pub open spec fn order(&self) -> Seq<Seq<char>> {
        self.entries_view().map_values(|e: CacheEntry| e.key@)
    }

    pub closed spec fn max_model(&self) -> u64 {
        self.max_size_in_bytes
    }

    pub closed spec fn size_model(&self) -> u64 {
        self.current_size
    }

    pub closed spec fn hits_model(&self) -> u64 {
        self.hits
    }

    pub closed spec fn misses_model(&self) -> u64 {
        self.misses
    }

    pub closed spec fn evictions_model(&self) -> u64 {
        self.evictions
    }

    /// Whether a key is present.
    pub open spec fn has_key(&self, k: Seq<char>) -> bool {
        exists|i: int| 0 <= i < self.entries_view().len() && self.entries_view()[i].key@ == k
    }

    /// The position of a present key in the usage order.
    pub open spec fn key_index(&self, k: Seq<char>) -> int {
        choose|i: int| 0 <= i < self.entries_view().len() && self.entries_view()[i].key@ == k
    }

    /// The document stored under a present key.
    pub open spec fn value_of(&self, k: Seq<char>) -> crate::document::DocView {
        self.entries_view()[self.key_index(k)].value@
    }

    /// Well-formedness: keys are distinct, the accounted size is the sum
    /// of the stored payload lengths, and it never exceeds the budget.
    pub closed spec fn wf(&self) -> bool {
        &&& forall|i: int, j: int|
            0 <= i < j < self.entries@.len() ==> self.entries@[i].key@ != self.entries@[j].key@
        &&& self.current_size == size_sum(self.entries@)
        &&& self.current_size <= self.max_size_in_bytes
    }

    /// The accounted size equals the sum of the stored sizes and stays
    /// within the budget, in every well-formed state.
    pub proof fn lemma_cache_accounting(&self)
        requires
            self.wf(),
        ensures
            self.size_model() == size_sum(self.entries_view()),
            self.size_model() <= self.max_model(),
    {
    }

    /// An empty cache with the given byte budget.
    pub fn new(max_size_in_bytes: u64) -> (r: MemoryBoundedLruCache)
        ensures
            r.wf(),
            r.entries_view() =~= Seq::<CacheEntry>::empty(),
            r.max_model() == max_size_in_bytes,
            r.size_model() == 0,
            r.hits_model() == 0,
            r.misses_model() == 0,
            r.evictions_model() == 0,
    {
        MemoryBoundedLruCache {
            entries: Vec::new(),
            max_size_in_bytes,
            current_size: 0,
            hits: 0,
            misses: 0,
            evictions: 0,
        }
    }

    /// The number of live entries.
    pub fn len(&self) -> (r: usize)
        ensures
            r == self.entries_view().len(),
    {
        self.entries.len()
    }

    pub fn is_empty(&self) -> (r: bool)
        ensures
            r == (self.entries_view().len() == 0),
    {
        self.entries.len() == 0
    }

    /// Whether a key is present; reads only.
    pub fn contains(&self, key: &str) -> (r: bool)
        ensures
            r == self.has_key(key@),
    {
        let mut i: usize = 0;
        while i < self.entries.len()
            invariant
                i <= self.entries@.len(),
                forall|j: int| 0 <= j < i ==> self.entries@[j].key@ != key@,
            decreases self.entries@.len() - i,
        {
            if str_eq(self.entries[i].key.as_str(), key) {
                proof {
                    assert((i as int) < self.entries_view().len()
                        && self.entries_view()[i as int].key@ == key@);
                }
                return true;
            }
            i = i + 1;
        }
        proof {
            assert(forall|j: int|
                0 <= j < self.entries_view().len() ==> #[trigger] self.entries_view()[j].key@
                    != key@);
        }
        false
    }

    /// Inserts a document under a key.
    ///
    /// An entry larger than the whole budget is refused and nothing
    /// changes. A present key leaves the cache unchanged: re-insertion
    /// does not refresh the usage position. A fresh key evicts least
    /// recently used entries until the new entry fits, then enters at the
    /// most-recent end.
    pub fn put(&mut self, key: String, value: Document) -> (r: bool)
        requires
            old(self).wf(),
        ensures
            final(self).wf(),
            final(self).max_model() == old(self).max_model(),
            final(self).hits_model() == old(self).hits_model(),
            final(self).misses_model() == old(self).misses_model(),
            value.bytes@.len() > old(self).max_model() ==> !r && *final(self) == *old(self),
            value.bytes@.len() <= old(self).max_model() && old(self).has_key(key@) ==> r
                && *final(self) == *old(self),
            value.bytes@.len() <= old(self).max_model() && !old(self).has_key(key@) ==> {
                let m = evict_count(
                    old(self).entries_view(),
                    value.bytes@.len() as int,
                    old(self).max_model() as int,
                );
                &&& r
                &&& final(self).entries_view() =~= old(self).entries_view().skip(m).push(
                    (CacheEntry { key, value }),
                )
                &&& final(self).evictions_model() == sat_add(old(self).evictions_model(), m)
            },
    {
        proof {
            lemma_size_sum_nonneg(self.entries@);
        }
        let vsize = value.size_in_bytes();
        if vsize > self.max_size_in_bytes {
            return false;
        }
        if self.contains(key.as_str()) {
            return true;
        }
        let ghost pre = self.entries@;
        let ghost need = value.bytes@.len() as int;
        let ghost max = self.max_size_in_bytes as int;
        let ghost m = evict_count(pre, need, max);
        proof {
            assert(pre.skip(0) =~= pre);
            assert(0 <= 0 <= pre.len() && self.entries@ =~= pre.skip(0) && sat_add(
                old(self).evictions,
                0,
            ) == self.evictions && m == 0 + evict_count(self.entries@, need, max));
        }
        while vsize > self.max_size_in_bytes - self.current_size
            invariant
                self.max_size_in_bytes == old(self).max_size_in_bytes,
                self.hits == old(self).hits,
                self.misses == old(self).misses,
                vsize == need,
                max == self.max_size_in_bytes as int,
                vsize <= self.max_size_in_bytes,
                self.current_size == size_sum(self.entries@),
                self.current_size <= self.max_size_in_bytes,
                exists|k: int|
                    0 <= k <= pre.len() && self.entries@ =~= pre.skip(k) && #[trigger] sat_add(
                        old(self).evictions,
                        k,
                    ) == self.evictions && m == k + evict_count(self.entries@, need, max),
            decreases self.entries@.len(),
        {
            proof {
                if self.entries@.len() == 0 {
                    assert(size_sum(self.entries@) == 0);
                    assert(false);
                }
                lemma_size_sum_drop_first(self.entries@);
                lemma_size_sum_nonneg(self.entries@.drop_first());
            }
            let ghost k_pre = choose|k: int|
                0 <= k <= pre.len() && self.entries@ =~= pre.skip(k) && #[trigger] sat_add(
                    old(self).evictions,
                    k,
                ) == self.evictions && m == k + evict_count(self.entries@, need, max);
            let victim = self.entries.remove(0);
            proof {
                assert(victim == pre.skip(k_pre)[0]);
                assert(self.entries@ =~= pre.skip(k_pre).drop_first());
                assert(pre.skip(k_pre).drop_first() =~= pre.skip(k_pre + 1));
            }
            self.current_size = self.current_size - victim.value.size_in_bytes();
            self.evictions = if self.evictions == u64::MAX {
                u64::MAX
            } else {
                self.evictions + 1
            };
            proof {
                assert(sat_add(old(self).evictions, k_pre + 1) == self.evictions);
                assert(exists|k: int|
                    0 <= k <= pre.len() && self.entries@ =~= pre.skip(k) && #[trigger] sat_add(
                        old(self).evictions,
                        k,
                    ) == self.evictions && m == k + evict_count(self.entries@, need, max)) by {
                    assert(0 <= k_pre + 1 <= pre.len() && self.entries@ =~= pre.skip(k_pre + 1)
                        && sat_add(old(self).evictions, k_pre + 1) == self.evictions && m == (k_pre
                        + 1) + evict_count(self.entries@, need, max));
                }
            }
        }
        let ghost k_fin = choose|k: int|
            0 <= k <= pre.len() && self.entries@ =~= pre.skip(k) && #[trigger] sat_add(
                old(self).evictions,
                k,
            ) == self.evictions && m == k + evict_count(self.entries@, need, max);
        proof {
            assert(evict_count(self.entries@, need, max) == 0);
            assert(k_fin == m);
        }
        let ghost before_push = self.entries@;
        let ghost e = CacheEntry { key: key, value: value };
        self.entries.push(CacheEntry { key, value });
        self.current_size = self.current_size + vsize;
        proof {
            assert(before_push =~= pre.skip(m));
            assert(self.entries@ =~= before_push.push(e));
            assert(self.entries@.drop_last() =~= before_push);
            assert(self.entries@.last() == e);
            assert forall|a: int, b: int|
                0 <= a < b < self.entries@.len() implies self.entries@[a].key@
                != self.entries@[b].key@ by {
                assert(self.entries@[a] == before_push[a]);
                assert(before_push[a] == pre.skip(m)[a]);
                assert(pre.skip(m)[a] == pre[a + m]);
                if b < self.entries@.len() - 1 {
                    assert(self.entries@[b] == before_push[b]);
                    assert(before_push[b] == pre.skip(m)[b]);
                    assert(pre.skip(m)[b] == pre[b + m]);
                } else {
                    assert(self.entries@[b] == e);
                    if pre[a + m].key@ == e.key@ {
                        assert(old(self).has_key(key@)) by {
                            assert(0 <= a + m < old(self).entries_view().len() && old(
                                self,
                            ).entries_view()[a + m].key@ == key@);
                        }
                        assert(false);
                    }
                }
            }
        }
        true
    }

    /// Looks a key up. On a hit the entry moves to the most-recent end and
    /// a copy of the document comes back; on a miss nothing changes but
    /// the miss counter.
    pub fn get(&mut self, key: &str) -> (r: Option<Document>)
        requires
            old(self).wf(),
        ensures
            final(self).wf(),
            final(self).max_model() == old(self).max_model(),
            final(self).size_model() == old(self).size_model(),
            final(self).evictions_model() == old(self).evictions_model(),
            old(self).has_key(key@) ==> {
                let i = old(self).key_index(key@);
                &&& r is Some
                &&& r->0@ == old(self).value_of(key@)
                &&& final(self).entries_view() =~= old(self).entries_view().remove(i).push(
                    old(self).entries_view()[i],
                )
                &&& final(self).hits_model() == sat_add(old(self).hits_model(), 1)
                &&& final(self).misses_model() == old(self).misses_model()
            },
            !old(self).has_key(key@) ==> {
                &&& r is None
                &&& final(self).entries_view() == old(self).entries_view()
                &&& final(self).hits_model() == old(self).hits_model()
                &&& final(self).misses_model() == sat_add(old(self).misses_model(), 1)
            },
    {
        let mut i: usize = 0;
        while i < self.entries.len()
            invariant
                *self == *old(self),
                old(self).wf(),
                i <= self.entries@.len(),
                forall|j: int| 0 <= j < i ==> self.entries@[j].key@ != key@,
            decreases self.entries@.len() - i,
        {
            if str_eq(self.entries[i].key.as_str(), key) {
                let ghost iv = i as int;
                proof {
                    assert(0 <= iv < old(self).entries_view().len() && old(
                        self,
                    ).entries_view()[iv].key@ == key@);
                    assert(old(self).has_key(key@));
                    let ki = old(self).key_index(key@);
                    assert(0 <= ki < old(self).entries_view().len() && old(
                        self,
                    ).entries_view()[ki].key@ == key@);
                    if ki < iv {
                        assert(old(self).entries@[ki].key@ != old(self).entries@[iv].key@);
                    }
                    if iv < ki {
                        assert(old(self).entries@[iv].key@ != old(self).entries@[ki].key@);
                    }
                    assert(ki == iv);
                    lemma_size_sum_remove(self.entries@, iv);
                }
                let entry = self.entries.remove(i);
                let ghost e = entry;
                let result = entry.value.duplicate();
                let ghost mid = self.entries@;
                self.entries.push(entry);
                self.hits = if self.hits == u64::MAX {
                    u64::MAX
                } else {
                    self.hits + 1
                };
                proof {
                    assert(mid =~= old(self).entries@.remove(iv));
                    assert(self.entries@ =~= mid.push(e));
                    assert(self.entries@.drop_last() =~= mid);
                    assert(self.entries@.last() == e);
                    assert forall|a: int, b: int|
                        0 <= a < b < self.entries@.len() implies self.entries@[a].key@
                        != self.entries@[b].key@ by {
                        assert(self.entries@[a] == mid[a]);
                        assert(mid[a] == if a < iv {
                            old(self).entries@[a]
                        } else {
                            old(self).entries@[a + 1]
                        });
                        if b < self.entries@.len() - 1 {
                            assert(self.entries@[b] == mid[b]);
                            assert(mid[b] == if b < iv {
                                old(self).entries@[b]
                            } else {
                                old(self).entries@[b + 1]
                            });
                        } else {
                            assert(self.entries@[b] == e);
                            assert(e == old(self).entries@[iv]);
                        }
                    }
                }
                return Some(result);
            }
            i = i + 1;
        }
        self.misses = if self.misses == u64::MAX {
            u64::MAX
        } else {
            self.misses + 1
        };
        None
    }

    /// Removes a key. Returns the stored document and subtracts its size;
    /// absent keys leave the cache unchanged.
    pub fn remove(&mut self, key: &str) -> (r: Option<Document>)
        requires
            old(self).wf(),
        ensures
            final(self).wf(),
            final(self).max_model() == old(self).max_model(),
            final(self).hits_model() == old(self).hits_model(),
            final(self).misses_model() == old(self).misses_model(),
            final(self).evictions_model() == old(self).evictions_model(),
            old(self).has_key(key@) ==> {
                let i = old(self).key_index(key@);
                &&& r is Some
                &&& r->0@ == old(self).value_of(key@)
                &&& final(self).entries_view() =~= old(self).entries_view().remove(i)
                &&& final(self).size_model() == old(self).size_model() - old(
                    self,
                ).entries_view()[i].value.bytes@.len()
            },
            !old(self).has_key(key@) ==> *final(self) == *old(self),
    {
        let mut i: usize = 0;
        while i < self.entries.len()
            invariant
                *self == *old(self),
                old(self).wf(),
                i <= self.entries@.len(),
                forall|j: int| 0 <= j < i ==> self.entries@[j].key@ != key@,
            decreases self.entries@.len() - i,
        {
            if str_eq(self.entries[i].key.as_str(), key) {
                let ghost iv = i as int;
                proof {
                    assert(0 <= iv < old(self).entries_view().len() && old(
                        self,
                    ).entries_view()[iv].key@ == key@);
                    assert(old(self).has_key(key@));
                    let ki = old(self).key_index(key@);
                    assert(0 <= ki < old(self).entries_view().len() && old(
                        self,
                    ).entries_view()[ki].key@ == key@);
                    if ki < iv {
                        assert(old(self).entries@[ki].key@ != old(self).entries@[iv].key@);
                    }
                    if iv < ki {
                        assert(old(self).entries@[iv].key@ != old(self).entries@[ki].key@);
                    }
                    assert(ki == iv);
                    lemma_size_sum_remove(self.entries@, iv);
                    lemma_size_sum_nonneg(self.entries@.remove(iv));
                }
                let entry = self.entries.remove(i);
                let vsize = entry.value.size_in_bytes();
                self.current_size = self.current_size - vsize;
                return Some(entry.value);
            }
            i = i + 1;
        }
        None
    }

    /// Drops every entry; the accounted size and the eviction counter go
    /// back to zero, the hit and miss counters stay.
    pub fn clear(&mut self)
        ensures
            final(self).wf(),
            final(self).entries_view() =~= Seq::<CacheEntry>::empty(),
            final(self).size_model() == 0,
            final(self).evictions_model() == 0,
            final(self).max_model() == old(self).max_model(),
            final(self).hits_model() == old(self).hits_model(),
            final(self).misses_model() == old(self).misses_model(),
    {
        self.entries.clear();
        self.current_size = 0;
        self.evictions = 0;
    }

    /// The gauges of the cache, one consistent snapshot.
    pub fn metrics_snapshot(&self) -> (r: CacheMetrics)
        ensures
            r.items == self.entries_view().len(),
            r.mem_total_bytes == self.max_model(),
            r.mem_used_bytes == self.size_model(),
            r.hits == self.hits_model(),
            r.misses == self.misses_model(),
            r.evictions == self.evictions_model(),
    {
        CacheMetrics {
            items: self.entries.len(),
            mem_total_bytes: self.max_size_in_bytes,
            mem_used_bytes: self.current_size,
            hits: self.hits,
            misses: self.misses,
            evictions: self.evictions,
        }
    }
}

/// Whether some entry of the sequence carries the key.
pub open spec fn seq_has_key(s: Seq<CacheEntry>, k: Seq<char>) -> bool {
    exists|i: int| 0 <= i < s.len() && #[trigger] s[i].key@ == k
}

/// Eviction is strictly least-recently-used: when a fresh insertion
/// removes `m` entries, they are exactly the first `m` keys of the usage
/// order, and every later key survives.
pub proof fn lemma_eviction_order(pre: Seq<CacheEntry>, post: Seq<CacheEntry>, e: CacheEntry, m: int)
    requires
        forall|i: int, j: int| 0 <= i < j < pre.len() ==> pre[i].key@ != pre[j].key@,
        forall|i: int| 0 <= i < pre.len() ==> pre[i].key@ != e.key@,
        0 <= m <= pre.len(),
        post =~= pre.skip(m).push(e),
    ensures
        forall|j: int| #![trigger pre[j].key@] 0 <= j < m ==> !seq_has_key(post, pre[j].key@),
        forall|j: int| #![trigger pre[j].key@] m <= j < pre.len() ==> seq_has_key(post, pre[j].key@),
{
    assert forall|j: int| #![trigger pre[j].key@] 0 <= j < m implies !seq_has_key(
        post,
        pre[j].key@,
    ) by {
        assert(forall|i: int| #![auto]
            0 <= i < post.len() - 1 ==> post[i] == pre.skip(m)[i] && pre.skip(m)[i] == pre[i + m]);
        assert(post[post.len() - 1].key@ == e.key@);
    }
    assert forall|j: int| #![trigger pre[j].key@] m <= j < pre.len() implies seq_has_key(
        post,
        pre[j].key@,
    ) by {
        assert(post[j - m] == pre.skip(m)[j - m]);
        assert(pre.skip(m)[j - m] == pre[j]);
        assert(0 <= j - m < post.len() && post[j - m].key@ == pre[j].key@);
    }
}

} // verus!
