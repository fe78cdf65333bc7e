//! A cache of encodings keyed by a hash of the value encoded, and the
//! encoding configuration.

use vstd::prelude::*;

verus! {

/// A cached encoding.
#[derive(Debug, Clone)]
struct CacheEntry {
    /// Hash of the value encoded
    hash: u64,
    /// Encoded data
    encoded: Vec<u8>,
    /// Access count
    access_count: u32,
}

/// The abstract content of a cache entry: hash, octets, access count.
pub type EntryView = (u64, Seq<u8>, u32);

impl View for CacheEntry {
    type V = EntryView;

    closed spec fn view(&self) -> EntryView {
        (self.hash, self.encoded@, self.access_count)
    }
}

/// The views of cache entries.
spec fn entry_views(s: Seq<CacheEntry>) -> Seq<EntryView> {
    s.map_values(|e: CacheEntry| e@)
}

/// `s` with `e` put after the last entry whose access count is at most
/// `e`'s: one step of a stable sort by access count.
pub open spec fn insert_by_count(s: Seq<EntryView>, e: EntryView) -> Seq<EntryView>
    decreases s.len(),
{
    if s.len() == 0 {
        seq![e]
    } else if s.last().2 <= e.2 {
        s.push(e)
    } else {
        insert_by_count(s.drop_last(), e).push(s.last())
    }
}

/// The entries stably sorted by access count.
pub open spec fn sort_by_count(s: Seq<EntryView>) -> Seq<EntryView>
    decreases s.len(),
{
    if s.len() == 0 {
        s
    } else {
        insert_by_count(sort_by_count(s.drop_last()), s.last())
    }
}

/// The index of the first entry with hash `h`.
pub open spec fn find_hash(s: Seq<EntryView>, h: u64) -> Option<int>
    decreases s.len(),
{
    if s.len() == 0 {
        None
    } else {
        match find_hash(s.drop_last(), h) {
            Some(i) => Some(i),
            None => if s.last().0 == h {
                Some(s.len() - 1)
            } else {
                None
            },
        }
    }
}

/// `insert_by_count` puts `e` at `j` where the entries before `j` count
/// no more than `e` does (at `j - 1`) and those from `j` on count more.
proof fn lemma_insert_by_count_at(s: Seq<EntryView>, e: EntryView, j: int)
    requires
        0 <= j <= s.len(),
        j == 0 || s[j - 1].2 <= e.2,
        forall|k: int| j <= k < s.len() ==> s[k].2 > e.2,
    ensures
        insert_by_count(s, e) == s.take(j) + seq![e] + s.skip(j),
    decreases s.len(),
{
    if s.len() == 0 {
        assert(s.take(j) + seq![e] + s.skip(j) =~= seq![e]);
    } else if s.last().2 <= e.2 {
        assert(j == s.len());
        assert(s.take(j) + seq![e] + s.skip(j) =~= s.push(e));
    } else {
        lemma_insert_by_count_at(s.drop_last(), e, j);
        assert(s.drop_last().take(j) + seq![e] + s.drop_last().skip(j) + seq![s.last()]
            =~= s.take(j) + seq![e] + s.skip(j));
    }
}

/// Sorting keeps the number of entries.
proof fn lemma_sort_len(s: Seq<EntryView>)
    ensures
        sort_by_count(s).len() == s.len(),
    decreases s.len(),
{
    if s.len() > 0 {
        lemma_sort_len(s.drop_last());
        lemma_insert_len(sort_by_count(s.drop_last()), s.last());
    }
}

/// Inserting adds one entry.
proof fn lemma_insert_len(s: Seq<EntryView>, e: EntryView)
    ensures
        insert_by_count(s, e).len() == s.len() + 1,
    decreases s.len(),
{
    if s.len() > 0 && s.last().2 > e.2 {
        lemma_insert_len(s.drop_last(), e);
    }
}

/// The first entry with hash `h`, if any, and no entry before it has it.
proof fn lemma_find_hash(s: Seq<EntryView>, h: u64)
    ensures
        find_hash(s, h) matches Some(i) ==> 0 <= i < s.len() && s[i].0 == h
            && forall|k: int| 0 <= k < i ==> s[k].0 != h,
        find_hash(s, h) is None ==> forall|k: int| 0 <= k < s.len() ==> s[k].0 != h,
    decreases s.len(),
{
    if s.len() > 0 {
        let p = s.drop_last();
        lemma_find_hash(p, h);
        assert(forall|k: int| 0 <= k < p.len() ==> p[k] == s[k]);
    }
}

/// Every entry `insert_by_count` gives is `e` or one of `s`.
proof fn lemma_insert_elements(s: Seq<EntryView>, e: EntryView)
    ensures
        forall|i: int| 0 <= i < insert_by_count(s, e).len() ==> (#[trigger] insert_by_count(s, e)[i] == e || s.contains(
            insert_by_count(s, e)[i],
        )),
    decreases s.len(),
{
    lemma_insert_len(s, e);
    if s.len() == 0 {
    } else if s.last().2 <= e.2 {
        assert forall|i: int| 0 <= i < s.push(e).len() implies (#[trigger] s.push(e)[i] == e || s.contains(s.push(e)[i])) by {
            if i < s.len() {
                assert(s.push(e)[i] == s[i]);
            }
        }
    } else {
        let p = s.drop_last();
        lemma_insert_elements(p, e);
        let q = insert_by_count(p, e);
        lemma_insert_len(p, e);
        assert forall|i: int| 0 <= i < q.push(s.last()).len() implies (#[trigger] q.push(s.last())[i] == e || s.contains(
            q.push(s.last())[i],
        )) by {
            if i < q.len() {
                assert(q.push(s.last())[i] == q[i]);
                if q[i] != e {
                    let k = choose|k: int| 0 <= k < p.len() && p[k] == q[i];
                    assert(s[k] == p[k]);
                }
            } else {
                assert(s[s.len() - 1] == s.last());
            }
        }
    }
}

/// Every entry of the sorted entries is one of `s`.
proof fn lemma_sort_elements(s: Seq<EntryView>)
    ensures
        forall|i: int| 0 <= i < sort_by_count(s).len() ==> s.contains(#[trigger] sort_by_count(s)[i]),
    decreases s.len(),
{
    if s.len() > 0 {
        let p = s.drop_last();
        lemma_sort_elements(p);
        lemma_insert_elements(sort_by_count(p), s.last());
        let q = sort_by_count(s);
        assert forall|i: int| 0 <= i < q.len() implies s.contains(#[trigger] q[i]) by {
            if q[i] == s.last() {
                assert(s[s.len() - 1] == s.last());
            } else {
                assert(sort_by_count(p).contains(q[i]));
                let j = choose|j: int| 0 <= j < sort_by_count(p).len() && sort_by_count(p)[j] == q[i];
                assert(p.contains(sort_by_count(p)[j]));
                let k = choose|k: int| 0 <= k < p.len() && p[k] == q[i];
                assert(s[k] == p[k]);
            }
        }
    }
}

/// After an encoding is put under a hash that was not cached, looking the
/// hash up finds that encoding, whether or not an entry was evicted.
pub proof fn lemma_put_then_get(s: Seq<EntryView>, max_size: usize, hash: u64, encoded: Seq<u8>)
    requires
        find_hash(s, hash) is None,
        s.len() >= max_size ==> s.len() > 0,
    ensures
        ({
            let t = (if s.len() >= max_size { sort_by_count(s).drop_first() } else { s }).push((hash, encoded, 1u32));
            &&& find_hash(t, hash) == Some(t.len() - 1)
            &&& t[t.len() - 1].1 == encoded
        }),
{
    lemma_find_hash(s, hash);
    let kept = if s.len() >= max_size { sort_by_count(s).drop_first() } else { s };
    let t = kept.push((hash, encoded, 1u32));
    if s.len() >= max_size {
        lemma_sort_elements(s);
        lemma_sort_len(s);
        assert forall|k: int| 0 <= k < kept.len() implies kept[k].0 != hash by {
            assert(kept[k] == sort_by_count(s)[k + 1]);
            assert(s.contains(sort_by_count(s)[k + 1]));
        }
    }
    assert(t.drop_last() =~= kept);
    lemma_find_hash(kept, hash);
}

/// A cache of encodings keyed by hash: a hit counts an access, and when
/// the cache is full the entry least accessed (the earliest of those in a
/// stable sort by access count) gives way.
#[derive(Debug)]
pub struct EncodingCache {
    /// Cached encoded values
    cache: Vec<CacheEntry>,
    /// Maximum cache size
    max_size: usize,
    /// Cache hit statistics
    pub hits: u64,
    /// Cache miss statistics
    pub misses: u64,
}

impl EncodingCache {
    /// The cached entries, in order.
    pub closed spec fn entries(&self) -> Seq<EntryView> {
        entry_views(self.cache@)
    }

    /// The number of entries a cache holds before it evicts.
    pub closed spec fn spec_max_size(&self) -> usize {
        self.max_size
    }

    /// The hit count.
    pub closed spec fn spec_hits(&self) -> u64 {
        self.hits
    }

    /// The miss count.
    pub closed spec fn spec_misses(&self) -> u64 {
        self.misses
    }

    /// Creates an empty cache of `max_size` entries.
    pub fn new(max_size: usize) -> (r: Self)
        ensures
            r.entries() == Seq::<EntryView>::empty(),
            r.spec_max_size() == max_size,
            r.spec_hits() == 0,
            r.spec_misses() == 0,
    {
        let r = EncodingCache { cache: Vec::new(), max_size, hits: 0, misses: 0 };
        assert(entry_views(r.cache@) =~= Seq::<EntryView>::empty());
        r
    }

    /// The cached encoding for `hash`, counting a hit and an access of
    /// its entry, or `None`, counting a miss.
    pub fn get(&mut self, hash: u64) -> (r: Option<Vec<u8>>)
        requires
            old(self).spec_hits() < u64::MAX,
            old(self).spec_misses() < u64::MAX,
            find_hash(old(self).entries(), hash) matches Some(i) ==> old(self).entries()[i].2 < u32::MAX,
        ensures
            final(self).spec_max_size() == old(self).spec_max_size(),
            match find_hash(old(self).entries(), hash) {
                Some(i) => {
                    let e = old(self).entries()[i];
                    &&& r matches Some(v) && v@ == e.1
                    &&& final(self).entries() == old(self).entries().update(i, (e.0, e.1, (e.2 + 1) as u32))
                    &&& final(self).spec_hits() == old(self).spec_hits() + 1
                    &&& final(self).spec_misses() == old(self).spec_misses()
                },
                None => {
                    &&& r is None
                    &&& final(self).entries() == old(self).entries()
                    &&& final(self).spec_hits() == old(self).spec_hits()
                    &&& final(self).spec_misses() == old(self).spec_misses() + 1
                },
            },
    {
        let ghost s = entry_views(self.cache@);
        proof {
            lemma_find_hash(s, hash);
        }
        let mut i: usize = 0;
        while i < self.cache.len()
            invariant
                i <= self.cache@.len(),
                s == entry_views(self.cache@),
                forall|k: int| 0 <= k < i ==> s[k].0 != hash,
                *self == *old(self),
                s == old(self).entries(),
                self.hits < u64::MAX,
                self.misses < u64::MAX,
                find_hash(s, hash) matches Some(j) ==> s[j].2 < u32::MAX,
            decreases self.cache@.len() - i,
        {
            if self.cache[i].hash == hash {
                proof {
                    assert(s[i as int].0 == hash);
                    lemma_find_hash(s, hash);
                    assert(find_hash(s, hash) == Some(i as int));
                }
                let mut entry = self.cache.remove(i);
                entry.access_count = entry.access_count + 1;
                let encoded = entry.encoded.clone();
                proof {
                    assert(encoded@ =~= entry.encoded@);
                }
                self.cache.insert(i, entry);
                self.hits = self.hits + 1;
                proof {
                    assert(entry_views(self.cache@) =~= s.update(i as int, (s[i as int].0, s[i as int].1, (s[i as int].2 + 1) as u32)));
                }
                return Some(encoded);
            }
            i = i + 1;
        }
        self.misses = self.misses + 1;
        None
    }

    /// Stores an encoding under `hash`, unless the hash is cached already;
    /// a full cache first sorts its entries by access count (stably) and
    /// drops the first.
    pub fn put(&mut self, hash: u64, encoded: Vec<u8>)
        requires
            find_hash(old(self).entries(), hash) is None && old(self).entries().len() >= old(self).spec_max_size()
                ==> old(self).entries().len() > 0,
        ensures
            final(self).spec_max_size() == old(self).spec_max_size(),
            final(self).spec_hits() == old(self).spec_hits(),
            final(self).spec_misses() == old(self).spec_misses(),
            find_hash(old(self).entries(), hash) is Some ==> final(self).entries() == old(self).entries(),
            find_hash(old(self).entries(), hash) is None ==> final(self).entries() == (if old(self).entries().len()
                >= old(self).spec_max_size() {
                sort_by_count(old(self).entries()).drop_first()
            } else {
                old(self).entries()
            }).push((hash, encoded@, 1u32)),
    {
        let ghost s = entry_views(self.cache@);
        proof {
            lemma_find_hash(s, hash);
        }
        let mut i: usize = 0;
        while i < self.cache.len()
            invariant
                i <= self.cache@.len(),
                s == entry_views(self.cache@),
                forall|k: int| 0 <= k < i ==> s[k].0 != hash,
                *self == *old(self),
                s == old(self).entries(),
            decreases self.cache@.len() - i,
        {
            if self.cache[i].hash == hash {
                proof {
                    assert(s[i as int].0 == hash);
                    lemma_find_hash(s, hash);
                }
                return;
            }
            i = i + 1;
        }
        proof {
            lemma_find_hash(s, hash);
            lemma_sort_len(s);
        }
        if self.cache.len() >= self.max_size {
            self.sort_entries_by_count();
            self.cache.remove(0);
            proof {
                assert(entry_views(self.cache@) =~= sort_by_count(s).drop_first());
            }
        }
        let ghost before = entry_views(self.cache@);
        self.cache.push(CacheEntry { hash, encoded, access_count: 1 });
        proof {
            assert(entry_views(self.cache@) =~= before.push((hash, encoded@, 1u32)));
        }
    }

    /// Sorts the entries stably by access count (insertion sort).
    fn sort_entries_by_count(&mut self)
        ensures
            entry_views(final(self).cache@) == sort_by_count(entry_views(old(self).cache@)),
            final(self).max_size == old(self).max_size,
            final(self).hits == old(self).hits,
            final(self).misses == old(self).misses,
    {
        let ghost s = entry_views(self.cache@);
        let n = self.cache.len();
        let mut i: usize = 0;
        while i < n
            invariant
                n == s.len(),
                i <= n,
                self.cache@.len() == n,
                entry_views(self.cache@).take(i as int) == sort_by_count(s.take(i as int)),
                entry_views(self.cache@).skip(i as int) == s.skip(i as int),
                self.max_size == old(self).max_size,
                self.hits == old(self).hits,
                self.misses == old(self).misses,
            decreases n - i,
        {
            let ghost sorted = entry_views(self.cache@).take(i as int);
            let ghost e = s[i as int];
            proof {
                let v = entry_views(self.cache@);
                assert(v[i as int] == v.skip(i as int)[0]);
                assert(v.skip(i as int)[0] == s.skip(i as int)[0]);
                assert(v.skip(i + 1) =~= v.skip(i as int).skip(1));
                assert(s.skip(i + 1) =~= s.skip(i as int).skip(1));
                assert(v.subrange(i + 1, i + 1) =~= sorted.subrange(i as int, i as int));
                assert(v.take(i as int) =~= sorted.take(i as int));
            }
            let mut j: usize = i;
            while j > 0 && self.cache[j - 1].access_count > self.cache[j].access_count
                invariant
                    n == s.len(),
                    i < n,
                    j <= i,
                    self.cache@.len() == n,
                    entry_views(self.cache@).take(j as int) == sorted.take(j as int),
                    entry_views(self.cache@)[j as int] == e,
                    entry_views(self.cache@).subrange(j + 1, i + 1) == sorted.subrange(j as int, i as int),
                    entry_views(self.cache@).skip(i + 1) == s.skip(i + 1),
                    forall|k: int| j <= k < i ==> sorted[k].2 > e.2,
                    sorted.len() == i,
                    self.max_size == old(self).max_size,
                    self.hits == old(self).hits,
                    self.misses == old(self).misses,
                decreases j,
            {
                let ghost before = entry_views(self.cache@);
                let moved = self.cache.remove(j - 1);
                self.cache.insert(j, moved);
                proof {
                    let after = entry_views(self.cache@);
                    assert(after =~= before.update(j - 1, before[j as int]).update(j as int, before[j - 1]));
                    assert(before.take(j as int)[j - 1] == before[j - 1]);
                    assert(sorted.take(j as int)[j - 1] == sorted[j - 1]);
                    assert(before[j - 1] == sorted[j - 1]);
                    assert(after.take(j - 1) =~= sorted.take(j - 1));
                    assert forall|k: int| j + 1 <= k < i + 1 implies after[k] == sorted[k - 1] by {
                        assert(before.subrange(j + 1, i + 1)[k - j - 1] == before[k]);
                        assert(sorted.subrange(j as int, i as int)[k - j - 1] == sorted[k - 1]);
                    }
                    assert(after.subrange(j as int, i + 1) =~= sorted.subrange(j - 1, i as int));
                    assert(after.skip(i + 1) =~= before.skip(i + 1));
                }
                j = j - 1;
            }
            proof {
                let cur = entry_views(self.cache@);
                if j > 0 {
                    assert(cur.take(j as int)[j - 1] == cur[j - 1]);
                    assert(sorted.take(j as int)[j - 1] == sorted[j - 1]);
                    assert(cur[j - 1] == sorted[j - 1]);
                }
                lemma_insert_by_count_at(sorted, e, j as int);
                assert(s.take(i + 1).drop_last() =~= s.take(i as int));
                assert(s.take(i + 1).last() == e);
                assert(cur.take(i + 1) =~= sorted.take(j as int) + seq![e] + sorted.skip(j as int));
                assert(cur.skip(i + 1) =~= s.skip(i + 1));
            }
            i = i + 1;
        }
        proof {
            assert(s.take(n as int) =~= s);
            assert(entry_views(self.cache@).take(n as int) =~= entry_views(self.cache@));
        }
    }

    /// Empties the cache and its statistics.
    pub fn clear(&mut self)
        ensures
            final(self).entries() == Seq::<EntryView>::empty(),
            final(self).spec_max_size() == old(self).spec_max_size(),
            final(self).spec_hits() == 0,
            final(self).spec_misses() == 0,
    {
        self.cache.clear();
        self.hits = 0;
        self.misses = 0;
        assert(entry_views(self.cache@) =~= Seq::<EntryView>::empty());
    }
}

/// Validation levels.
#[derive(Debug, Clone, Copy, PartialEq, Eq, Structural)]
pub enum ValidationLevel {
    /// No validation
    NoValidation,
    /// Basic validation
    Basic,
    /// Strict validation
    Strict,
    /// Paranoid validation (slowest)
    Paranoid,
}

/// Encoding configuration.
#[derive(Debug, Clone)]
pub struct EncodingConfig {
    /// Use compression for large data
    pub use_compression: bool,
    /// Compression threshold (bytes)
    pub compression_threshold: usize,
    /// Enable caching
    pub enable_caching: bool,
    /// Cache size
    pub cache_size: usize,
    /// Enable performance tracking
    pub enable_performance_tracking: bool,
    /// Validation level
    pub validation_level: ValidationLevel,
    /// Maximum string length
    pub max_string_length: usize,
    /// Maximum array size
    pub max_array_size: usize,
}

impl Default for EncodingConfig {
    fn default() -> (r: Self)
        ensures
            !r.use_compression,
            r.compression_threshold == 1024,
            r.enable_caching,
            r.cache_size == 1000,
            r.enable_performance_tracking,
            r.validation_level == ValidationLevel::Basic,
            r.max_string_length == 4096,
            r.max_array_size == 1000,
    {
        EncodingConfig {
            use_compression: false,
            compression_threshold: 1024,
            enable_caching: true,
            cache_size: 1000,
            enable_performance_tracking: true,
            validation_level: ValidationLevel::Basic,
            max_string_length: 4096,
            max_array_size: 1000,
        }
    }
}

} // verus!
