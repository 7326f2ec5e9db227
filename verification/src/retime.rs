//! The cache of time-stretched samples, kept in an `lru::LruCache`.
use vstd::prelude::*;
use lru::LruCache;
use std::num::NonZeroUsize;

verus! {

/// The least-recently-used cache of the `lru` crate.
#[verifier::external_type_specification]
#[verifier::external_body]
#[verifier::reject_recursive_types(K)]
#[verifier::reject_recursive_types(V)]
#[verifier::reject_recursive_types(S)]
pub struct ExLruCache<K, V, S>(lru::LruCache<K, V, S>);

/// The hasher that `lru`'s caches use by default.
#[verifier::external_type_specification]
#[verifier::external_body]
pub struct ExLruDefaultHasher(lru::DefaultHasher);

/// A cache key: the source sample (by asset number) and the bit pattern of
/// the stretch factor.  Stretch factors are positive, where equal bit
/// patterns and equal values coincide.
pub type RetimeKey = (u64, u32);

/// What a cache of stretched samples holds, most recently used first: each
/// key with the stretched sample (by asset number) stored for it.
pub uninterp spec fn retimed_entries(cache: LruCache<RetimeKey, u64>) -> Seq<(RetimeKey, u64)>;

/// How many entries the cache was made to hold.
pub uninterp spec fn retimed_capacity(cache: LruCache<RetimeKey, u64>) -> nat;

/// Where `key` first occurs among `entries`, or `-1`.
pub open spec fn entry_index(entries: Seq<(RetimeKey, u64)>, key: RetimeKey) -> int
    decreases entries.len(),
{
    if entries.len() == 0 {
        -1
    } else if entries[0].0 == key {
        0
    } else {
        let r = entry_index(entries.drop_first(), key);
        if r < 0 {
            -1
        } else {
            r + 1
        }
    }
}

/// The entries after the one at `i` has been used: it moves to the front.
pub open spec fn touch_entry(entries: Seq<(RetimeKey, u64)>, i: int) -> Seq<(RetimeKey, u64)> {
    seq![entries[i]] + entries.remove(i)
}

/// The entries after `key` has been stored with `value` in a cache that
/// holds at most `capacity`: a present key is updated and moved to the
/// front; a new one goes to the front, pushing out the least recently used
/// entry when the cache is full.
pub open spec fn cache_put(entries: Seq<(RetimeKey, u64)>, capacity: nat, key: RetimeKey, value: u64) -> Seq<(RetimeKey, u64)> {
    let i = entry_index(entries, key);
    if i >= 0 {
        seq![(key, value)] + entries.remove(i)
    } else if entries.len() == capacity {
        seq![(key, value)] + entries.drop_last()
    } else {
        seq![(key, value)] + entries
    }
}

pub proof fn lemma_entry_index(entries: Seq<(RetimeKey, u64)>, key: RetimeKey)
    ensures
        -1 <= entry_index(entries, key) < entries.len(),
        entry_index(entries, key) >= 0 ==> entries[entry_index(entries, key)].0 == key,
        entry_index(entries, key) < 0 ==> forall|i: int| 0 <= i < entries.len() ==> #[trigger] entries[i].0 != key,
    decreases entries.len(),
{
    if entries.len() > 0 && entries[0].0 != key {
        lemma_entry_index(entries.drop_first(), key);
        assert forall|i: int| 0 < i < entries.len() implies entries[i] == entries.drop_first()[i - 1] by {}
    }
}

/// An empty cache for `capacity` entries (`LruCache::new`, which takes the
/// capacity as a `NonZeroUsize`).  Claimed: no entries, that capacity.
#[verifier::external_body]
fn new_cache(capacity: usize) -> (c: LruCache<RetimeKey, u64>)
    requires
        capacity >= 1,
    ensures
        retimed_entries(c) == Seq::<(RetimeKey, u64)>::empty(),
        retimed_capacity(c) == capacity,
{
    LruCache::new(NonZeroUsize::new(capacity).unwrap())
}

/// `LruCache::get`: the value stored for `key`, if any; a found entry
/// becomes the most recently used one.
#[verifier::external_body]
fn cache_get(c: &mut LruCache<RetimeKey, u64>, key: RetimeKey) -> (r: Option<u64>)
    ensures
        retimed_capacity(*final(c)) == retimed_capacity(*old(c)),
        entry_index(retimed_entries(*old(c)), key) >= 0 ==> {
            let i = entry_index(retimed_entries(*old(c)), key);
            &&& r == Some(retimed_entries(*old(c))[i].1)
            &&& retimed_entries(*final(c)) == touch_entry(retimed_entries(*old(c)), i)
        },
        entry_index(retimed_entries(*old(c)), key) < 0 ==> {
            &&& r is None
            &&& retimed_entries(*final(c)) == retimed_entries(*old(c))
        },
{
    c.get(&key).copied()
}

/// `LruCache::put`: stores `value` for `key` as `cache_put` describes, and
/// returns the value it replaced for that key, if any.
#[verifier::external_body]
fn cache_store(c: &mut LruCache<RetimeKey, u64>, key: RetimeKey, value: u64) -> (r: Option<u64>)
    ensures
        retimed_capacity(*final(c)) == retimed_capacity(*old(c)),
        retimed_entries(*final(c)) == cache_put(retimed_entries(*old(c)), retimed_capacity(*old(c)), key, value),
        entry_index(retimed_entries(*old(c)), key) >= 0 ==> r == Some(retimed_entries(*old(c))[entry_index(retimed_entries(*old(c)), key)].1),
        entry_index(retimed_entries(*old(c)), key) < 0 ==> r is None,
{
    c.put(key, value)
}

/// The first step of fetching a stretched sample.
#[derive(Debug, Clone, Copy, PartialEq, Eq, Structural)]
pub enum RetimeStep {
    /// This sample is to be played.
    Ready(u64),
    /// The source has to be stretched; report the outcome with `finish_fetch`.
    NeedsRetime,
}

/// Samples stretched in length (not pitch), remembered by source and factor.
pub struct RetimedSamples {
    cache: LruCache<RetimeKey, u64>,
    pub save_files: bool,
}

impl RetimedSamples {
    /// The cached entries, most recently used first.
    pub closed spec fn entries(&self) -> Seq<(RetimeKey, u64)> {
        retimed_entries(self.cache)
    }

    /// How many entries the cache holds at most.
    pub closed spec fn capacity(&self) -> nat {
        retimed_capacity(self.cache)
    }

    /// Whether stretched samples are also written out as files.
    pub closed spec fn saves_files(&self) -> bool {
        self.save_files
    }

    /// The cache never holds more than it was made for.
    pub open spec fn wf(&self) -> bool {
        self.capacity() >= 1 && self.entries().len() <= self.capacity()
    }

    /// An empty cache for `cap` entries (at least one), not writing files.
    pub fn new(cap: usize) -> (s: Self)
        ensures
            s.wf(),
            s.capacity() == if cap >= 1 { cap as nat } else { 1 },
            s.entries() == Seq::<(RetimeKey, u64)>::empty(),
            !s.saves_files(),
    {
        let capacity = if cap >= 1 { cap } else { 1 };
        RetimedSamples { cache: new_cache(capacity), save_files: false }
    }

    /// The same cache, writing files or not.
    pub fn with_save_files(self, save_files: bool) -> (s: Self)
        ensures
            s.entries() == self.entries(),
            s.capacity() == self.capacity(),
            s.saves_files() == save_files,
    {
        RetimedSamples { save_files, ..self }
    }

    /// Looks up `source` stretched by the factor whose bits are `scale_bits`.
    /// A cached result is used (and becomes the most recent entry).  A
    /// factor that is one for all practical purposes (`near_unity`) needs no
    /// stretching: the source itself is remembered and used.  Otherwise the
    /// source has to be stretched.
    pub fn begin_fetch(&mut self, source: u64, scale_bits: u32, near_unity: bool) -> (r: RetimeStep)
        requires
            old(self).wf(),
        ensures
            final(self).wf(),
            final(self).capacity() == old(self).capacity(),
            final(self).saves_files() == old(self).saves_files(),
            entry_index(old(self).entries(), (source, scale_bits)) >= 0 ==> {
                let i = entry_index(old(self).entries(), (source, scale_bits));
                &&& r == RetimeStep::Ready(old(self).entries()[i].1)
                &&& final(self).entries() == touch_entry(old(self).entries(), i)
            },
            entry_index(old(self).entries(), (source, scale_bits)) < 0 && near_unity ==> {
                &&& r == RetimeStep::Ready(source)
                &&& final(self).entries() == cache_put(old(self).entries(), old(self).capacity(), (source, scale_bits), source)
            },
            entry_index(old(self).entries(), (source, scale_bits)) < 0 && !near_unity ==> {
                &&& r == RetimeStep::NeedsRetime
                &&& final(self).entries() == old(self).entries()
            },
    {
        let key = (source, scale_bits);
        proof {
            lemma_entry_index(self.entries(), key);
        }
        match cache_get(&mut self.cache, key) {
            Some(target) => RetimeStep::Ready(target),
            None => {
                if near_unity {
                    let _ = cache_store(&mut self.cache, key, source);
                    RetimeStep::Ready(source)
                } else {
                    RetimeStep::NeedsRetime
                }
            },
        }
    }

    /// Records the outcome of stretching `source`: the new sample, if the
    /// stretch succeeded, is remembered and used.
    pub fn finish_fetch(&mut self, source: u64, scale_bits: u32, retimed: Option<u64>) -> (r: Option<u64>)
        requires
            old(self).wf(),
        ensures
            final(self).wf(),
            final(self).capacity() == old(self).capacity(),
            final(self).saves_files() == old(self).saves_files(),
            r == retimed,
            retimed matches Some(id) ==> final(self).entries() == cache_put(old(self).entries(), old(self).capacity(), (source, scale_bits), id),
            retimed is None ==> final(self).entries() == old(self).entries(),
    {
        proof {
            lemma_entry_index(self.entries(), (source, scale_bits));
        }
        match retimed {
            Some(id) => {
                let _ = cache_store(&mut self.cache, (source, scale_bits), id);
                Some(id)
            },
            None => None,
        }
    }
}

impl Default for RetimedSamples {
    /// A cache for a single entry, not writing files.
    fn default() -> (s: Self)
        ensures
            s.wf(),
            s.capacity() == 1,
            s.entries() == Seq::<(RetimeKey, u64)>::empty(),
            !s.saves_files(),
    {
        RetimedSamples::new(1)
    }
}

/// What was just stored is what a lookup finds: after a sample is stored
/// for a key, the next lookup of that key is served from the cache with it.
pub proof fn law_lookup_finds_what_was_stored(entries: Seq<(RetimeKey, u64)>, capacity: nat, key: RetimeKey, value: u64)
    ensures
        entry_index(cache_put(entries, capacity, key, value), key) == 0,
        cache_put(entries, capacity, key, value)[0] == (key, value),
{
}

/// Storing never makes the cache hold more than its capacity.
pub proof fn law_store_respects_capacity(entries: Seq<(RetimeKey, u64)>, capacity: nat, key: RetimeKey, value: u64)
    requires
        capacity >= 1,
        entries.len() <= capacity,
    ensures
        cache_put(entries, capacity, key, value).len() <= capacity,
{
    lemma_entry_index(entries, key);
}

} // verus!
