//! Cache entries with a time-to-live.
use vstd::prelude::*;
use std::collections::HashMap;
use std::time::{Duration, Instant};
use crate::time::{duration_nanos, duration_shorter};

verus! {

/// A cached value with the time it was stored.
#[derive(Debug, Clone)]
pub struct CacheEntry<T> {
    /// The cached value.
    pub value: T,
    /// When the entry was created.
    pub timestamp: Instant,
}

/// Whether an entry of age `age` is still valid under time-to-live `ttl`:
/// it is younger than `ttl`.
pub fn is_fresh(age: &Duration, ttl: &Duration) -> (r: bool)
    ensures
        r == (duration_nanos(*age) < duration_nanos(*ttl)),
{
    duration_shorter(age, ttl)
}

impl<T> CacheEntry<T> {
    /// An entry holding `value`, stamped with the current time.
    pub fn new(value: T) -> (r: Self)
        ensures
            r.value == value,
    {
        CacheEntry { value, timestamp: Instant::now() }
    }

    /// Whether the entry is younger than `ttl`. Its age is read from the
    /// clock, so which answer comes back is not stated, beyond that no entry
    /// is younger than a time-to-live of zero.
    pub fn is_valid(&self, ttl: Duration) -> (r: bool)
        ensures
            r ==> duration_nanos(ttl) > 0,
    {
        let age = self.age();
        is_fresh(&age, &ttl)
    }

    /// The time since the entry was created, read from the clock.
    pub fn age(&self) -> (r: Duration) {
        self.timestamp.elapsed()
    }
}

/// A single cached value with a time-to-live. Shared between threads, it
/// stands behind a lock that its owner holds.
pub struct GpuInfoCache<T> {
    info: Option<CacheEntry<T>>,
    ttl: Duration,
}

impl<T: Clone> GpuInfoCache<T> {
    /// The stored value, fresh or not.
    pub closed spec fn stored(&self) -> Option<T> {
        match self.info {
            Some(e) => Some(e.value),
            None => None,
        }
    }

    /// The time-to-live of the cache.
    pub closed spec fn time_to_live(&self) -> Duration {
        self.ttl
    }

    /// An empty cache with time-to-live `ttl`.
    pub fn new(ttl: Duration) -> (r: Self)
        ensures
            r.stored() is None,
            r.time_to_live() == ttl,
    {
        GpuInfoCache { info: None, ttl }
    }

    /// A copy of the stored value if it is still fresh. Freshness is read
    /// from the clock: nothing is returned when nothing is stored or the
    /// time-to-live is zero, and what is returned is a clone of what is
    /// stored.
    pub fn get(&self) -> (r: Option<T>)
        ensures
            self.stored() is None ==> r is None,
            r is Some ==> self.stored() is Some && cloned(self.stored()->0, r->0),
            duration_nanos(self.time_to_live()) == 0 ==> r is None,
    {
        match &self.info {
            Some(entry) => {
                let age = entry.age();
                self.get_with_age(&age)
            },
            None => None,
        }
    }

    /// A copy of the stored value if its age `age` is under the
    /// time-to-live: exactly when a value is stored and `age` is shorter than
    /// the time-to-live, a clone of it; otherwise nothing.
    pub fn get_with_age(&self, age: &Duration) -> (r: Option<T>)
        ensures
            self.stored() is Some && duration_nanos(*age) < duration_nanos(self.time_to_live())
                ==> r is Some && cloned(self.stored()->0, r->0),
            !(self.stored() is Some && duration_nanos(*age) < duration_nanos(self.time_to_live()))
                ==> r is None,
    {
        match &self.info {
            Some(entry) => {
                if is_fresh(age, &self.ttl) {
                    Some(entry.value.clone())
                } else {
                    None
                }
            },
            None => None,
        }
    }

    /// Stores `info`, stamped with the current time.
    pub fn set(&mut self, info: T)
        ensures
            final(self).stored() == Some(info),
            final(self).time_to_live() == old(self).time_to_live(),
    {
        self.info = Some(CacheEntry::new(info));
    }

    /// Drops the stored value.
    pub fn clear(&mut self)
        ensures
            final(self).stored() is None,
            final(self).time_to_live() == old(self).time_to_live(),
    {
        self.info = None;
    }

    /// Whether a value is stored, fresh or not.
    pub fn has_entry(&self) -> (r: bool)
        ensures
            r == self.stored() is Some,
    {
        self.info.is_some()
    }

    /// The age of the stored value, read from the clock, if one is stored.
    pub fn age(&self) -> (r: Option<Duration>)
        ensures
            r is Some == self.stored() is Some,
    {
        match &self.info {
            Some(entry) => Some(entry.age()),
            None => None,
        }
    }
}

impl<T: Clone> Default for GpuInfoCache<T> {
    /// An empty cache with a time-to-live of one second.
    fn default() -> (r: Self)
        ensures
            r.stored() is None,
            duration_nanos(r.time_to_live()) == 1_000_000_000,
    {
        Self::new(Duration::from_secs(1))
    }
}

/// What a read of `key` gives back from a store holding `stored`: the value
/// stored under `key`, if any.
pub open spec fn read_back<K, T>(stored: Map<K, T>, key: K) -> Option<T> {
    if stored.contains_key(key) {
        Some(stored[key])
    } else {
        None
    }
}

/// A read after a write of `value` under `key` gives back `value`, and a
/// read of another key gives what it gave before; after `key` is removed, a
/// read of it gives nothing and other keys are untouched.
pub proof fn lemma_read_after_write<K, T>(stored: Map<K, T>, key: K, value: T, other: K)
    requires
        other != key,
    ensures
        read_back(stored.insert(key, value), key) == Some(value),
        read_back(stored.insert(key, value), other) == read_back(stored, other),
        read_back(stored.remove(key), key) is None,
        read_back(stored.remove(key), other) == read_back(stored, other),
{
}

/// Cached values by index, each with the time it was stored, under one
/// time-to-live. Shared between threads, it stands behind a lock that its
/// owner holds.
#[derive(Debug)]
pub struct MultiGpuInfoCache<T> {
    entries: HashMap<usize, CacheEntry<T>>,
    ttl: Duration,
}

/// The value of a cache entry.
pub open spec fn entry_value<T>(e: CacheEntry<T>) -> T {
    e.value
}

impl<T: Clone> MultiGpuInfoCache<T> {
    /// The stored values by index, fresh or not.
    pub closed spec fn stored(&self) -> Map<usize, T> {
        self.entries@.map_values(|e: CacheEntry<T>| entry_value(e))
    }

    /// The time-to-live of the cache.
    pub closed spec fn time_to_live(&self) -> Duration {
        self.ttl
    }

    /// An empty cache with time-to-live `ttl`.
    pub fn new(ttl: Duration) -> (r: Self)
        ensures
            r.stored() == Map::<usize, T>::empty(),
            r.time_to_live() == ttl,
    {
        let r = MultiGpuInfoCache { entries: HashMap::new(), ttl };
        assert(r.stored() =~= Map::<usize, T>::empty());
        r
    }

    /// A copy of the value stored under `key` if it is still fresh.
    /// Freshness is read from the clock: nothing is returned when nothing is
    /// stored under `key` or the time-to-live is zero, and what is returned is
    /// a clone of what is stored.
    pub fn get(&self, key: &usize) -> (r: Option<T>)
        ensures
            read_back(self.stored(), *key) is None ==> r is None,
            r is Some ==> read_back(self.stored(), *key) is Some && cloned(
                read_back(self.stored(), *key)->0,
                r->0,
            ),
            duration_nanos(self.time_to_live()) == 0 ==> r is None,
    {
        broadcast use vstd::std_specs::hash::group_hash_axioms;
        match self.entries.get(key) {
            Some(entry) => {
                let age = entry.age();
                self.get_with_age(key, &age)
            },
            None => None,
        }
    }

    /// A copy of the value stored under `key` if its age `age` is under the
    /// time-to-live: exactly when something is stored under `key` and `age`
    /// is shorter than the time-to-live, a clone of it; otherwise nothing.
    pub fn get_with_age(&self, key: &usize, age: &Duration) -> (r: Option<T>)
        ensures
            read_back(self.stored(), *key) is Some && duration_nanos(*age) < duration_nanos(
                self.time_to_live(),
            ) ==> r is Some && cloned(read_back(self.stored(), *key)->0, r->0),
            !(read_back(self.stored(), *key) is Some && duration_nanos(*age) < duration_nanos(
                self.time_to_live(),
            )) ==> r is None,
    {
        broadcast use vstd::std_specs::hash::group_hash_axioms;
        match self.entries.get(key) {
            Some(entry) => {
                if is_fresh(age, &self.ttl) {
                    Some(entry.value.clone())
                } else {
                    None
                }
            },
            None => None,
        }
    }

    /// Stores `info` under `key`, stamped with the current time, in place of
    /// what was stored there.
    pub fn set(&mut self, key: usize, info: T)
        ensures
            final(self).stored() == old(self).stored().insert(key, info),
            final(self).time_to_live() == old(self).time_to_live(),
    {
        broadcast use vstd::std_specs::hash::group_hash_axioms;
        self.entries.insert(key, CacheEntry::new(info));
        assert(self.stored() =~= old(self).stored().insert(key, info));
    }

    /// Drops what is stored under `key`.
    pub fn clear_key(&mut self, key: &usize)
        ensures
            final(self).stored() == old(self).stored().remove(*key),
            final(self).time_to_live() == old(self).time_to_live(),
    {
        broadcast use vstd::std_specs::hash::group_hash_axioms;
        self.entries.remove(key);
        assert(self.stored() =~= old(self).stored().remove(*key));
    }

    /// Drops everything stored.
    pub fn clear_all(&mut self)
        ensures
            final(self).stored() == Map::<usize, T>::empty(),
            final(self).time_to_live() == old(self).time_to_live(),
    {
        self.entries.clear();
        assert(self.stored() =~= Map::<usize, T>::empty());
    }

    /// Whether something is stored under `key`, fresh or not.
    pub fn has_entry(&self, key: &usize) -> (r: bool)
        ensures
            r == self.stored().contains_key(*key),
    {
        broadcast use vstd::std_specs::hash::group_hash_axioms;
        self.entries.contains_key(key)
    }

    /// The number of stored values, fresh or not.
    pub fn len(&self) -> (r: usize)
        ensures
            r == self.stored().len(),
    {
        broadcast use vstd::std_specs::hash::group_hash_axioms;
        assert(self.stored().dom() =~= self.entries@.dom());
        self.entries.len()
    }

    /// Whether nothing is stored.
    pub fn is_empty(&self) -> (r: bool)
        ensures
            r == (self.stored().len() == 0),
    {
        self.len() == 0
    }
}

impl<T: Clone> Default for MultiGpuInfoCache<T> {
    /// An empty cache with a time-to-live of one second.
    fn default() -> (r: Self)
        ensures
            r.stored() == Map::<usize, T>::empty(),
            duration_nanos(r.time_to_live()) == 1_000_000_000,
    {
        Self::new(Duration::from_secs(1))
    }
}

} // verus!
