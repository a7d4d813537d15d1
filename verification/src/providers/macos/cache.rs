//! A cache of GPU records by name, each with the time it was stored, under
//! one time-to-live.
use vstd::prelude::*;
use std::time::{Duration, Instant};
use crate::cache_utils::{is_fresh, read_back};
use crate::gpu_info::GpuRecord;
use crate::time::duration_nanos;

verus! {

/// A cached GPU record with the time it was stored.
#[derive(Debug, Clone)]
pub struct GpuStaticInfo {
    /// The cached record.
    pub info: GpuRecord,
    /// When the record was stored.
    pub cached_at: Instant,
}

/// The names of the stored entries, in order.
pub open spec fn names_of(s: Seq<(String, GpuStaticInfo)>) -> Seq<Seq<char>> {
    s.map_values(|e: (String, GpuStaticInfo)| e.0@)
}

/// The position of an entry named `name`.
pub open spec fn name_index(s: Seq<(String, GpuStaticInfo)>, name: Seq<char>) -> int {
    choose|i: int| 0 <= i < s.len() && s[i].0@ == name
}

/// The record stored under `name`: the one of the entry with that name.
pub open spec fn record_named(s: Seq<(String, GpuStaticInfo)>, name: Seq<char>) -> GpuRecord {
    s[name_index(s, name)].1.info
}

/// The records of the entries `s` by name.
pub open spec fn records_by_name(s: Seq<(String, GpuStaticInfo)>) -> Map<Seq<char>, GpuRecord> {
    Map::new(|name: Seq<char>| names_of(s).contains(name), |name: Seq<char>| record_named(s, name))
}

/// Whether a read of `key` at age `age` finds a fresh record: something is
/// stored under `key`, its age is known and under the time-to-live `ttl`.
pub open spec fn fresh_hit(
    stored: Map<Seq<char>, GpuRecord>,
    key: Seq<char>,
    age: Option<Duration>,
    ttl: Duration,
) -> bool {
    &&& stored.contains_key(key)
    &&& age matches Some(a) && duration_nanos(a) < duration_nanos(ttl)
}

/// Where names are distinct, the entry at `i` is the one the map gives for
/// its name.
proof fn lemma_entry_in_map(s: Seq<(String, GpuStaticInfo)>, i: int)
    requires
        names_of(s).no_duplicates(),
        0 <= i < s.len(),
    ensures
        records_by_name(s).contains_key(s[i].0@),
        records_by_name(s)[s[i].0@] == s[i].1.info,
{
    let name = s[i].0@;
    assert(names_of(s)[i] == name);
    assert(0 <= i < s.len() && s[i].0@ == name);
    let j = name_index(s, name);
    assert(names_of(s)[j] == name);
    if j != i {
        assert(names_of(s)[i] != names_of(s)[j]);
    }
    assert(record_named(s, name) == s[j].1.info);
}

/// A name is in the map exactly where some entry has it.
proof fn lemma_name_in_map(s: Seq<(String, GpuStaticInfo)>, name: Seq<char>)
    ensures
        records_by_name(s).contains_key(name) <==> exists|i: int| 0 <= i < s.len() && s[i].0@ == name,
{
    if records_by_name(s).contains_key(name) {
        let k = choose|k: int| 0 <= k < names_of(s).len() && names_of(s)[k] == name;
        assert(s[k].0@ == name);
    }
    if exists|i: int| 0 <= i < s.len() && s[i].0@ == name {
        let i = choose|i: int| 0 <= i < s.len() && s[i].0@ == name;
        assert(names_of(s)[i] == name);
    }
}

/// Cache of GPU records by name with a time-to-live. Shared between threads,
/// it stands behind a lock that its owner holds.
pub struct GpuCache {
    data: Vec<(String, GpuStaticInfo)>,
    ttl: Duration,
}

impl GpuCache {
    /// No name is stored twice.
    #[verifier::type_invariant]
    spec fn names_distinct(self) -> bool {
        names_of(self.data@).no_duplicates()
    }

    /// The stored records by name, fresh or not.
    pub closed spec fn stored(&self) -> Map<Seq<char>, GpuRecord> {
        records_by_name(self.data@)
    }

    /// The time-to-live of the cache.
    pub closed spec fn time_to_live(&self) -> Duration {
        self.ttl
    }

    /// An empty cache with time-to-live `ttl`.
    pub fn new(ttl: Duration) -> (r: Self)
        ensures
            r.stored() == Map::<Seq<char>, GpuRecord>::empty(),
            r.time_to_live() == ttl,
    {
        let r = GpuCache { data: Vec::new(), ttl };
        assert(r.stored() =~= Map::<Seq<char>, GpuRecord>::empty());
        r
    }

    /// The position of the entry named `name`.
    fn position(&self, name: &String) -> (r: Option<usize>)
        ensures
            match r {
                Some(i) => i < self.data@.len() && self.data@[i as int].0@ == name@,
                None => forall|i: int| 0 <= i < self.data@.len() ==> self.data@[i].0@ != name@,
            },
    {
        let mut i: usize = 0;
        while i < self.data.len()
            invariant
                i <= self.data@.len(),
                forall|j: int| 0 <= j < i ==> self.data@[j].0@ != name@,
            decreases self.data@.len() - i,
        {
            if self.data[i].0 == *name {
                return Some(i);
            }
            i = i + 1;
        }
        None
    }

    /// A copy of the record stored under `key` if it is still fresh.
    /// Freshness is read from the clock: nothing is returned when nothing is
    /// stored under `key` or the time-to-live is zero, and what is returned is
    /// what is stored.
    pub fn get(&self, key: &str) -> (r: Option<GpuRecord>)
        ensures
            r is None || r == read_back(self.stored(), key@),
            read_back(self.stored(), key@) is None ==> r is None,
            duration_nanos(self.time_to_live()) == 0 ==> r is None,
    {
        let name = key.to_owned();
        match self.position(&name) {
            Some(i) => {
                let age = self.data[i].1.cached_at.elapsed();
                self.get_with_age(key, &age)
            },
            None => {
                proof {
                    use_type_invariant(self);
                    lemma_name_in_map(self.data@, key@);
                }
                None
            },
        }
    }

    /// The record stored under `key` if its age `age` is under the
    /// time-to-live: exactly when something is stored under `key` and `age`
    /// is shorter than the time-to-live, that record; otherwise nothing.
    pub fn get_with_age(&self, key: &str, age: &Duration) -> (r: Option<GpuRecord>)
        ensures
            r == (if read_back(self.stored(), key@) is Some && duration_nanos(*age)
                < duration_nanos(self.time_to_live()) {
                read_back(self.stored(), key@)
            } else {
                None
            }),
    {
        proof {
            use_type_invariant(self);
            lemma_name_in_map(self.data@, key@);
        }
        let name = key.to_owned();
        match self.position(&name) {
            Some(i) => {
                proof {
                    lemma_entry_in_map(self.data@, i as int);
                }
                if is_fresh(age, &self.ttl) {
                    Some(self.data[i].1.info.clone())
                } else {
                    None
                }
            },
            None => None,
        }
    }

    /// Stores `info` under `key`, stamped with the current time, in place of
    /// what was stored there.
    pub fn insert(&mut self, key: String, info: GpuRecord)
        ensures
            final(self).stored() == old(self).stored().insert(key@, info),
            final(self).time_to_live() == old(self).time_to_live(),
    {
        proof {
            use_type_invariant(&*self);
        }
        let ghost old_data = self.data@;
        let ghost name = key@;
        let entry = GpuStaticInfo { info, cached_at: Instant::now() };
        match self.position(&key) {
            Some(i) => {
                let mut data: Vec<(String, GpuStaticInfo)> = Vec::new();
                std::mem::swap(&mut data, &mut self.data);
                data.set(i, (key, entry));
                proof {
                    assert(names_of(data@) =~= names_of(old_data));
                }
                self.data = data;
                proof {
                    assert forall|k: Seq<char>|
                        #[trigger] self.stored().contains_key(k) <==> records_by_name(
                            old_data,
                        ).insert(name, info).contains_key(k) by {
                        lemma_name_in_map(self.data@, k);
                        lemma_name_in_map(old_data, k);
                    }
                    assert forall|k: Seq<char>| #[trigger]
                        self.stored().contains_key(k) implies self.stored()[k]
                        == records_by_name(old_data).insert(name, info)[k] by {
                        lemma_name_in_map(self.data@, k);
                        let j = choose|j: int| 0 <= j < self.data@.len() && self.data@[j].0@ == k;
                        lemma_entry_in_map(self.data@, j);
                        assert(names_of(self.data@)[i as int] == name);
                        assert(names_of(self.data@)[j] == k);
                        if j != i {
                            assert(self.data@[j] == old_data[j]);
                            assert(k != name);
                            lemma_entry_in_map(old_data, j);
                        } else {
                            assert(self.data@[j].1.info == info);
                        }
                    }
                    assert(self.stored() =~= records_by_name(old_data).insert(name, info));
                }
            },
            None => {
                let mut data: Vec<(String, GpuStaticInfo)> = Vec::new();
                std::mem::swap(&mut data, &mut self.data);
                data.push((key, entry));
                proof {
                    assert(names_of(data@) =~= names_of(old_data).push(name));
                    assert forall|a: int, b: int|
                        0 <= a < names_of(data@).len() && 0 <= b < names_of(data@).len() && a
                            != b implies names_of(data@)[a] != names_of(data@)[b] by {
                        if a < old_data.len() && b < old_data.len() {
                            assert(names_of(old_data)[a] == names_of(data@)[a]);
                            assert(names_of(old_data)[b] == names_of(data@)[b]);
                        } else if a < old_data.len() {
                            assert(old_data[a].0@ != name);
                        } else {
                            assert(old_data[b].0@ != name);
                        }
                    }
                }
                self.data = data;
                proof {
                    let n = old_data.len() as int;
                    assert forall|k: Seq<char>|
                        #[trigger] self.stored().contains_key(k) <==> records_by_name(
                            old_data,
                        ).insert(name, info).contains_key(k) by {
                        lemma_name_in_map(self.data@, k);
                        lemma_name_in_map(old_data, k);
                        assert(self.data@[n].0@ == name);
                        if exists|j: int| 0 <= j < old_data.len() && old_data[j].0@ == k {
                            let j = choose|j: int| 0 <= j < old_data.len() && old_data[j].0@ == k;
                            assert(self.data@[j] == old_data[j]);
                        }
                        if exists|j: int| 0 <= j < self.data@.len() && self.data@[j].0@ == k {
                            let j = choose|j: int|
                                0 <= j < self.data@.len() && self.data@[j].0@ == k;
                            if j < n {
                                assert(self.data@[j] == old_data[j]);
                            }
                        }
                    }
                    assert forall|k: Seq<char>| #[trigger]
                        self.stored().contains_key(k) implies self.stored()[k]
                        == records_by_name(old_data).insert(name, info)[k] by {
                        lemma_name_in_map(self.data@, k);
                        let j = choose|j: int| 0 <= j < self.data@.len() && self.data@[j].0@ == k;
                        lemma_entry_in_map(self.data@, j);
                        if j < n {
                            assert(self.data@[j] == old_data[j]);
                            lemma_entry_in_map(old_data, j);
                        }
                    }
                    assert(self.stored() =~= records_by_name(old_data).insert(name, info));
                }
            },
        }
    }

    /// The record stored under `key` if it is still fresh; otherwise the
    /// record `compute` gives, which is stored under `key` in place of what
    /// was there. The age of the stored record is read from the clock and
    /// handed to `get_or_compute_with_age`.
    pub fn get_or_compute<F: FnOnce() -> GpuRecord>(&mut self, key: &str, compute: F) -> (r:
        GpuRecord)
        requires
            call_requires(compute, ()),
        ensures
            (old(self).stored().contains_key(key@) && r == old(self).stored()[key@]
                && final(self).stored() == old(self).stored()) || (call_ensures(compute, (), r)
                && final(self).stored() == old(self).stored().insert(key@, r)),
            !old(self).stored().contains_key(key@) || duration_nanos(old(self).time_to_live())
                == 0 ==> call_ensures(compute, (), r) && final(self).stored()
                == old(self).stored().insert(key@, r),
            final(self).time_to_live() == old(self).time_to_live(),
    {
        let age = self.entry_age(key);
        self.get_or_compute_with_age(key, age, compute)
    }

    /// The age of the record stored under `key`, read from the clock;
    /// `None` when nothing is stored under it.
    fn entry_age(&self, key: &str) -> (r: Option<Duration>)
        ensures
            r is Some == self.stored().contains_key(key@),
    {
        proof {
            use_type_invariant(self);
            lemma_name_in_map(self.data@, key@);
        }
        let name = key.to_owned();
        match self.position(&name) {
            Some(i) => Some(self.data[i].1.cached_at.elapsed()),
            None => None,
        }
    }

    /// With `age` the age of the record stored under `key` (`None` when
    /// nothing is stored): that record when something is stored under `key`
    /// and `age` is under the time-to-live, the cache unchanged; otherwise
    /// the record `compute` gives, stored under `key` in place of what was
    /// there.
    pub fn get_or_compute_with_age<F: FnOnce() -> GpuRecord>(
        &mut self,
        key: &str,
        age: Option<Duration>,
        compute: F,
    ) -> (r: GpuRecord)
        requires
            call_requires(compute, ()),
        ensures
            fresh_hit(old(self).stored(), key@, age, old(self).time_to_live()) ==> r == old(
                self,
            ).stored()[key@] && final(self).stored() == old(self).stored(),
            !fresh_hit(old(self).stored(), key@, age, old(self).time_to_live()) ==> call_ensures(
                compute,
                (),
                r,
            ) && final(self).stored() == old(self).stored().insert(key@, r),
            final(self).time_to_live() == old(self).time_to_live(),
    {
        if let Some(a) = age {
            if let Some(info) = self.get_with_age(key, &a) {
                return info;
            }
        }
        let info = compute();
        self.insert(key.to_owned(), info.clone());
        info
    }

    /// Drops the records that are no longer fresh, by the clock. What stays
    /// is stored as before; with a time-to-live of zero nothing stays.
    pub fn cleanup_expired(&mut self)
        ensures
            final(self).stored().submap_of(old(self).stored()),
            duration_nanos(old(self).time_to_live()) == 0 ==> final(self).stored()
                == Map::<Seq<char>, GpuRecord>::empty(),
            final(self).time_to_live() == old(self).time_to_live(),
    {
        proof {
            use_type_invariant(&*self);
        }
        let ghost old_data = self.data@;
        let mut entries: Vec<(String, GpuStaticInfo)> = Vec::new();
        std::mem::swap(&mut entries, &mut self.data);
        let mut kept: Vec<(String, GpuStaticInfo)> = Vec::new();
        let mut i: usize = 0;
        while i < entries.len()
            invariant
                entries@ == old_data,
                names_of(old_data).no_duplicates(),
                i <= old_data.len(),
                names_of(kept@).no_duplicates(),
                forall|m: int|
                    0 <= m < kept@.len() ==> exists|j: int|
                        0 <= j < i && #[trigger] kept@[m].0@ == old_data[j].0@
                            && kept@[m].1.info == old_data[j].1.info,
                duration_nanos(self.ttl) == 0 ==> kept@.len() == 0,
            decreases old_data.len() - i,
        {
            let entry = &entries[i];
            let age = entry.1.cached_at.elapsed();
            if is_fresh(&age, &self.ttl) {
                let copy = GpuStaticInfo { info: entry.1.info.clone(), cached_at: entry.1.cached_at };
                let ghost before = kept@;
                kept.push((entry.0.clone(), copy));
                proof {
                    assert(names_of(kept@) =~= names_of(before).push(old_data[i as int].0@));
                    assert forall|a: int, b: int|
                        0 <= a < names_of(kept@).len() && 0 <= b < names_of(kept@).len() && a
                            != b implies names_of(kept@)[a] != names_of(kept@)[b] by {
                        if a < before.len() && b < before.len() {
                            assert(names_of(before)[a] == names_of(kept@)[a]);
                            assert(names_of(before)[b] == names_of(kept@)[b]);
                        } else if a < before.len() {
                            assert(kept@[a] == before[a]);
                            let j = choose|j: int|
                                0 <= j < i && #[trigger] before[a].0@ == old_data[j].0@
                                    && before[a].1.info == old_data[j].1.info;
                            assert(names_of(old_data)[j] != names_of(old_data)[i as int]);
                        } else {
                            assert(kept@[b] == before[b]);
                            let j = choose|j: int|
                                0 <= j < i && #[trigger] before[b].0@ == old_data[j].0@
                                    && before[b].1.info == old_data[j].1.info;
                            assert(names_of(old_data)[j] != names_of(old_data)[i as int]);
                        }
                    }
                    assert forall|m: int| 0 <= m < kept@.len() implies exists|j: int|
                        0 <= j < i + 1 && #[trigger] kept@[m].0@ == old_data[j].0@
                            && kept@[m].1.info == old_data[j].1.info by {
                        if m < before.len() {
                            assert(kept@[m] == before[m]);
                        } else {
                            assert(kept@[m].0@ == old_data[i as int].0@);
                        }
                    }
                }
            }
            i = i + 1;
        }
        self.data = kept;
        proof {
            assert forall|k: Seq<char>| #[trigger]
                self.stored().contains_key(k) implies records_by_name(old_data).contains_key(k)
                && self.stored()[k] == records_by_name(old_data)[k] by {
                lemma_name_in_map(self.data@, k);
                let m = choose|m: int| 0 <= m < self.data@.len() && self.data@[m].0@ == k;
                lemma_entry_in_map(self.data@, m);
                let j = choose|j: int|
                    0 <= j < old_data.len() && #[trigger] self.data@[m].0@ == old_data[j].0@
                        && self.data@[m].1.info == old_data[j].1.info;
                lemma_entry_in_map(old_data, j);
            }
            if duration_nanos(self.ttl) == 0 {
                assert(self.stored() =~= Map::<Seq<char>, GpuRecord>::empty());
            }
        }
    }

    /// Drops every stored record.
    pub fn clear(&mut self)
        ensures
            final(self).stored() == Map::<Seq<char>, GpuRecord>::empty(),
            final(self).time_to_live() == old(self).time_to_live(),
    {
        self.data = Vec::new();
        assert(self.stored() =~= Map::<Seq<char>, GpuRecord>::empty());
    }

    /// The number of stored records, fresh or not.
    pub fn len(&self) -> (r: usize)
        ensures
            r == self.stored().len(),
    {
        proof {
            use_type_invariant(self);
            names_of(self.data@).unique_seq_to_set();
            assert(self.stored().dom() =~= names_of(self.data@).to_set());
        }
        self.data.len()
    }

    /// Whether nothing is stored.
    pub fn is_empty(&self) -> (r: bool)
        ensures
            r == (self.stored().len() == 0),
    {
        self.len() == 0
    }

    /// The time-to-live of the cache.
    pub fn ttl(&self) -> (r: Duration)
        ensures
            r == self.time_to_live(),
    {
        self.ttl
    }
}

impl Default for GpuCache {
    /// An empty cache with a time-to-live of sixty seconds.
    fn default() -> (r: Self)
        ensures
            r.stored() == Map::<Seq<char>, GpuRecord>::empty(),
            duration_nanos(r.time_to_live()) == 60_000_000_000,
    {
        Self::new(Duration::from_secs(60))
    }
}

} // verus!
