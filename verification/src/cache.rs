//! The cache: a hash map from keys to stamped values, with expiry on read,
//! a sweep on write, and eviction of the oldest entry when full.

use crate::entry::{CacheEntry, CacheOptions};
use crate::policy::{
    is_due, is_oldest, is_stale, looked_up, oldest_removed, set_outcome, survives_sweep, swept,
};
use crate::time::Timestamp;
use std::collections::HashMap;
use std::hash::Hash;
use vstd::prelude::*;
use vstd::std_specs::hash::obeys_key_model;
use vstd::std_specs::iter::IteratorSpec;

verus! {

/// What the contracts of the cache ask of its key type: that hashing and `==`
/// go by the value of a key, as the model of `HashMap` has it, and that the
/// clone of a key is that key.
pub open spec fn key_is_plain<K: Clone>() -> bool {
    &&& obeys_key_model::<K>()
    &&& forall|a: K, b: K| #[trigger] cloned(a, b) ==> a == b
}

/// A bounded key-value store whose entries expire.
pub struct Cache<K, V> {
    store: HashMap<K, CacheEntry<V>>,
    options: CacheOptions,
}

impl<K, V> View for Cache<K, V> {
    type V = Map<K, CacheEntry<V>>;

    /// The stored entries, expired ones that no sweep has met yet included.
    closed spec fn view(&self) -> Map<K, CacheEntry<V>> {
        self.store@
    }
}

impl<K, V> Cache<K, V> where K: Eq + Hash + Clone, V: Clone {
    /// The configuration the cache was made with.
    pub closed spec fn options(&self) -> CacheOptions {
        self.options
    }

    /// The key type is fit for the contracts, and the cache holds no more
    /// than `max_size` entries. A cache made with `max_size == 0` is under no
    /// bound: eviction waits for the cache to hold exactly `max_size`
    /// entries, and an empty cache has nothing to evict.
    pub open spec fn wf(&self) -> bool {
        &&& key_is_plain::<K>()
        &&& self@.dom().finite()
        &&& self.options().max_size > 0 ==> self@.len() <= self.options().max_size
    }

    /// An empty cache with the given configuration. No configuration is
    /// turned away.
    pub fn new(options: CacheOptions) -> (cache: Self)
        requires
            key_is_plain::<K>(),
        ensures
            cache.wf(),
            cache@ == Map::<K, CacheEntry<V>>::empty(),
            cache.options() == options,
    {
        Cache { store: HashMap::new(), options }
    }

    /// Stores `value` under `key` as written at `now`. First the cache is
    /// swept at `now`. If it then holds exactly `max_size` entries, one of the
    /// oldest leaves, whether or not `key` is among those stored. Then the new
    /// entry takes the place of any entry that `key` had.
    pub fn set_at(&mut self, key: K, value: V, now: Timestamp)
        requires
            old(self).wf(),
        ensures
            final(self).wf(),
            final(self).options() == old(self).options(),
            set_outcome(
                old(self)@,
                final(self)@,
                key,
                value,
                now,
                old(self).options().ttl,
                old(self).options().max_size,
            ),
            old(self).options().max_size > 0 ==> final(self)@.len() <= old(self).options().max_size,
    {
        self.remove_expired_at(now);
        let is_full = self.store.len() == self.options.max_size;
        if is_full {
            self.remove_oldest();
        }
        let entry = CacheEntry::new_at(value, now);
        self.store.insert(key, entry);
    }

    /// Stores `value` under `key` as written at the instant the system clock
    /// shows. The outcome is the one that `set_at` gives for some instant.
    pub fn set(&mut self, key: K, value: V)
        requires
            old(self).wf(),
        ensures
            final(self).wf(),
            final(self).options() == old(self).options(),
            exists|now: Timestamp| #[trigger]
                set_outcome(
                    old(self)@,
                    final(self)@,
                    key,
                    value,
                    now,
                    old(self).options().ttl,
                    old(self).options().max_size,
                ),
            final(self)@.contains_key(key),
            final(self)@[key].value == value,
            old(self).options().max_size > 0 ==> final(self)@.len() <= old(self).options().max_size,
    {
        let now = Timestamp::now();
        self.set_at(key, value, now);
    }

    /// Drops every entry.
    pub fn clear(&mut self)
        requires
            old(self).wf(),
        ensures
            final(self).wf(),
            final(self)@ == Map::<K, CacheEntry<V>>::empty(),
            final(self).options() == old(self).options(),
    {
        self.store.clear();
    }

    /// Whether `entry` has expired at `now`: whether at least the time to
    /// live has passed since it was written. An entry stamped later than
    /// `now` has not expired.
    pub fn is_expired_at(&self, entry: &CacheEntry<V>, now: Timestamp) -> (expired: bool)
        ensures
            expired == is_stale(entry.timestamp, now, self.options().ttl),
    {
        match now.elapsed_since(entry.timestamp) {
            Some(elapsed) => elapsed.nanos >= self.options.ttl.nanos,
            None => false,
        }
    }

    /// Whether `entry` has expired at the instant the system clock shows.
    /// The answer is the one that `is_expired_at` gives for some instant.
    pub fn is_expired(&self, entry: &CacheEntry<V>) -> (expired: bool)
        ensures
            exists|now: Timestamp|
                expired == #[trigger] is_stale(entry.timestamp, now, self.options().ttl),
    {
        let now = Timestamp::now();
        self.is_expired_at(entry, now)
    }

    /// Looks `key` up at `now`: a copy of its value if it holds an entry
    /// that has not expired, nothing otherwise. The cache stays as it is; an
    /// expired entry is left for the next sweep.
    pub fn get_at(&mut self, key: K, now: Timestamp) -> (found: Option<V>)
        requires
            old(self).wf(),
        ensures
            *final(self) == *old(self),
            looked_up(old(self)@, key, now, old(self).options().ttl, found),
    {
        let entry = self.store.get(&key);
        if let Some(entry) = entry {
            if self.is_expired_at(entry, now) {
                return None;
            } else {
                return Some(entry.value.clone());
            }
        }
        None
    }

    /// Looks `key` up at the instant the system clock shows. The answer is
    /// the one that `get_at` gives for some instant.
    pub fn get(&mut self, key: K) -> (found: Option<V>)
        requires
            old(self).wf(),
        ensures
            *final(self) == *old(self),
            exists|now: Timestamp| #[trigger]
                looked_up(old(self)@, key, now, old(self).options().ttl, found),
            found is Some ==> old(self)@.contains_key(key) && cloned(
                old(self)@[key].value,
                found.unwrap(),
            ),
    {
        let now = Timestamp::now();
        self.get_at(key, now)
    }

    /// A key whose entry is the oldest, or nothing for an empty cache. Where
    /// several entries are equally old, the answer is any one of their keys.
    pub fn find_oldest(&self) -> (oldest: Option<K>)
        requires
            self.wf(),
        ensures
            match oldest {
                Some(key) => is_oldest(self@, key),
                None => self@.len() == 0,
            },
    {
        let mut best: Option<(&K, Timestamp)> = None;
        let ghost items = self.store.iter().remaining();
        let ghost mut seen: int = 0;
        for pair in it: self.store.iter()
            invariant
                it.seq() == items,
                seen == it.index(),
                match best {
                    Some((key, written)) => {
                        &&& self.store@.contains_key(*key)
                        &&& self.store@[*key].timestamp == written
                        &&& forall|i: int|
                            0 <= i < seen ==> written.nanos <= (#[trigger] items[i]).1.timestamp.nanos
                    },
                    None => seen == 0,
                },
        {
            let (key, entry) = pair;
            match best {
                Some((_, written)) if written.nanos <= entry.timestamp.nanos => {},
                _ => {
                    best = Some((key, entry.timestamp));
                },
            }
            proof {
                seen = seen + 1;
            }
        }
        match best {
            Some((key, written)) => {
                proof {
                    assert forall|other: K| #[trigger] self@.contains_key(other) implies written.nanos
                        <= self@[other].timestamp.nanos by {
                        let at: int = items.index_of((&other, &self@[other]));
                        assert(items[at] == (&other, &self@[other]));
                    }
                }
                let owned = key.clone();
                assert(cloned(*key, owned));
                Some(owned)
            },
            None => None,
        }
    }

    /// Drops one of the oldest entries; an empty cache stays empty.
    pub fn remove_oldest(&mut self)
        requires
            old(self).wf(),
        ensures
            final(self).wf(),
            final(self).options() == old(self).options(),
            oldest_removed(old(self)@, final(self)@),
    {
        if let Some(oldest_key) = self.find_oldest() {
            self.store.remove(&oldest_key);
        }
    }

    /// The keys of the entries that a sweep at `now` drops: those that have
    /// expired, and those stamped later than `now`.
    fn due_keys_at(&self, now: Timestamp) -> (due: Vec<K>)
        requires
            self.wf(),
        ensures
            forall|key: K|
                #![trigger due@.contains(key)]
                #![trigger is_due(self@, key, now, self.options().ttl)]
                due@.contains(key) <==> is_due(self@, key, now, self.options().ttl),
    {
        let ttl = self.options.ttl;
        let mut due: Vec<K> = Vec::new();
        let ghost items = self.store.iter().remaining();
        let ghost mut seen: int = 0;
        for pair in it: self.store.iter()
            invariant
                key_is_plain::<K>(),
                it.seq() == items,
                seen == it.index(),
                forall|j: int|
                    0 <= j < due@.len() ==> is_due(self.store@, #[trigger] due@[j], now, ttl),
                forall|i: int|
                    0 <= i < seen && !survives_sweep((#[trigger] items[i]).1.timestamp, now, ttl)
                        ==> due@.contains(*items[i].0),
        {
            let (key, entry) = pair;
            let keep = match now.elapsed_since(entry.timestamp) {
                Some(elapsed) => elapsed.nanos < ttl.nanos,
                None => false,
            };
            if !keep {
                let owned = key.clone();
                assert(cloned(*key, owned));
                let ghost earlier = due@;
                due.push(owned);
                assert(due@[earlier.len() as int] == *key);
                assert forall|i: int|
                    0 <= i < seen && !survives_sweep((#[trigger] items[i]).1.timestamp, now, ttl)
                    implies due@.contains(*items[i].0) by {
                    let j: int = earlier.index_of(*items[i].0);
                    assert(due@[j] == *items[i].0);
                }
            }
            proof {
                seen = seen + 1;
            }
        }
        assert forall|key: K| is_due(self@, key, now, ttl) implies due@.contains(key) by {
            let at: int = items.index_of((&key, &self@[key]));
            assert(items[at] == (&key, &self@[key]));
        }
        due
    }

    /// Sweeps the cache at `now`: drops every entry that has expired, and
    /// every entry stamped later than `now`.
    pub fn remove_expired_at(&mut self, now: Timestamp)
        requires
            old(self).wf(),
        ensures
            final(self).wf(),
            final(self).options() == old(self).options(),
            final(self)@ == swept(old(self)@, now, old(self).options().ttl),
    {
        let ghost ttl = self.options().ttl;
        let ghost before = self@;
        let due = self.due_keys_at(now);
        assert forall|key: K| is_due(before, key, now, ttl) implies exists|j: int|
            0 <= j < due@.len() && #[trigger] due@[j] == key by {
            let at: int = due@.index_of(key);
            assert(due@[at] == key);
        }
        let mut next: usize = 0;
        while next < due.len()
            invariant
                key_is_plain::<K>(),
                next <= due@.len(),
                self.options == old(self).options,
                forall|key: K|
                    #![trigger due@.contains(key)]
                    #![trigger is_due(before, key, now, ttl)]
                    due@.contains(key) <==> is_due(before, key, now, ttl),
                forall|key: K| #[trigger]
                    self.store@.contains_key(key) ==> before.contains_key(key) && self.store@[key]
                        == before[key],
                forall|key: K|
                    before.contains_key(key) && !is_due(before, key, now, ttl)
                        ==> #[trigger] self.store@.contains_key(key),
                forall|key: K| #[trigger]
                    self.store@.contains_key(key) && is_due(before, key, now, ttl) ==> exists|
                        j: int,
                    |
                        next <= j < due@.len() && #[trigger] due@[j] == key,
            decreases due@.len() - next,
        {
            self.store.remove(&due[next]);
            next = next + 1;
        }
        proof {
            vstd::set_lib::lemma_len_subset(self@.dom(), before.dom());
        }
    }

    /// Sweeps the cache at the instant the system clock shows.
    pub fn remove_expired(&mut self)
        requires
            old(self).wf(),
        ensures
            final(self).wf(),
            final(self).options() == old(self).options(),
            exists|now: Timestamp|
                final(self)@ == #[trigger] swept(old(self)@, now, old(self).options().ttl),
            final(self)@.submap_of(old(self)@),
    {
        let now = Timestamp::now();
        self.remove_expired_at(now);
    }

    /// The number of stored entries. Expired entries count until a sweep
    /// removes them.
    pub fn size(&self) -> (count: usize)
        requires
            self.wf(),
        ensures
            count == self@.len(),
    {
        self.store.len()
    }
}

} // verus!
