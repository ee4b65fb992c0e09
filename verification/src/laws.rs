//! What holds of the cache across calls, proved over the contents as a map.
//! The contracts of `Cache` speak of the same predicates, so each law here
//! is a law of the calls.

use crate::entry::CacheEntry;
use crate::policy::{is_due, is_oldest, looked_up, set_outcome, swept};
use crate::time::{Span, Timestamp};
use vstd::prelude::*;

verus! {

/// A sweep only drops entries: what it leaves is finite and no larger than
/// what it met.
pub proof fn lemma_sweep_shrinks<K, V>(entries: Map<K, CacheEntry<V>>, now: Timestamp, ttl: Span)
    requires
        entries.dom().finite(),
    ensures
        swept(entries, now, ttl).dom().finite(),
        swept(entries, now, ttl).len() <= entries.len(),
        swept(entries, now, ttl).len() == entries.len() ==> swept(entries, now, ttl) == entries,
{
    let kept = swept(entries, now, ttl);
    vstd::set_lib::lemma_len_subset(kept.dom(), entries.dom());
    if kept.len() == entries.len() {
        vstd::set_lib::lemma_subset_equality(kept.dom(), entries.dom());
    }
}

/// Time to live: a value written at `written` stays to be found for as long
/// as less than `ttl` has passed since, and is gone from then on. A lookup at
/// an instant before `written` finds it too.
pub proof fn lemma_written_value_lives_for_ttl<K, V: Clone>(
    before: Map<K, CacheEntry<V>>,
    after: Map<K, CacheEntry<V>>,
    key: K,
    value: V,
    written: Timestamp,
    ttl: Span,
    max_size: usize,
    now: Timestamp,
    found: Option<V>,
)
    requires
        set_outcome(before, after, key, value, written, ttl, max_size),
        looked_up(after, key, now, ttl, found),
    ensures
        now.nanos - written.nanos >= ttl.nanos ==> found is None,
        now.nanos - written.nanos < ttl.nanos ==> found is Some && cloned(value, found.unwrap()),
{
}

/// Capacity: a write to a cache that holds no more than `max_size` entries
/// leaves it holding no more than `max_size`, for every `max_size` but zero.
pub proof fn lemma_set_keeps_capacity<K, V>(
    before: Map<K, CacheEntry<V>>,
    after: Map<K, CacheEntry<V>>,
    key: K,
    value: V,
    now: Timestamp,
    ttl: Span,
    max_size: usize,
)
    requires
        before.dom().finite(),
        max_size > 0,
        before.len() <= max_size,
        set_outcome(before, after, key, value, now, ttl, max_size),
    ensures
        after.dom().finite(),
        after.len() <= max_size,
{
    lemma_sweep_shrinks(before, now, ttl);
}

/// Eviction: when a cache that is full takes a key that it does not hold,
/// exactly one entry leaves, and no entry is older than that one. This holds
/// as long as the sweep that comes first meets no entry to drop, or only one
/// and that an oldest: a sweep that drops more, or drops a newer entry,
/// decides by itself what leaves.
pub proof fn lemma_full_cache_evicts_oldest<K, V>(
    before: Map<K, CacheEntry<V>>,
    after: Map<K, CacheEntry<V>>,
    key: K,
    value: V,
    now: Timestamp,
    ttl: Span,
    max_size: usize,
)
    requires
        before.dom().finite(),
        max_size > 0,
        before.len() == max_size,
        !before.contains_key(key),
        forall|a: K, b: K| is_due(before, a, now, ttl) && is_due(before, b, now, ttl) ==> a == b,
        forall|a: K| is_due(before, a, now, ttl) ==> is_oldest(before, a),
        set_outcome(before, after, key, value, now, ttl, max_size),
    ensures
        exists|victim: K| #[trigger]
            is_oldest(before, victim) && after == before.remove(victim).insert(
                key,
                (CacheEntry { value, timestamp: now }),
            ),
        after.len() == max_size,
{
    let kept = swept(before, now, ttl);
    lemma_sweep_shrinks(before, now, ttl);
    if kept.len() != max_size {
        // The sweep dropped an entry, so nothing is evicted: the one entry
        // that was due is the one that left.
        if forall|k: K| before.contains_key(k) ==> kept.contains_key(k) {
            assert(kept =~= before);
        }
        let gone = choose|k: K| before.contains_key(k) && !kept.contains_key(k);
        assert(is_due(before, gone, now, ttl));
        assert forall|k: K| before.remove(gone).contains_key(k) implies kept.contains_key(k) by {
            if !kept.contains_key(k) {
                assert(is_due(before, k, now, ttl));
            }
        }
        assert(is_oldest(before, gone));
    }
}

/// Overwrite: a write to a key that the cache holds leaves the size as it
/// was. This holds as long as the write drops no other entry: the sweep
/// meets no entry to drop but perhaps the one under `key`, and the cache is
/// not full after the sweep, or `key` is the only oldest entry in it.
pub proof fn lemma_overwrite_keeps_size<K, V>(
    before: Map<K, CacheEntry<V>>,
    after: Map<K, CacheEntry<V>>,
    key: K,
    value: V,
    now: Timestamp,
    ttl: Span,
    max_size: usize,
)
    requires
        before.dom().finite(),
        before.contains_key(key),
        forall|other: K| is_due(before, other, now, ttl) ==> other == key,
        swept(before, now, ttl).len() == max_size ==> forall|other: K|
            is_oldest(swept(before, now, ttl), other) ==> other == key,
        set_outcome(before, after, key, value, now, ttl, max_size),
    ensures
        after.len() == before.len(),
        after.dom() == before.dom(),
{
    let kept = swept(before, now, ttl);
    lemma_sweep_shrinks(before, now, ttl);
    assert forall|other: K| before.contains_key(other) implies after.contains_key(other) by {
        if other != key && !kept.contains_key(other) {
            assert(is_due(before, other, now, ttl));
        }
    }
    assert(after.dom() =~= before.dom());
}

/// Recency: after a write, the key holds the value just written, stamped
/// with the instant of the write, and no entry in the cache is newer. So the
/// key written last is the last in line for eviction.
pub proof fn lemma_written_entry_is_newest<K, V>(
    before: Map<K, CacheEntry<V>>,
    after: Map<K, CacheEntry<V>>,
    key: K,
    value: V,
    now: Timestamp,
    ttl: Span,
    max_size: usize,
)
    requires
        set_outcome(before, after, key, value, now, ttl, max_size),
    ensures
        after.contains_key(key),
        after[key] == (CacheEntry { value, timestamp: now }),
        forall|other: K| #[trigger]
            after.contains_key(other) ==> after[other].timestamp.nanos <= now.nanos,
{
}

/// Clear: an empty cache has size zero, and no lookup finds anything in it.
pub proof fn lemma_nothing_found_when_empty<K, V: Clone>(
    key: K,
    now: Timestamp,
    ttl: Span,
    found: Option<V>,
)
    requires
        looked_up(Map::<K, CacheEntry<V>>::empty(), key, now, ttl, found),
    ensures
        found is None,
        Map::<K, CacheEntry<V>>::empty().len() == 0,
{
}

} // verus!
