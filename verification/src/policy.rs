//! The two policies of the cache, stated over its contents as a map from
//! keys to entries: when an entry has expired, and which entry is evicted.

use crate::entry::CacheEntry;
use crate::time::{Span, Timestamp};
use vstd::prelude::*;

verus! {

/// An entry written at `written` has expired at `now`: at least `ttl` has
/// passed since. An entry stamped later than `now` has not expired.
pub open spec fn is_stale(written: Timestamp, now: Timestamp, ttl: Span) -> bool {
    now.nanos - written.nanos >= ttl.nanos
}

/// An entry written at `written` is kept by a sweep at `now`: it was written
/// no later than `now`, and less than `ttl` has passed since. The sweep is
/// the stricter of the two tests: an entry stamped later than `now` has not
/// expired, yet the sweep drops it.
pub open spec fn survives_sweep(written: Timestamp, now: Timestamp, ttl: Span) -> bool {
    0 <= now.nanos - written.nanos < ttl.nanos
}

/// `key` holds an entry that a sweep at `now` drops.
pub open spec fn is_due<K, V>(
    entries: Map<K, CacheEntry<V>>,
    key: K,
    now: Timestamp,
    ttl: Span,
) -> bool {
    entries.contains_key(key) && !survives_sweep(entries[key].timestamp, now, ttl)
}

/// The entries that a sweep at `now` leaves.
pub open spec fn swept<K, V>(entries: Map<K, CacheEntry<V>>, now: Timestamp, ttl: Span) -> Map<
    K,
    CacheEntry<V>,
> {
    Map::new(
        |k: K| entries.contains_key(k) && survives_sweep(entries[k].timestamp, now, ttl),
        |k: K| entries[k],
    )
}

/// `key` holds an entry that no other entry is older than.
pub open spec fn is_oldest<K, V>(entries: Map<K, CacheEntry<V>>, key: K) -> bool {
    &&& entries.contains_key(key)
    &&& forall|other: K| #[trigger]
        entries.contains_key(other) ==> entries[key].timestamp.nanos
            <= entries[other].timestamp.nanos
}

/// `after` is `before` without one of its oldest entries; where several
/// entries are equally old, any one of them may be the one that left.
/// An empty map stays as it is.
pub open spec fn oldest_removed<K, V>(
    before: Map<K, CacheEntry<V>>,
    after: Map<K, CacheEntry<V>>,
) -> bool {
    if before.len() == 0 {
        after == before
    } else {
        exists|victim: K| #[trigger] is_oldest(before, victim) && after == before.remove(victim)
    }
}

/// `after` is what a write of `value` under `key` at `now` makes of
/// `before`: first a sweep at `now`; then, if exactly `max_size` entries are
/// left, one of the oldest of them leaves (none, where none is left); then
/// `value`, stamped `now`, is stored under `key`, in place of any entry that
/// was there.
pub open spec fn set_outcome<K, V>(
    before: Map<K, CacheEntry<V>>,
    after: Map<K, CacheEntry<V>>,
    key: K,
    value: V,
    now: Timestamp,
    ttl: Span,
    max_size: usize,
) -> bool {
    let kept = swept(before, now, ttl);
    let entry = CacheEntry { value, timestamp: now };
    if kept.len() == max_size && kept.len() > 0 {
        exists|victim: K| #[trigger]
            is_oldest(kept, victim) && after == kept.remove(victim).insert(key, entry)
    } else {
        after == kept.insert(key, entry)
    }
}

/// `key` holds an entry that has not expired at `now`.
pub open spec fn is_live<K, V>(
    entries: Map<K, CacheEntry<V>>,
    key: K,
    now: Timestamp,
    ttl: Span,
) -> bool {
    entries.contains_key(key) && !is_stale(entries[key].timestamp, now, ttl)
}

/// `found` is what a lookup of `key` at `now` may hand out: a clone of the
/// stored value where the entry is live, nothing where it is not.
pub open spec fn looked_up<K, V: Clone>(
    entries: Map<K, CacheEntry<V>>,
    key: K,
    now: Timestamp,
    ttl: Span,
    found: Option<V>,
) -> bool {
    match found {
        Some(value) => is_live(entries, key, now, ttl) && cloned(entries[key].value, value),
        None => !is_live(entries, key, now, ttl),
    }
}

} // verus!
