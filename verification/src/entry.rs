//! What the cache stores and how it is configured.

use crate::time::{Span, Timestamp};
use vstd::prelude::*;

verus! {

/// A stored value with the instant at which it was last written.
pub struct CacheEntry<V> {
    pub value: V,
    pub timestamp: Timestamp,
}

/// The configuration that a cache keeps for its whole life.
#[derive(Clone, Copy, Debug)]
pub struct CacheOptions {
    /// Time to live: an entry written this long ago, or longer, has expired.
    pub ttl: Span,
    /// The number of entries at which a write evicts the oldest one.
    pub max_size: usize,
}

impl<V> CacheEntry<V> {
    /// An entry for `value`, written at `now`.
    pub fn new_at(value: V, now: Timestamp) -> (entry: Self)
        ensures
            entry.value == value,
            entry.timestamp == now,
    {
        CacheEntry { value, timestamp: now }
    }

    /// An entry for `value`, written at the instant the system clock shows.
    pub fn new(value: V) -> (entry: Self)
        ensures
            entry.value == value,
    {
        CacheEntry::new_at(value, Timestamp::now())
    }
}

} // verus!
