//! A bounded key-value cache whose entries expire.
//!
//! Every entry carries the instant of its last write. A lookup hands out a
//! value only while less than the time to live has passed since then. A
//! write first sweeps out what has expired, then makes room by evicting the
//! entry written longest ago if the cache is full, then stores the new
//! entry. The functions whose names end in `_at` take the instant as an
//! argument; their namesakes without the ending read the system clock.

pub mod cache;
pub mod entry;
pub mod laws;
pub mod policy;
pub mod time;

pub use cache::Cache;
pub use entry::{CacheEntry, CacheOptions};
pub use time::{Span, Timestamp};
