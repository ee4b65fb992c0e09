use ttl_cache::{Cache, CacheEntry, CacheOptions, Span, Timestamp};

fn one_hour(max_size: usize) -> CacheOptions {
    CacheOptions { ttl: Span::from_secs(3600), max_size }
}

#[test]
fn set_then_get_clear_by_the_system_clock() {
    let options = CacheOptions { ttl: Span::from_secs(10), max_size: 3 };
    let mut cache: Cache<u32, &str> = Cache::new(options);
    let name1 = "Mike Willis";
    cache.set(1, name1);
    let value1 = cache.get(1);
    assert_eq!(value1.unwrap(), name1);
    assert_eq!(cache.size(), 1);
    cache.clear();
    assert_eq!(cache.size(), 0);
    assert_eq!(cache.get(1), None);
}

#[test]
fn set_by_the_system_clock_evicts_when_full() {
    let mut cache: Cache<u32, &str> = Cache::new(one_hour(2));
    cache.set_at(1, "A", Timestamp { nanos: Timestamp::now().nanos - 1_000_000_000 });
    cache.set(2, "B");
    cache.set(3, "C");
    assert_eq!(cache.size(), 2);
    assert_eq!(cache.get(1), None);
    assert_eq!(cache.get(2), Some("B"));
    assert_eq!(cache.get(3), Some("C"));
}

#[test]
fn get_by_the_system_clock_passes_over_an_old_entry() {
    let mut cache: Cache<u32, &str> = Cache::new(one_hour(3));
    cache.set_at(1, "A", Timestamp::from_secs(0));
    assert_eq!(cache.get(1), None);
    assert_eq!(cache.size(), 1);
    assert_eq!(cache.get(2), None);
}

#[test]
fn new_entry_is_stamped_by_the_system_clock() {
    let entry = CacheEntry::new("A");
    assert_eq!(entry.value, "A");
    assert!(entry.timestamp.nanos > 0);
}

#[test]
fn is_expired_by_the_system_clock() {
    let cache: Cache<u32, &str> = Cache::new(one_hour(3));
    let old = CacheEntry::new_at("A", Timestamp::from_secs(0));
    assert!(cache.is_expired(&old));
    let fresh = CacheEntry::new("B");
    assert!(!cache.is_expired(&fresh));
}

#[test]
fn remove_expired_by_the_system_clock() {
    let mut cache: Cache<u32, &str> = Cache::new(one_hour(3));
    let now: i128 = Timestamp::now().nanos;
    cache.set_at(1, "A", Timestamp { nanos: now - 5_400_000_000_000 });
    cache.set_at(2, "B", Timestamp { nanos: now - 2_400_000_000_000 });
    assert_eq!(cache.size(), 2);
    cache.remove_expired();
    assert_eq!(cache.size(), 1);
    assert_eq!(cache.get(1), None);
    assert_eq!(cache.get(2), Some("B"));
}
