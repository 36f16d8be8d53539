use ping_visits::cache::{CacheAccessor, CacheEntry};

#[test]
fn cache_round_trip_before_ttl() {
    let mut cache = CacheAccessor::new();
    cache.set_with_ttl(42, 600, 0);
    assert_eq!(cache.get(0), Some(42));
    assert_eq!(cache.get(599), Some(42));
}

#[test]
fn cache_expires_at_ttl_boundary() {
    let mut cache = CacheAccessor::new();
    cache.set_with_ttl(42, 600, 100);
    assert_eq!(cache.get(699), Some(42));
    assert_eq!(cache.get(700), None);
    assert_eq!(cache.get(10_000), None);
}

#[test]
fn invalidate_clears_valid_entry() {
    let mut cache = CacheAccessor::new();
    cache.set_with_ttl(7, 600, 0);
    cache.invalidate();
    assert_eq!(cache.get(1), None);
    assert_eq!(cache.entry, CacheEntry::Absent);
}

#[test]
fn invalidate_on_absent_is_a_noop() {
    let mut cache = CacheAccessor::new();
    cache.invalidate();
    assert_eq!(cache.entry, CacheEntry::Absent);
    assert_eq!(cache.get(0), None);
}

#[test]
fn populate_overwrites_existing_entry() {
    let mut cache = CacheAccessor::new();
    cache.set_with_ttl(1, 600, 0);
    cache.set_with_ttl(2, 60, 10);
    assert_eq!(cache.get(20), Some(2));
    assert_eq!(cache.entry, CacheEntry::Valid { value: 2, expires_at: 70 });
}

#[test]
fn unreachable_backend_reads_miss() {
    let cache = CacheAccessor {
        reachable: false,
        entry: CacheEntry::Valid { value: 5, expires_at: 1000 },
    };
    assert_eq!(cache.get(0), None);
}

#[test]
fn unreachable_backend_writes_are_noops() {
    let mut cache = CacheAccessor {
        reachable: false,
        entry: CacheEntry::Valid { value: 5, expires_at: 1000 },
    };
    cache.set_with_ttl(9, 600, 0);
    assert_eq!(cache.entry, CacheEntry::Valid { value: 5, expires_at: 1000 });
    cache.invalidate();
    assert_eq!(cache.entry, CacheEntry::Valid { value: 5, expires_at: 1000 });
}
