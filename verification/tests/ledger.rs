use ping_visits::cache::{CacheAccessor, CacheEntry};
use ping_visits::ledger::{VisitLedger, CACHE_TTL_SECONDS};
use ping_visits::store::{DurableStore, LedgerError};

fn store_with_events(n: usize) -> DurableStore {
    let mut events = Vec::new();
    for i in 0..n {
        events.push(format!("10.0.0.{}", i));
    }
    DurableStore { available: true, events }
}

#[test]
fn seven_visits_then_count_and_recount() {
    let mut ledger = VisitLedger::new(DurableStore::new(), CacheAccessor::new());
    for _ in 0..7 {
        assert_eq!(ledger.record_visit("1.2.3.4".to_owned()), Ok(()));
    }
    assert_eq!(ledger.get_visit_count(0), Ok(7));
    ledger.cache.invalidate();
    assert_eq!(ledger.get_visit_count(1), Ok(7));
}

#[test]
fn count_read_survives_unreachable_cache() {
    let mut cache = CacheAccessor::new();
    cache.set_with_ttl(42, 600, 0);
    cache.reachable = false;
    let mut ledger = VisitLedger::new(store_with_events(3), cache);
    assert_eq!(ledger.get_visit_count(10), Ok(3));
}

#[test]
fn write_then_invalidate_makes_next_read_fresh() {
    let cache = CacheAccessor {
        reachable: true,
        entry: CacheEntry::Valid { value: 2, expires_at: u64::MAX },
    };
    let mut ledger = VisitLedger::new(store_with_events(2), cache);
    assert_eq!(ledger.record_visit("1.2.3.4".to_owned()), Ok(()));
    assert_eq!(ledger.get_visit_count(0), Ok(3));
}

#[test]
fn failed_record_surfaces_and_leaves_cache_alone() {
    let cache = CacheAccessor {
        reachable: true,
        entry: CacheEntry::Valid { value: 5, expires_at: 100 },
    };
    let mut ledger = VisitLedger::new(
        DurableStore { available: false, events: Vec::new() },
        cache,
    );
    assert_eq!(
        ledger.record_visit("1.2.3.4".to_owned()),
        Err(LedgerError::StoreUnavailable)
    );
    assert_eq!(ledger.cache.entry, CacheEntry::Valid { value: 5, expires_at: 100 });
}

#[test]
fn missed_read_fails_when_store_unavailable() {
    let mut ledger = VisitLedger::new(
        DurableStore { available: false, events: Vec::new() },
        CacheAccessor::new(),
    );
    assert_eq!(ledger.get_visit_count(0), Err(LedgerError::StoreUnavailable));
}

#[test]
fn cache_hit_answers_without_the_store() {
    let cache = CacheAccessor {
        reachable: true,
        entry: CacheEntry::Valid { value: 9, expires_at: 1000 },
    };
    let mut ledger = VisitLedger::new(
        DurableStore { available: false, events: Vec::new() },
        cache,
    );
    assert_eq!(ledger.get_visit_count(0), Ok(9));
}

#[test]
fn repeated_reads_never_go_backwards() {
    let mut ledger = VisitLedger::new(store_with_events(5), CacheAccessor::new());
    let first = ledger.get_visit_count(0).unwrap();
    let second = ledger.get_visit_count(10).unwrap();
    assert_eq!(first, 5);
    assert!(second >= first);
    assert_eq!(ledger.record_visit("1.2.3.4".to_owned()), Ok(()));
    let third = ledger.get_visit_count(20).unwrap();
    assert_eq!(third, 6);
    assert!(third >= second);
}

#[test]
fn missed_read_populates_cache_with_fixed_ttl() {
    let mut ledger = VisitLedger::new(store_with_events(4), CacheAccessor::new());
    assert_eq!(ledger.get_visit_count(100), Ok(4));
    assert_eq!(
        ledger.cache.entry,
        CacheEntry::Valid { value: 4, expires_at: 100 + CACHE_TTL_SECONDS }
    );
}

#[test]
fn populate_after_miss_is_best_effort() {
    let cache = CacheAccessor { reachable: false, entry: CacheEntry::Absent };
    let mut ledger = VisitLedger::new(store_with_events(4), cache);
    assert_eq!(ledger.get_visit_count(0), Ok(4));
    assert_eq!(ledger.cache.entry, CacheEntry::Absent);
}
