use monty::store::{RollingStore, Sample, DEFAULT_RETENTION_MS};

#[test]
fn seed_store_contains_exactly_seed() {
    let store = RollingStore::new(1000, 42, "%".to_string(), 100);
    assert_eq!(store.len(), 1);
    assert_eq!(
        store.samples()[0],
        Sample {
            timestamp_ms: 1000,
            value: 42
        }
    );
    assert_eq!(store.unit(), "%");
    assert_eq!(store.ceiling(), 100);
    assert_eq!(store.retention_ms(), DEFAULT_RETENTION_MS);
}

#[test]
fn push_keeps_recent_samples_newest_first() {
    let mut store = RollingStore::new(0, 1, " W".to_string(), 80);
    store.push(1000, 2);
    store.push(2000, 3);
    assert_eq!(store.len(), 3);
    assert_eq!(store.samples()[0].value, 3);
    assert_eq!(store.samples()[1].value, 2);
    assert_eq!(store.samples()[2].value, 1);
}

#[test]
fn push_evicts_stale_samples() {
    let mut store = RollingStore::new(0, 10, " W".to_string(), 80);
    store.push(30_000, 20);
    store.push(70_000, 30);
    // 70_000 - 0 > 60_000, so the seed is evicted; 70_000 - 30_000 is within.
    assert_eq!(store.len(), 2);
    assert_eq!(store.samples()[0].timestamp_ms, 70_000);
    assert_eq!(store.samples()[1].timestamp_ms, 30_000);
}

#[test]
fn store_never_empties_below_one() {
    let mut store = RollingStore::new(0, 10, " W".to_string(), 80);
    store.push(1_000_000, 20);
    assert_eq!(store.len(), 1);
    assert_eq!(store.samples()[0].timestamp_ms, 1_000_000);
}

#[test]
fn monotonic_retention_bounds_count() {
    let mut store = RollingStore::new(0, 0, "%".to_string(), 100);
    for i in 1..=200i64 {
        store.push(i * 1000, i);
        assert!(store.len() <= 61);
    }
    assert_eq!(store.len(), 61);
}

#[test]
fn window_invariant_after_each_push() {
    let mut store = RollingStore::new(0, 0, "%".to_string(), 100);
    for i in 1..=100i64 {
        store.push(i * 700, i);
        let newest = store.samples()[0].timestamp_ms;
        for s in store.samples() {
            assert!(newest - s.timestamp_ms <= DEFAULT_RETENTION_MS);
        }
    }
}

#[test]
fn backwards_clock_does_not_evict() {
    let mut store = RollingStore::new(100_000, 1, "%".to_string(), 100);
    store.push(50, 2);
    // The newest sample lies behind the oldest; the negative difference never
    // exceeds the retention, so nothing is evicted.
    assert_eq!(store.len(), 2);
    assert_eq!(store.samples()[0].timestamp_ms, 50);
    assert_eq!(store.samples()[1].timestamp_ms, 100_000);
}

#[test]
fn custom_retention_is_honored() {
    let mut store = RollingStore::new_with_retention(0, 1, "x".to_string(), 1000, 10);
    store.push(500, 2);
    store.push(1600, 3);
    // 1600 - 0 > 1000 and 1600 - 500 > 1000: only the newest remains.
    assert_eq!(store.len(), 1);
    assert_eq!(store.samples()[0].value, 3);
}
