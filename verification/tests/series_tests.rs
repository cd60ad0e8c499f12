use hwdash::series::TimeSeries;
use hwdash::store::{SeriesStore, StoreError};

#[test]
fn fifo_eviction_example() {
    // capacity 3; recording 1, 2, 3, 4 leaves [2, 3, 4]
    let mut s = TimeSeries::new("demo".to_string(), 3);
    s.record(1);
    s.record(2);
    s.record(3);
    s.record(4);
    assert_eq!(s.read(), vec![2, 3, 4]);
    assert_eq!(s.len(), 3);
}

#[test]
fn new_series_is_empty() {
    let mut s = TimeSeries::new("fresh".to_string(), 3);
    assert_eq!(s.len(), 0);
    assert_eq!(s.read(), Vec::<u64>::new());
    assert_eq!(s.capacity(), 3);
    assert_eq!(s.name(), "fresh");
}

#[test]
fn length_never_exceeds_capacity() {
    let mut s = TimeSeries::new("demo".to_string(), 4);
    for v in 0..100u64 {
        s.record(v);
        assert!(s.len() <= 4);
    }
    assert_eq!(s.read(), vec![96, 97, 98, 99]);
}

#[test]
fn capacity_one_keeps_only_latest() {
    let mut s = TimeSeries::new("one".to_string(), 1);
    s.record(7);
    s.record(8);
    s.record(9);
    assert_eq!(s.read(), vec![9]);
}

#[test]
fn read_is_a_view_not_a_mutation() {
    let mut s = TimeSeries::new("demo".to_string(), 5);
    s.record(10);
    s.record(20);
    assert_eq!(s.read(), vec![10, 20]);
    assert_eq!(s.read(), vec![10, 20]);
    s.record(30);
    assert_eq!(s.read(), vec![10, 20, 30]);
}

#[test]
fn insertion_order_is_preserved() {
    let mut s = TimeSeries::new("demo".to_string(), 8);
    let values = [5u64, 1, 4, 2, 3];
    for v in values {
        s.record(v);
    }
    assert_eq!(s.read(), vec![5, 1, 4, 2, 3]);
}

#[test]
fn record_on_unknown_series_is_an_error() {
    let mut store = SeriesStore::new();
    let name = "never_created".to_string();
    assert_eq!(store.record(&name, 1), Err(StoreError::UnknownSeries));
    assert_eq!(store.read(&name), None);
}

#[test]
fn ensure_series_is_idempotent_and_keeps_capacity() {
    let mut store = SeriesStore::new();
    let name = "metric".to_string();
    assert!(store.ensure_series(name.clone(), 2));
    // a second creation attempt changes nothing, even with another capacity
    assert!(!store.ensure_series(name.clone(), 50));
    assert_eq!(store.count(), 1);
    for v in [1u64, 2, 3, 4] {
        store.record(&name, v).unwrap();
    }
    // eviction still follows the original capacity of 2
    assert_eq!(store.read(&name), Some(vec![3, 4]));
}

#[test]
fn record_targets_only_the_named_series() {
    let mut store = SeriesStore::new();
    let a = "alpha".to_string();
    let b = "beta".to_string();
    store.ensure_series(a.clone(), 3);
    store.ensure_series(b.clone(), 3);
    store.record(&a, 11).unwrap();
    store.record(&a, 12).unwrap();
    store.record(&b, 99).unwrap();
    assert_eq!(store.read(&a), Some(vec![11, 12]));
    assert_eq!(store.read(&b), Some(vec![99]));
}
