use sentinel::dedup::{DedupCache, DEDUP_CAPACITY};

#[test]
fn an_id_is_fresh_once() {
    let mut cache = DedupCache::new();
    assert!(!cache.contains(7));
    assert!(cache.first_sight(7));
    assert!(cache.contains(7));
    assert!(!cache.first_sight(7));
    assert!(cache.contains(7));
    assert!(cache.first_sight(8));
}

#[test]
fn default_capacity_is_one_thousand() {
    assert_eq!(DEDUP_CAPACITY, 1000);
    let mut cache = DedupCache::new();
    for id in 0..1000u128 {
        assert!(cache.first_sight(id));
    }
    // all thousand are remembered
    assert!(cache.contains(0));
    assert!(cache.contains(999));
    // one more pushes the oldest out, and only that one
    assert!(cache.first_sight(1000));
    assert!(!cache.contains(0));
    assert!(cache.contains(1));
    assert!(cache.contains(1000));
    // the forgotten id is new again
    assert!(cache.first_sight(0));
    assert!(!cache.contains(1));
}

#[test]
fn seeing_again_does_not_renew() {
    let mut cache = DedupCache::with_capacity(2);
    assert!(cache.first_sight(1));
    assert!(cache.first_sight(2));
    // 1 is seen again, but stays the oldest
    assert!(!cache.first_sight(1));
    assert!(cache.contains(1));
    assert!(cache.first_sight(3));
    assert!(!cache.contains(1));
    assert!(cache.contains(2));
    assert!(cache.contains(3));
}

#[test]
fn capacity_of_one_keeps_the_last() {
    let mut cache = DedupCache::with_capacity(1);
    assert!(cache.first_sight(u128::MAX));
    assert!(cache.first_sight(0));
    assert!(!cache.contains(u128::MAX));
    assert!(cache.contains(0));
}
