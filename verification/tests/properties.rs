use ttl_store::{
    evict_key, get_key, insert_key, insert_with_expiry, read_at, write_with_ttl_at, Store,
};

#[test]
fn round_trip_returns_the_written_value() {
    let mut store = Store::new();
    insert_key(&mut store, "alpha".to_owned(), "one".to_owned());
    assert_eq!(get_key(&mut store, "alpha".to_owned()), Some("one".to_owned()));
    assert_eq!(read_at(&mut store, "alpha", 0), Some("one".to_owned()));
    assert_eq!(read_at(&mut store, "alpha", u64::MAX), Some("one".to_owned()));
}

#[test]
fn overwrite_indicator_reports_prior_value() {
    let mut store = Store::new();
    assert_eq!(insert_key(&mut store, "k".to_owned(), "v1".to_owned()), false);
    assert_eq!(insert_key(&mut store, "k".to_owned(), "v2".to_owned()), true);
    assert_eq!(get_key(&mut store, "k".to_owned()), Some("v2".to_owned()));
    assert_eq!(insert_with_expiry(&mut store, 10, "k".to_owned(), "v3".to_owned()), true);
    assert_eq!(insert_with_expiry(&mut store, 10, "fresh".to_owned(), "v".to_owned()), false);
}

#[test]
fn never_written_key_is_absent() {
    let mut store = Store::new();
    assert_eq!(get_key(&mut store, "missing".to_owned()), None);
    assert_eq!(read_at(&mut store, "missing", 123), None);
}

#[test]
fn evicted_key_is_absent() {
    let mut store = Store::new();
    insert_key(&mut store, "k".to_owned(), "v".to_owned());
    evict_key(&mut store, "k".to_owned());
    assert_eq!(get_key(&mut store, "k".to_owned()), None);
}

#[test]
fn ttl_boundary_with_a_simulated_clock() {
    let mut store = Store::new();
    let existed = write_with_ttl_at(&mut store, 4, "k".to_owned(), "v".to_owned(), 1_000);
    assert!(!existed);
    assert_eq!(read_at(&mut store, "k", 1_000), Some("v".to_owned()));
    assert_eq!(read_at(&mut store, "k", 2_000), Some("v".to_owned()));
    assert_eq!(read_at(&mut store, "k", 4_999), Some("v".to_owned()));
    assert_eq!(read_at(&mut store, "k", 5_000), None);
    assert_eq!(read_at(&mut store, "k", 0), None);
}

#[test]
fn disjoint_keys_read_back_their_own_values() {
    let mut store = Store::new();
    for i in 0..10 {
        let key = format!("key{}", i);
        let value = format!("value{}", i);
        insert_key(&mut store, key, value);
    }
    for i in 0..10 {
        let key = format!("key{}", i);
        let expected_value = format!("value{}", i);
        assert_eq!(get_key(&mut store, key), Some(expected_value));
    }
}

#[test]
fn evicting_a_nonexistent_key_is_a_no_op() {
    let mut store = Store::new();
    evict_key(&mut store, "absent".to_owned());
    insert_key(&mut store, "a".to_owned(), "1".to_owned());
    evict_key(&mut store, "b".to_owned());
    assert_eq!(get_key(&mut store, "a".to_owned()), Some("1".to_owned()));
}

#[test]
fn capacity_pre_sizing_does_not_change_behavior() {
    let mut plain = Store::new();
    let mut sized = Store::with_capacity(1024);
    assert_eq!(plain.capacity(), 0);
    assert_eq!(sized.capacity(), 1024);
    for (k, v) in [("a", "1"), ("b", "2"), ("c", "3")] {
        assert_eq!(
            insert_key(&mut plain, k.to_owned(), v.to_owned()),
            insert_key(&mut sized, k.to_owned(), v.to_owned()),
        );
    }
    evict_key(&mut plain, "b".to_owned());
    evict_key(&mut sized, "b".to_owned());
    for k in ["a", "b", "c", "d"] {
        assert_eq!(get_key(&mut plain, k.to_owned()), get_key(&mut sized, k.to_owned()));
    }
}

#[test]
fn plain_write_clears_a_prior_ttl() {
    let mut store = Store::new();
    write_with_ttl_at(&mut store, 1, "k".to_owned(), "stale".to_owned(), 0);
    insert_key(&mut store, "k".to_owned(), "fresh".to_owned());
    assert_eq!(read_at(&mut store, "k", u64::MAX), Some("fresh".to_owned()));
}

#[test]
fn a_huge_ttl_saturates_and_never_expires_early() {
    let mut store = Store::new();
    write_with_ttl_at(&mut store, u64::MAX, "k".to_owned(), "v".to_owned(), 5);
    assert_eq!(read_at(&mut store, "k", u64::MAX - 1), Some("v".to_owned()));
    assert_eq!(read_at(&mut store, "k", u64::MAX), None);
}

#[test]
fn ttl_write_overwrites_value_and_deadline() {
    let mut store = Store::new();
    write_with_ttl_at(&mut store, 1, "k".to_owned(), "v1".to_owned(), 0);
    let existed = write_with_ttl_at(&mut store, 10, "k".to_owned(), "v2".to_owned(), 500);
    assert!(existed);
    assert_eq!(read_at(&mut store, "k", 1_500), Some("v2".to_owned()));
    assert_eq!(read_at(&mut store, "k", 10_500), None);
}

#[test]
fn expired_entry_is_removed_lazily_on_read() {
    let mut store = Store::new();
    write_with_ttl_at(&mut store, 1, "k".to_owned(), "v".to_owned(), 0);
    assert_eq!(read_at(&mut store, "k", 1_000), None);
    assert_eq!(insert_key(&mut store, "k".to_owned(), "v2".to_owned()), false);
}
