use beetle::collections::{BoundedHashMap, BoundedHashSet};

#[test]
fn bounded_map_stops_at_the_limit() {
    let mut m = BoundedHashMap::new(2);
    assert_eq!(m.try_insert(1, 10), None);
    assert_eq!(m.try_insert(2, 20), None);
    assert_eq!(m.try_insert(3, 30), Some((3, 30)));
    // a full map refuses even a key that it holds
    assert_eq!(m.try_insert(1, 11), Some((1, 11)));
    assert_eq!(m.len(), 2);
    assert_eq!(m.get(1), Some(10));
    assert_eq!(m.get(3), None);
}

#[test]
fn bounded_map_replaces_below_the_limit() {
    let mut m = BoundedHashMap::with_capacity(0, 3);
    m.insert(1, 10);
    m.insert(1, 11);
    assert_eq!(m.len(), 1);
    assert_eq!(m.get(1), Some(11));
}

#[test]
fn bounded_set_stops_at_the_limit() {
    let mut s = BoundedHashSet::new(3);
    assert_eq!(s.try_insert(5), None);
    assert_eq!(s.try_insert(5), None);
    assert_eq!(s.try_insert(6), None);
    s.insert(7);
    assert_eq!(s.try_insert(8), Some(8));
    assert_eq!(s.len(), 3);
    assert!(s.contains(7));
    assert!(!s.contains(8));
}

#[test]
fn bounded_collections_read_api() {
    let mut m = BoundedHashMap::new(2);
    assert!(m.is_empty());
    m.insert(4, 40);
    assert!(m.contains_key(4));
    assert!(!m.contains_key(5));
    assert!(!m.is_empty());
    let mut s = BoundedHashSet::new(2);
    assert!(s.is_empty());
    s.insert(9);
    assert!(!s.is_empty());
}
