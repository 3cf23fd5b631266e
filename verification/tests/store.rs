use geocache::coordinate::Coordinate;
use geocache::store::{MemoryStore, StoreError};

fn coord(latitude: f64, longitude: f64) -> Coordinate {
    Coordinate { latitude_bits: latitude.to_bits(), longitude_bits: longitude.to_bits() }
}

#[test]
fn get_on_empty_store_is_none() {
    let store = MemoryStore::new();
    assert_eq!(store.get("Paris"), None);
}

#[test]
fn get_is_exact_match() {
    let mut store = MemoryStore::new();
    let c = coord(48.8566, 2.3522);
    store.put("Paris", c).unwrap();
    assert_eq!(store.get("Paris"), Some(c));
    // No normalization: case and whitespace matter.
    assert_eq!(store.get("paris"), None);
    assert_eq!(store.get(" Paris"), None);
    assert_eq!(store.get("Pari"), None);
}

#[test]
fn put_duplicate_name_is_rejected() {
    let mut store = MemoryStore::new();
    let c1 = coord(1.0, 2.0);
    let c2 = coord(3.0, 4.0);
    assert!(store.put("X", c1).is_ok());
    assert_eq!(store.put("X", c2), Err(StoreError::DuplicateName));
    // The first record stands untouched.
    assert_eq!(store.get("X"), Some(c1));
}

#[test]
fn recency_ordering() {
    let mut store = MemoryStore::new();
    store.put("A", coord(1.0, 1.0)).unwrap();
    store.put("B", coord(2.0, 2.0)).unwrap();
    store.put("C", coord(3.0, 3.0)).unwrap();
    assert_eq!(store.list_recent(2), vec!["C".to_string(), "B".to_string()]);
}

#[test]
fn list_recent_with_generous_limit_lists_all() {
    let mut store = MemoryStore::new();
    store.put("A", coord(1.0, 1.0)).unwrap();
    store.put("B", coord(2.0, 2.0)).unwrap();
    assert_eq!(store.list_recent(10), vec!["B".to_string(), "A".to_string()]);
}

#[test]
fn list_recent_zero_is_empty() {
    let mut store = MemoryStore::new();
    store.put("A", coord(1.0, 1.0)).unwrap();
    assert_eq!(store.list_recent(0), Vec::<String>::new());
}
