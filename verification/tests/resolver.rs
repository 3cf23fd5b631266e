use geocache::coordinate::Coordinate;
use geocache::resolver::{
    resolve, resolve_step, Event, GeoResponse, ProviderOutcome, ResolveError, ResolveState,
};
use geocache::store::MemoryStore;

fn coord(latitude: f64, longitude: f64) -> Coordinate {
    Coordinate { latitude_bits: latitude.to_bits(), longitude_bits: longitude.to_bits() }
}

#[test]
fn cache_hit_returns_stored_coordinate() {
    let mut store = MemoryStore::new();
    let paris = coord(48.8566, 2.3522);
    store.put("Paris", paris).unwrap();

    // The provider is down, yet a cached city resolves: the hit path
    // never consults the provider.
    for _ in 0..3 {
        let r = resolve(&mut store, "Paris", ProviderOutcome::Unavailable);
        assert_eq!(r.outcome, Ok(paris));
        assert!(!r.provider_consulted);
    }
}

#[test]
fn miss_then_populate() {
    let mut store = MemoryStore::new();
    let paris = coord(48.8566, 2.3522);
    let reply = ProviderOutcome::Results(GeoResponse { results: vec![paris] });

    let r = resolve(&mut store, "Paris", reply);
    assert_eq!(r.outcome, Ok(paris));
    assert!(r.provider_consulted);
    assert_eq!(store.get("Paris"), Some(paris));
}

#[test]
fn empty_results_leaves_store_untouched() {
    let mut store = MemoryStore::new();
    let reply = ProviderOutcome::Results(GeoResponse { results: vec![] });

    let r = resolve(&mut store, "Nowhereville", reply);
    assert_eq!(r.outcome, Err(ResolveError::NotFound));
    assert!(r.provider_consulted);
    assert_eq!(store.get("Nowhereville"), None);
}

#[test]
fn provider_failure_propagates_and_writes_nothing() {
    let mut store = MemoryStore::new();
    let r = resolve(&mut store, "Paris", ProviderOutcome::Unavailable);
    assert_eq!(r.outcome, Err(ResolveError::ProviderUnavailable));
    assert!(r.provider_consulted);
    assert_eq!(store.get("Paris"), None);
}

#[test]
fn store_failure_fails_closed() {
    // A failed lookup ends the resolution at once; the provider is
    // never reached.
    let next = resolve_step(ResolveState::QueryingStore, Event::StoreFailed);
    assert!(matches!(next, ResolveState::Done(Err(ResolveError::StoreUnavailable))));
}

#[test]
fn write_failure_still_resolves() {
    let c = coord(1.0, 2.0);
    let s1 = resolve_step(ResolveState::QueryingStore, Event::StoreMiss);
    assert!(matches!(s1, ResolveState::QueryingProvider));
    let s2 = resolve_step(s1, Event::ProviderResults(vec![c]));
    assert!(matches!(s2, ResolveState::Inserting(got) if got == c));
    let s3 = resolve_step(s2, Event::InsertFailed);
    assert!(matches!(s3, ResolveState::Done(Ok(got)) if got == c));
}

#[test]
fn persistent_write_failure_never_poisons() {
    let c = coord(1.0, 2.0);
    // Every insert for "X" fails; each request still performs a fresh
    // provider lookup and still succeeds.
    for _ in 0..3 {
        let s1 = resolve_step(ResolveState::QueryingStore, Event::StoreMiss);
        let s2 = resolve_step(s1, Event::ProviderResults(vec![c]));
        let s3 = resolve_step(s2, Event::InsertFailed);
        assert!(matches!(s3, ResolveState::Done(Ok(got)) if got == c));
    }
}

#[test]
fn race_two_concurrent_misses() {
    // Two resolutions of the same unseen city, interleaved: both
    // observe a miss before either inserts. The chosen policy: the
    // store's uniqueness constraint rejects the second insert, and the
    // losing resolution swallows the failure and still succeeds.
    let mut store = MemoryStore::new();
    let c = coord(10.0, 20.0);

    let a_miss = store.get("NewCity").is_none();
    let b_miss = store.get("NewCity").is_none();
    assert!(a_miss && b_miss);

    let a2 = resolve_step(
        resolve_step(ResolveState::QueryingStore, Event::StoreMiss),
        Event::ProviderResults(vec![c]),
    );
    let b2 = resolve_step(
        resolve_step(ResolveState::QueryingStore, Event::StoreMiss),
        Event::ProviderResults(vec![c]),
    );
    assert!(matches!(a2, ResolveState::Inserting(got) if got == c));
    assert!(matches!(b2, ResolveState::Inserting(got) if got == c));

    let a_insert = store.put("NewCity", c);
    assert!(a_insert.is_ok());
    let b_insert = store.put("NewCity", c);
    assert!(b_insert.is_err());

    let a3 = resolve_step(a2, Event::InsertOk);
    let b3 = resolve_step(b2, Event::InsertFailed);
    assert!(matches!(a3, ResolveState::Done(Ok(got)) if got == c));
    assert!(matches!(b3, ResolveState::Done(Ok(got)) if got == c));

    // One record was persisted for the city.
    assert_eq!(store.list_recent(10), vec!["NewCity".to_string()]);
}

#[test]
fn first_candidate_selects_provider_ranked_head() {
    let c1 = coord(1.0, 1.0);
    let c2 = coord(2.0, 2.0);
    let geo = GeoResponse { results: vec![c1, c2] };
    assert_eq!(geo.first_candidate(), Ok(c1));

    let empty = GeoResponse { results: vec![] };
    assert_eq!(empty.first_candidate(), Err(ResolveError::NotFound));
}

#[test]
fn mismatched_event_changes_nothing() {
    let next = resolve_step(ResolveState::QueryingStore, Event::InsertOk);
    assert!(matches!(next, ResolveState::QueryingStore));
}
