use pdf_gateway::cache::CacheAction;
use pdf_gateway::cache::ScopedToken;
use pdf_gateway::cache::SecretCache;
use pdf_gateway::cache::SecretError;

fn token(value: &str, issued_at: u64, expires_at: Option<u64>) -> ScopedToken {
    ScopedToken { value: value.to_string(), issued_at, expires_at }
}

#[test]
fn cold_cache_single_flight_under_racing_callers() {
    let mut cache = SecretCache::new();

    // The first of the racing callers begins the one fetch...
    assert_eq!(cache.poll(100, false), CacheAction::BeginFetch);

    // ...and every other racing caller awaits it, none starts a second.
    for now in [100, 101, 102, 150] {
        assert_eq!(cache.poll(now, false), CacheAction::AwaitFetch);
        assert_eq!(cache.poll(now, true), CacheAction::AwaitFetch);
    }

    // The fetch lands once; every caller then reads the same token.
    let fetched = token("par-token-1", 100, Some(700));
    let got = cache.complete_fetch(Ok(fetched)).unwrap();
    assert_eq!(got.value, "par-token-1");
    for _ in 0..4 {
        match cache.poll(150, false) {
            CacheAction::Reuse(t) => assert_eq!(t.value, "par-token-1"),
            other => panic!("expected the cached token, got {:?}", other),
        }
    }
}

#[test]
fn expired_token_is_never_returned() {
    let mut cache = SecretCache::new();
    assert_eq!(cache.poll(0, false), CacheAction::BeginFetch);
    cache.complete_fetch(Ok(token("short-lived", 0, Some(600)))).unwrap();

    // Within the validity window: reused without a fetch.
    match cache.poll(599, false) {
        CacheAction::Reuse(t) => assert_eq!(t.value, "short-lived"),
        other => panic!("expected the cached token, got {:?}", other),
    }

    // At and past the boundary: never returned, a fetch is triggered instead.
    assert_eq!(cache.poll(600, false), CacheAction::BeginFetch);
    assert_eq!(cache.poll(601, false), CacheAction::AwaitFetch);
}

#[test]
fn token_without_boundary_never_expires() {
    let mut cache = SecretCache::new();
    assert_eq!(cache.poll(0, false), CacheAction::BeginFetch);
    cache.complete_fetch(Ok(token("evergreen", 0, None))).unwrap();
    match cache.poll(u64::MAX, false) {
        CacheAction::Reuse(t) => assert_eq!(t.value, "evergreen"),
        other => panic!("expected the cached token, got {:?}", other),
    }
}

#[test]
fn force_refresh_bypasses_a_valid_token() {
    let mut cache = SecretCache::new();
    assert_eq!(cache.poll(0, false), CacheAction::BeginFetch);
    cache.complete_fetch(Ok(token("stale-suspect", 0, Some(1000)))).unwrap();
    assert_eq!(cache.poll(10, true), CacheAction::BeginFetch);
}

#[test]
fn failed_fetch_leaves_cache_unchanged() {
    let mut cache = SecretCache::new();
    assert_eq!(cache.poll(0, false), CacheAction::BeginFetch);
    cache.complete_fetch(Ok(token("original", 0, Some(1000)))).unwrap();

    // A forced refresh whose fetch fails: the error propagates and the
    // cached token is still the old one.
    assert_eq!(cache.poll(10, true), CacheAction::BeginFetch);
    let r = cache.complete_fetch(Err("endpoint unreachable".to_string()));
    assert_eq!(
        r,
        Err(SecretError::SecretUnavailable("endpoint unreachable".to_string()))
    );
    match cache.poll(20, false) {
        CacheAction::Reuse(t) => assert_eq!(t.value, "original"),
        other => panic!("expected the cached token, got {:?}", other),
    }
}

#[test]
fn successful_fetch_replaces_expired_token() {
    let mut cache = SecretCache::new();
    assert_eq!(cache.poll(0, false), CacheAction::BeginFetch);
    cache.complete_fetch(Ok(token("first", 0, Some(100)))).unwrap();
    assert_eq!(cache.poll(100, false), CacheAction::BeginFetch);
    cache.complete_fetch(Ok(token("second", 100, Some(900)))).unwrap();
    match cache.poll(101, false) {
        CacheAction::Reuse(t) => {
            assert_eq!(t.value, "second");
            assert_eq!(t.issued_at, 100);
        }
        other => panic!("expected the refreshed token, got {:?}", other),
    }
}
