use instances_finder::{
    cache_enabled, check_status, complete_fetch, fetch_instances, is_fresh, list_query,
    sample_query, ApiError, CacheSnapshot, DirectoryRequest, FetchParams, FetchStep, Instance,
    JsInstance,
};

const NOW: u64 = 1_700_000_000;

fn shown(domain: &str) -> JsInstance {
    JsInstance {
        domain: domain.to_string(),
        description: String::new(),
        languages: vec!["en".to_string()],
        signups: "open".to_string(),
        size: 1,
        size_label: "Small".to_string(),
        region: "other".to_string(),
        availability_permille: 999,
    }
}

fn params(language: Option<&str>) -> FetchParams {
    let mut p = FetchParams::unfiltered();
    p.language = language.map(|l| l.to_string());
    p
}

fn snapshot(saved_at: u64, p: &FetchParams) -> CacheSnapshot {
    CacheSnapshot { saved_at, params: p.clone(), items: vec![shown("cached.example")] }
}

fn pairs(q: &[(String, String)]) -> Vec<(&str, &str)> {
    q.iter().map(|(k, v)| (k.as_str(), v.as_str())).collect()
}

#[test]
fn fresh_snapshot_is_reused() {
    let p = params(Some("en"));
    let s = snapshot(NOW - (23 * 3600 + 59 * 60), &p);
    match fetch_instances(&p, None, false, Some(s), NOW) {
        FetchStep::Cached(items) => assert_eq!(items, vec![shown("cached.example")]),
        other => panic!("expected the snapshot, got {:?}", other),
    }
}

#[test]
fn stale_snapshot_is_fetched_again() {
    let p = params(Some("en"));
    let s = snapshot(NOW - (24 * 3600 + 60), &p);
    match fetch_instances(&p, None, false, Some(s), NOW) {
        FetchStep::Fetch { store, .. } => assert!(store),
        other => panic!("expected a fetch, got {:?}", other),
    }
}

#[test]
fn snapshot_exactly_a_day_old_is_stale() {
    let p = params(None);
    assert!(!is_fresh(&snapshot(NOW - 24 * 3600, &p), &p, NOW));
    assert!(is_fresh(&snapshot(NOW - 24 * 3600 + 1, &p), &p, NOW));
    assert!(is_fresh(&snapshot(NOW + 10, &p), &p, NOW));
}

#[test]
fn changed_language_forces_fetch() {
    let before = params(Some("en"));
    let after = params(Some("fr"));
    let s = snapshot(NOW - 60, &before);
    assert!(!is_fresh(&s, &after, NOW));
    assert!(matches!(
        fetch_instances(&after, None, false, Some(s), NOW),
        FetchStep::Fetch { store: true, .. }
    ));
}

#[test]
fn any_changed_field_forces_fetch() {
    let before = params(None);
    let mut after = params(None);
    after.max = Some(10);
    assert!(!is_fresh(&snapshot(NOW - 60, &before), &after, NOW));
    let mut other = params(None);
    other.include_down = Some(false);
    assert!(!is_fresh(&snapshot(NOW - 60, &before), &other, NOW));
}

#[test]
fn bypass_forces_fetch_and_still_stores() {
    let p = params(None);
    let s = snapshot(NOW - 60, &p);
    assert!(matches!(
        fetch_instances(&p, Some(true), false, Some(s.clone()), NOW),
        FetchStep::Fetch { store: true, .. }
    ));
    assert!(matches!(
        fetch_instances(&p, Some(true), true, Some(s), NOW),
        FetchStep::Fetch { store: false, .. }
    ));
    assert!(!cache_enabled(Some(true), false));
    assert!(cache_enabled(Some(false), false));
    assert!(cache_enabled(None, false));
}

#[test]
fn debug_build_disables_cache() {
    let p = params(None);
    let s = snapshot(NOW - 60, &p);
    assert!(matches!(
        fetch_instances(&p, None, true, Some(s), NOW),
        FetchStep::Fetch { store: false, .. }
    ));
}

#[test]
fn missing_snapshot_fetches_with_default_count() {
    let p = params(None);
    match fetch_instances(&p, None, false, None, NOW) {
        FetchStep::Fetch { query, store } => {
            assert!(store);
            assert_eq!(pairs(&query), vec![("count", "200")]);
        }
        other => panic!("expected a fetch, got {:?}", other),
    }
}

#[test]
fn completed_fetch_stamps_a_fresh_snapshot() {
    let p = params(None);
    let entries = vec![Instance {
        name: "new.example".to_string(),
        up: true,
        users: "12".to_string(),
        open_registrations: true,
        info: None,
    }];
    let done = complete_fetch(p.clone(), &entries, true, NOW);
    assert_eq!(done.items.len(), 1);
    assert_eq!(done.items[0].domain, "new.example");
    let s = done.snapshot.expect("a snapshot to write");
    assert_eq!(s.saved_at, NOW);
    assert!(s.params == p);
    assert_eq!(s.items, done.items);
    assert!(matches!(
        fetch_instances(&p, None, false, Some(s), NOW + 3600),
        FetchStep::Cached(_)
    ));
    let plain = complete_fetch(p, &entries, false, NOW);
    assert!(plain.snapshot.is_none());
    assert_eq!(plain.items.len(), 1);
}

#[test]
fn list_query_sends_only_what_the_remote_understands() {
    let mut p = FetchParams::unfiltered();
    p.include_down = Some(true);
    p.include_closed = Some(false);
    p.language = Some("fr".to_string());
    p.max = Some(12345);
    p.signups = Some("open".to_string());
    p.region = Some("eu".to_string());
    p.size = Some("small".to_string());
    let q = list_query(&p, 12345);
    assert_eq!(
        pairs(&q),
        vec![("count", "12345"), ("include_down", "true"), ("include_closed", "false"), ("language", "fr")]
    );
}

#[test]
fn blank_language_is_not_sent() {
    let mut p = FetchParams::unfiltered();
    p.language = Some("  \t".to_string());
    assert_eq!(pairs(&list_query(&p, 0)), vec![("count", "0")]);
    p.language = Some(String::new());
    assert_eq!(pairs(&list_query(&p, 7)), vec![("count", "7")]);
}

#[test]
fn sample_query_counts_only_when_positive() {
    assert_eq!(pairs(&sample_query(1)), vec![("count", "1")]);
    assert!(sample_query(0).is_empty());
    assert_eq!(pairs(&sample_query(u64::MAX)), vec![("count", "18446744073709551615")]);
}

#[test]
fn requests_carry_a_bearer_header() {
    let r = DirectoryRequest::sample("abc", 1);
    assert_eq!(r.path, "instances/sample");
    assert_eq!(r.authorization, "Bearer abc");
    let l = DirectoryRequest::list("t0k", list_query(&FetchParams::unfiltered(), 500));
    assert_eq!(l.path, "instances/list");
    assert_eq!(l.authorization, "Bearer t0k");
    assert_eq!(pairs(&l.query), vec![("count", "500")]);
}

#[test]
fn status_check() {
    assert_eq!(check_status(200, "ok".to_string()), Ok(()));
    assert_eq!(check_status(299, String::new()), Ok(()));
    assert_eq!(
        check_status(401, "denied".to_string()),
        Err(ApiError::Remote { status: 401, body: "denied".to_string() })
    );
    assert!(check_status(300, String::new()).is_err());
    assert!(check_status(199, String::new()).is_err());
}

#[test]
fn params_equality_is_structural() {
    let a = params(Some("en"));
    let b = a.duplicate();
    assert!(a == b);
    let mut c = a.clone();
    c.region = Some("eu".to_string());
    assert!(a != c);
}
