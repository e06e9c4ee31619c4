use std::cell::Cell;

use instances_finder::{
    clear_token, get_token, require_token, save_token, test_token, token_status, ApiError,
    AppState,
};

#[test]
fn session_token_is_reported_without_asking_storage() {
    let mut state = AppState::new();
    assert_eq!(save_token(&mut state, "secret".to_string(), false, |_| panic!("not asked")), Ok(()));
    let asked = Cell::new(false);
    assert!(token_status(&state, || {
        asked.set(true);
        false
    }));
    assert!(!asked.get());
}

#[test]
fn status_after_clear_follows_storage() {
    let mut state = AppState::new();
    save_token(&mut state, "secret".to_string(), false, |_| Ok(())).unwrap();
    clear_token(&mut state, || Ok(()));
    assert!(!token_status(&state, || false));
    assert!(token_status(&state, || true));
}

#[test]
fn clear_ignores_storage_failure() {
    let mut state = AppState::new();
    save_token(&mut state, "secret".to_string(), false, |_| Ok(())).unwrap();
    clear_token(&mut state, || Err("locked".to_string()));
    assert!(state.token.is_none());
}

#[test]
fn persisted_save_writes_the_token() {
    let mut state = AppState::default();
    let written = Cell::new(false);
    let r = save_token(&mut state, "abc".to_string(), true, |t| {
        assert_eq!(t, "abc");
        written.set(true);
        Ok(())
    });
    assert_eq!(r, Ok(()));
    assert!(written.get());
    assert_eq!(state.token.as_deref(), Some("abc"));
}

#[test]
fn failed_persist_is_a_storage_error_but_session_is_set() {
    let mut state = AppState::new();
    let r = save_token(&mut state, "abc".to_string(), true, |_| Err("vault closed".to_string()));
    assert_eq!(r, Err(ApiError::Storage("vault closed".to_string())));
    assert_eq!(state.token.as_deref(), Some("abc"));
}

#[test]
fn token_resolution_prefers_the_session() {
    let mut state = AppState::new();
    assert_eq!(get_token(&state, || Some("stored".to_string())).as_deref(), Some("stored"));
    assert_eq!(get_token(&state, || None), None);
    save_token(&mut state, "session".to_string(), false, |_| Ok(())).unwrap();
    assert_eq!(get_token(&state, || panic!("not asked")).as_deref(), Some("session"));
}

#[test]
fn missing_token_is_an_error() {
    let state = AppState::new();
    assert_eq!(require_token(&state, || None), Err(ApiError::NoToken));
    assert_eq!(test_token(&state, None, || None), Err(ApiError::NoToken));
}

#[test]
fn probe_uses_the_given_token_first() {
    let mut state = AppState::new();
    save_token(&mut state, "session".to_string(), false, |_| Ok(())).unwrap();
    let req = test_token(&state, Some("given".to_string()), || None).unwrap();
    assert_eq!(req.authorization, "Bearer given");
    assert_eq!(req.path, "instances/sample");
    assert_eq!(req.query, vec![("count".to_string(), "1".to_string())]);
    let req = test_token(&state, None, || None).unwrap();
    assert_eq!(req.authorization, "Bearer session");
    let empty = AppState::new();
    let req = test_token(&empty, None, || Some("stored".to_string())).unwrap();
    assert_eq!(req.authorization, "Bearer stored");
}

#[test]
fn clear_always_asks_storage_to_delete() {
    let mut state = AppState::new();
    let deletes = Cell::new(0);
    clear_token(&mut state, || {
        deletes.set(deletes.get() + 1);
        Ok(())
    });
    clear_token(&mut state, || {
        deletes.set(deletes.get() + 1);
        Err("no credential".to_string())
    });
    assert_eq!(deletes.get(), 2);
    assert!(state.token.is_none());
    assert!(!token_status(&state, || false));
}
