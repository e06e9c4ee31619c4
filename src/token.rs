use vstd::prelude::*;

use crate::client::{bearer_of, pairs_view, sample_query_of, DirectoryRequest};
use crate::model::ApiError;

verus! {

/// The session: the token held in memory for the life of the process. Durable
/// storage lies outside it and is reached through the closures the operations take.
#[derive(Debug)]
pub struct AppState {
    pub token: Option<String>,
}

impl View for AppState {
    type V = Option<Seq<char>>;

    open spec fn view(&self) -> Option<Seq<char>> {
        self.token.deep_view()
    }
}

impl AppState {
    /// A session with no token.
    pub fn new() -> (r: AppState)
        ensures
            r@ is None,
    {
        AppState { token: None }
    }
}

impl Default for AppState {
    fn default() -> (r: AppState)
        ensures
            r@ is None,
    {
        AppState::new()
    }
}

/// The session after a token is saved: that token, whether or not it was also
/// written to durable storage.
pub open spec fn saved_session(token: Seq<char>) -> Option<Seq<char>> {
    Some(token)
}

/// The session after a clear: no token.
pub open spec fn cleared_session() -> Option<Seq<char>> {
    None
}

/// What [`token_status`] may report as `r`: true when the session holds a token,
/// else an answer of durable storage (`stored`).
pub open spec fn status_reported<F: FnOnce() -> bool>(
    session: Option<Seq<char>>,
    stored: F,
    r: bool,
) -> bool {
    &&& session is Some ==> r
    &&& session is None ==> stored.ensures((), r)
}

/// Whether a token is available: true when the session holds one, else whatever
/// durable storage answers (`stored` is asked only then).
pub fn token_status<F: FnOnce() -> bool>(state: &AppState, stored: F) -> (r: bool)
    requires
        state@ is None ==> stored.requires(()),
    ensures
        status_reported(state@, stored, r),
{
    if state.token.is_some() {
        return true;
    }
    stored()
}

/// Keeps `token` for the session and, when `persist` is set, also writes it to
/// durable storage through `store`. The session takes the token even when that
/// write fails; the failure is then reported as a storage error.
pub fn save_token<F: FnOnce(&String) -> Result<(), String>>(
    state: &mut AppState,
    token: String,
    persist: bool,
    store: F,
) -> (r: Result<(), ApiError>)
    requires
        persist ==> store.requires((&token,)),
    ensures
        final(state)@ == saved_session(token@),
        !persist ==> r is Ok,
        persist && r is Ok ==> store.ensures((&token,), Ok::<(), String>(())),
        r is Err ==> persist && exists|m: String|
            store.ensures((&token,), Err(m)) && r == Err::<(), ApiError>(ApiError::Storage(m)),
{
    if !persist {
        state.token = Some(token);
        return Ok(());
    }
    let written = store(&token);
    state.token = Some(token);
    match written {
        Ok(u) => Ok(u),
        Err(m) => Err(ApiError::Storage(m)),
    }
}

/// Forgets the token: asks durable storage to delete it through `delete` (always,
/// exactly once), ignoring any failure, then empties the session.
pub fn clear_token<F: FnOnce() -> Result<(), String>>(state: &mut AppState, delete: F)
    requires
        delete.requires(()),
    ensures
        final(state)@ == cleared_session(),
        exists|o: Result<(), String>| delete.ensures((), o),
{
    let _ = delete();
    state.token = None;
}

/// The token to use: the session's, else the one durable storage holds (`stored`
/// is asked only when the session has none).
pub fn get_token<F: FnOnce() -> Option<String>>(state: &AppState, stored: F) -> (r: Option<String>)
    requires
        state@ is None ==> stored.requires(()),
    ensures
        state@ is Some ==> r.deep_view() == state@,
        state@ is None ==> stored.ensures((), r),
{
    match &state.token {
        Some(t) => Some(t.clone()),
        None => stored(),
    }
}

/// The token to use, or [`ApiError::NoToken`] when neither the session nor durable
/// storage holds one.
pub fn require_token<F: FnOnce() -> Option<String>>(state: &AppState, stored: F) -> (r: Result<
    String,
    ApiError,
>)
    requires
        state@ is None ==> stored.requires(()),
    ensures
        state@ is Some ==> (r matches Ok(s) && s@ == state@->0),
        state@ is None ==> match r {
            Ok(s) => stored.ensures((), Some(s)),
            Err(e) => e is NoToken && stored.ensures((), None::<String>),
        },
{
    match get_token(state, stored) {
        Some(t) => Ok(t),
        None => Err(ApiError::NoToken),
    }
}

/// The probe that checks a token: a sample of one entry, authorized with the given
/// token, else with the one [`require_token`] finds.
pub fn test_token<F: FnOnce() -> Option<String>>(
    state: &AppState,
    token: Option<String>,
    stored: F,
) -> (r: Result<DirectoryRequest, ApiError>)
    requires
        token is None && state@ is None ==> stored.requires(()),
    ensures
        token is Some || state@ is Some ==> r is Ok,
        r matches Ok(req) ==> req.path@ == "instances/sample"@ && pairs_view(req.query@)
            == sample_query_of(1),
        token is Some ==> (r matches Ok(req) && req.authorization@ == bearer_of(token->0@)),
        token is None && state@ is Some ==> (r matches Ok(req) && req.authorization@ == bearer_of(
            state@->0,
        )),
        token is None && state@ is None ==> match r {
            Ok(req) => exists|s: String|
                stored.ensures((), Some(s)) && req.authorization@ == bearer_of(s@),
            Err(e) => e is NoToken && stored.ensures((), None::<String>),
        },
{
    let t = match token {
        Some(t) => t,
        None => match require_token(state, stored) {
            Ok(t) => t,
            Err(e) => return Err(e),
        },
    };
    Ok(DirectoryRequest::sample(t.as_str(), 1))
}

/// Right after a save, even one for the session alone, the status reports a token
/// whatever durable storage would answer, so storage is not consulted; right after
/// a clear the session is empty, so the status is durable storage's answer, false
/// when storage holds no token.
pub proof fn lemma_status_after_save_and_clear<F: FnOnce() -> bool>(
    t: Seq<char>,
    stored: F,
    r: bool,
)
    ensures
        status_reported(saved_session(t), stored, r) ==> r,
        (forall|b: bool| stored.ensures((), b) ==> !b) && status_reported(
            cleared_session(),
            stored,
            r,
        ) ==> !r,
{
}

} // verus!
