use vstd::prelude::*;

use crate::classify::{entries_view, transform_all, transformed_all};
use crate::client::{list_query, list_query_of, pairs_view, DEFAULT_COUNT};
use crate::model::{
    copy_texts, items_view, CacheSnapshot, CacheSnapshotView, FetchParams, FetchParamsView,
    Instance, JsInstance,
};

verus! {

/// How long a snapshot may be reused, in seconds.
pub const CACHE_TTL_SECS: u64 = 24 * 3600;

/// Whether a stored snapshot may answer a fetch: not when the caller asks to
/// bypass it, nor in a development build.
pub open spec fn cache_enabled_of(bypass_cache: Option<bool>, debug_build: bool) -> bool {
    bypass_cache != Some(true) && !debug_build
}

/// Whether a fetch from the remote is written back as the new snapshot: always but
/// in a development build, a bypassed fetch included.
pub open spec fn writes_back_of(debug_build: bool) -> bool {
    !debug_build
}

pub fn cache_enabled(bypass_cache: Option<bool>, debug_build: bool) -> (r: bool)
    ensures
        r == cache_enabled_of(bypass_cache, debug_build),
{
    let bypass = match bypass_cache {
        Some(b) => b,
        None => false,
    };
    !bypass && !debug_build
}

/// A snapshot answers a request at time `now` when it was made for the very same
/// request less than a day before (or stamped later than `now`).
pub open spec fn fresh_for(s: CacheSnapshotView, p: FetchParamsView, now: u64) -> bool {
    s.params == p && (now as int) - (s.saved_at as int) < CACHE_TTL_SECS
}

pub fn is_fresh(snapshot: &CacheSnapshot, params: &FetchParams, now: u64) -> (r: bool)
    ensures
        r == fresh_for(snapshot@, params@, now),
{
    snapshot.params == *params && (now < snapshot.saved_at || now - snapshot.saved_at
        < CACHE_TTL_SECS)
}

pub open spec fn snapshot_view(o: Option<CacheSnapshot>) -> Option<CacheSnapshotView> {
    match o {
        Some(s) => Some(s@),
        None => None,
    }
}

/// Whether a fetch is answered from the stored snapshot.
pub open spec fn reuses(
    p: FetchParamsView,
    enabled: bool,
    stored: Option<CacheSnapshotView>,
    now: u64,
) -> bool {
    &&& enabled
    &&& stored matches Some(s)
    &&& fresh_for(s, p, now)
}

/// The number of entries a request asks the remote for.
pub open spec fn count_of(p: FetchParamsView) -> u64 {
    match p.max {
        Some(m) => m as u64,
        None => DEFAULT_COUNT,
    }
}

/// The first decision of a fetch.
#[derive(Debug)]
pub enum FetchStep {
    /// The stored snapshot answers: these are its items, and nothing is sent.
    Cached(Vec<JsInstance>),
    /// The remote must be asked, with this query; `store` tells whether the result
    /// is then written back as the new snapshot.
    Fetch { query: Vec<(String, String)>, store: bool },
}

/// Decides how a request for instances is answered: from the stored snapshot when
/// the cache is in use and the snapshot is fresh for this very request, else by a
/// listing of the remote, whose result is written back unless this is a
/// development build.
pub fn fetch_instances(
    params: &FetchParams,
    bypass_cache: Option<bool>,
    debug_build: bool,
    stored: Option<CacheSnapshot>,
    now: u64,
) -> (r: FetchStep)
    ensures
        ({
            let enabled = cache_enabled_of(bypass_cache, debug_build);
            match r {
                FetchStep::Cached(items) => reuses(params@, enabled, snapshot_view(stored), now)
                    && items_view(items@) == stored->0@.items,
                FetchStep::Fetch { query, store } => !reuses(
                    params@,
                    enabled,
                    snapshot_view(stored),
                    now,
                ) && pairs_view(query@) == list_query_of(params@, count_of(params@)) && store
                    == writes_back_of(debug_build),
            }
        }),
{
    let enabled = cache_enabled(bypass_cache, debug_build);
    if enabled {
        if let Some(snapshot) = stored {
            if is_fresh(&snapshot, params, now) {
                return FetchStep::Cached(snapshot.items);
            }
        }
    }
    let count: u64 = match params.max {
        Some(m) => m as u64,
        None => DEFAULT_COUNT,
    };
    FetchStep::Fetch { query: list_query(params, count), store: !debug_build }
}

fn copy_item(j: &JsInstance) -> (r: JsInstance)
    ensures
        r@ == j@,
{
    JsInstance {
        domain: j.domain.clone(),
        description: j.description.clone(),
        languages: copy_texts(&j.languages),
        signups: j.signups.clone(),
        size: j.size,
        size_label: j.size_label.clone(),
        region: j.region.clone(),
        availability_permille: j.availability_permille,
    }
}

/// A copy of a list of shown entries.
pub fn copy_items(v: &Vec<JsInstance>) -> (r: Vec<JsInstance>)
    ensures
        items_view(r@) == items_view(v@),
{
    let mut r: Vec<JsInstance> = Vec::new();
    let mut i: usize = 0;
    while i < v.len()
        invariant
            i <= v.len(),
            items_view(r@) == items_view(v@).take(i as int),
        decreases v.len() - i,
    {
        let ghost before = r@;
        let c = copy_item(&v[i]);
        r.push(c);
        assert(items_view(r@) =~= items_view(before).push(c@));
        assert(items_view(r@) =~= items_view(v@).take(i + 1));
        i = i + 1;
    }
    assert(items_view(v@).take(v.len() as int) =~= items_view(v@));
    r
}

/// The outcome of a listing: the entries to show, and the snapshot to write back
/// when the cache is in use.
#[derive(Debug)]
pub struct Fetched {
    pub items: Vec<JsInstance>,
    pub snapshot: Option<CacheSnapshot>,
}

/// Completes a fetch with the entries the remote listed: transforms and filters
/// them, and, when `store` is set, stamps a snapshot of the result with `now`.
pub fn complete_fetch(params: FetchParams, entries: &Vec<Instance>, store: bool, now: u64) -> (r:
    Fetched)
    ensures
        items_view(r.items@) == transformed_all(entries_view(entries@), params@),
        store <==> r.snapshot is Some,
        r.snapshot matches Some(s) ==> s@ == (CacheSnapshotView {
            saved_at: now,
            params: params@,
            items: items_view(r.items@),
        }),
{
    let items = transform_all(entries, &params);
    if store {
        let kept = copy_items(&items);
        Fetched { items, snapshot: Some(CacheSnapshot { saved_at: now, params, items: kept }) }
    } else {
        Fetched { items, snapshot: None }
    }
}

/// Reuse within a day: a snapshot for the same request saved 23h59m before `now`
/// answers the fetch, so the remote is not asked; one saved 24h01m before does not.
pub proof fn lemma_reuse_within_a_day(s: CacheSnapshotView, p: FetchParamsView, now: u64)
    requires
        s.params == p,
        now >= 24 * 3600 + 60,
    ensures
        s.saved_at == now - (24 * 3600 - 60) ==> reuses(p, true, Some(s), now),
        s.saved_at == now - (24 * 3600 + 60) ==> !reuses(p, true, Some(s), now),
{
}

/// Reuse needs the very same request: a snapshot made for another language (or any
/// other differing field) never answers, however recent.
pub proof fn lemma_reuse_needs_equal_params(
    s: CacheSnapshotView,
    p: FetchParamsView,
    enabled: bool,
    now: u64,
)
    requires
        s.params.language != p.language,
    ensures
        !reuses(p, enabled, Some(s), now),
{
}

/// Bypassing the cache always asks the remote, however fresh the stored snapshot,
/// and the result is still written back as a fresh snapshot unless this is a
/// development build.
pub proof fn lemma_bypass_forces_fetch(
    p: FetchParamsView,
    debug_build: bool,
    stored: Option<CacheSnapshotView>,
    now: u64,
)
    ensures
        !reuses(p, cache_enabled_of(Some(true), debug_build), stored, now),
        writes_back_of(debug_build) <==> !debug_build,
{
}

/// A snapshot written back after a fetch answers the same request at once: a fetch
/// with the cache in use that follows it within a day is served from it.
pub proof fn lemma_written_snapshot_is_fresh(s: CacheSnapshotView, p: FetchParamsView, now: u64, later: u64)
    requires
        s.saved_at == now,
        s.params == p,
        now <= later < now + CACHE_TTL_SECS,
    ensures
        fresh_for(s, p, later),
        reuses(p, true, Some(s), later),
{
}

} // verus!
