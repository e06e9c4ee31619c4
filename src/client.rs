use vstd::prelude::*;
use vstd::string::*;

use crate::model::{ApiError, FetchParams, FetchParamsView};
use crate::text::{bool_text, bool_text_of, decimal_of, trim, trimmed, u64_text};

verus! {

/// The number of entries asked for when a request sets no maximum.
pub const DEFAULT_COUNT: u64 = 200;

/// The number of entries sampled to discover languages.
pub const LANGUAGE_SAMPLE: u64 = 500;

/// Seconds that a remote call may take before it fails.
pub const HTTP_TIMEOUT_SECS: u64 = 20;

/// A query string, as name and value pairs in order.
pub open spec fn pairs_view(q: Seq<(String, String)>) -> Seq<(Seq<char>, Seq<char>)> {
    q.map_values(|kv: (String, String)| (kv.0@, kv.1@))
}

/// The query of a listing: the count, then the options the remote understands
/// (`include_down`, `include_closed`, and a language that is not blank). The
/// signup, region and size filters are never sent.
pub open spec fn list_query_of(p: FetchParamsView, count: u64) -> Seq<(Seq<char>, Seq<char>)> {
    let q1 = seq![("count"@, decimal_of(count as nat))];
    let q2 = match p.include_down {
        Some(b) => q1.push(("include_down"@, bool_text_of(b))),
        None => q1,
    };
    let q3 = match p.include_closed {
        Some(b) => q2.push(("include_closed"@, bool_text_of(b))),
        None => q2,
    };
    match p.language {
        Some(l) => if trimmed(l).len() > 0 {
            q3.push(("language"@, l))
        } else {
            q3
        },
        None => q3,
    }
}

/// The query of a listing of `count` entries for a request.
pub fn list_query(params: &FetchParams, count: u64) -> (r: Vec<(String, String)>)
    ensures
        pairs_view(r@) == list_query_of(params@, count),
{
    let mut q: Vec<(String, String)> = Vec::new();
    q.push((String::from_str("count"), u64_text(count)));
    let ghost q1 = pairs_view(q@);
    assert(q1 =~= seq![("count"@, decimal_of(count as nat))]);
    if let Some(down) = params.include_down {
        q.push((String::from_str("include_down"), bool_text(down)));
    }
    assert(pairs_view(q@) =~= match params@.include_down {
        Some(b) => q1.push(("include_down"@, bool_text_of(b))),
        None => q1,
    });
    let ghost q2 = pairs_view(q@);
    if let Some(closed) = params.include_closed {
        q.push((String::from_str("include_closed"), bool_text(closed)));
    }
    assert(pairs_view(q@) =~= match params@.include_closed {
        Some(b) => q2.push(("include_closed"@, bool_text_of(b))),
        None => q2,
    });
    let ghost q3 = pairs_view(q@);
    if let Some(language) = &params.language {
        let bare = trim(language.as_str());
        if bare.unicode_len() > 0 {
            q.push((String::from_str("language"), language.clone()));
            assert(pairs_view(q@) =~= q3.push(("language"@, language@)));
        }
    }
    q
}

/// The query of a sample: the count when it is positive, else nothing.
pub open spec fn sample_query_of(count: u64) -> Seq<(Seq<char>, Seq<char>)> {
    if count > 0 {
        seq![("count"@, decimal_of(count as nat))]
    } else {
        Seq::empty()
    }
}

pub fn sample_query(count: u64) -> (r: Vec<(String, String)>)
    ensures
        pairs_view(r@) == sample_query_of(count),
{
    let mut q: Vec<(String, String)> = Vec::new();
    if count > 0 {
        q.push((String::from_str("count"), u64_text(count)));
        assert(pairs_view(q@) =~= sample_query_of(count));
    } else {
        assert(pairs_view(q@) =~= sample_query_of(count));
    }
    q
}

/// One authenticated read of the directory: the path under the API's base, the
/// query, and the value of the `Authorization` header.
#[derive(Debug, Clone, PartialEq)]
pub struct DirectoryRequest {
    pub path: String,
    pub query: Vec<(String, String)>,
    pub authorization: String,
}

/// The `Authorization` header that carries a bearer token.
pub open spec fn bearer_of(token: Seq<char>) -> Seq<char> {
    "Bearer "@ + token
}

impl DirectoryRequest {
    /// A listing request: `instances/list` with a query made by [`list_query`].
    pub fn list(token: &str, query: Vec<(String, String)>) -> (r: DirectoryRequest)
        ensures
            r.path@ == "instances/list"@,
            r.query == query,
            r.authorization@ == bearer_of(token@),
    {
        DirectoryRequest {
            path: String::from_str("instances/list"),
            query,
            authorization: String::from_str("Bearer ").concat(token),
        }
    }

    /// A sample request: `instances/sample`, used to check that a token is accepted.
    pub fn sample(token: &str, count: u64) -> (r: DirectoryRequest)
        ensures
            r.path@ == "instances/sample"@,
            pairs_view(r.query@) == sample_query_of(count),
            r.authorization@ == bearer_of(token@),
    {
        DirectoryRequest {
            path: String::from_str("instances/sample"),
            query: sample_query(count),
            authorization: String::from_str("Bearer ").concat(token),
        }
    }
}

/// Whether an HTTP status means success (the 2xx range).
pub open spec fn is_success(status: u16) -> bool {
    200 <= status <= 299
}

/// Accepts a response with a success status; any other status is a remote error
/// that carries the status and the body.
pub fn check_status(status: u16, body: String) -> (r: Result<(), ApiError>)
    ensures
        r is Ok <==> is_success(status),
        !is_success(status) ==> r == Err::<(), ApiError>(ApiError::Remote { status, body }),
{
    if 200 <= status && status <= 299 {
        Ok(())
    } else {
        Err(ApiError::Remote { status, body })
    }
}

} // verus!
