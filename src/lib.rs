//! Discovery of federated-service instances: token handling, directory queries,
//! a time-bounded snapshot cache, and the classification and filtering of entries.
//!
//! The library decides; the host performs. Durable credential storage is reached
//! through closures that the token operations take, remote reads are described as
//! [`DirectoryRequest`] values for the host to send, and snapshots are handed in and
//! out as values for the host to read and write.

pub mod cache;
pub mod classify;
pub mod client;
pub mod languages;
pub mod model;
pub mod tasks;
pub mod text;
pub mod token;

pub use cache::{cache_enabled, complete_fetch, fetch_instances, is_fresh, FetchStep, Fetched};
pub use classify::{map_region_from_domain, size_bucket, transform, transform_all};
pub use client::{check_status, list_query, sample_query, DirectoryRequest};
pub use languages::{collect_languages, fetch_languages};
pub use model::{ApiError, CacheSnapshot, FetchParams, Instance, InstanceInfo, JsInstance};
pub use tasks::{
    bench_warm_then_time, build, fix_cmd, fmt_cmd, lint_cmd, node_major, prep, ts_check_cmd,
    BuildTarget, MIN_NODE_MAJOR,
    FmtWhich, PrepTarget, Step,
};
pub use token::{
    clear_token, get_token, require_token, save_token, test_token, token_status, AppState,
};
