//! Message and data model for a distributed package-build orchestration
//! protocol: job, job-group and dependency-graph records, the string codec
//! for their state machines, shard routing keys, the canonical API
//! projections, and the log sanitizer.

use vstd::prelude::*;

pub mod error;
pub mod graph;
pub mod group;
pub mod ident;
pub mod job;
pub mod log;
pub mod routing;
pub mod sanitize;
pub mod states;
pub mod strutil;

verus! {

/// Well-known owner id reserved for jobs triggered by a source-push
/// notification hook.
pub const GITHUB_PUSH_NOTIFY_ID: u64 = 23;

} // verus!
