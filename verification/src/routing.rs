//! Routing keys.  Each inbound message derives at most one key; an
//! external partitioning layer consumes the key to pick the owning
//! backend shard.  This core only supplies the key material, never the
//! partition function.

use vstd::prelude::*;

verus! {

/// An opaque numeric shard/instance identifier.  The value is routing
/// input only; this core never interprets it.
#[derive(Clone, Copy, Debug, PartialEq, Eq, Structural)]
pub struct InstaId(pub u64);

/// The material a message routes by: either an opaque numeric shard id,
/// or a plain string bucketed by an external consistent-hash layer.
#[derive(Debug, Clone, PartialEq, Eq)]
pub enum RouteKey {
    Id(InstaId),
    Str(String),
}

} // verus!
