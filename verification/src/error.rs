//! Errors surfaced by this protocol core.

use vstd::prelude::*;

verus! {

/// A recoverable protocol error.  The only failures this core can produce
/// are state tokens that do not decode for one of the three state families;
/// each variant carries the offending raw string.
#[derive(Debug, Clone, PartialEq, Eq)]
pub enum ProtocolError {
    BadJobState(String),
    BadJobGroupState(String),
    BadJobGroupProjectState(String),
}

} // verus!
