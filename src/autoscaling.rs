//! What an auto-scaling group is launched from.
use vstd::prelude::*;

verus! {

/// The launch template of an auto-scaling group: its id and version.
#[derive(Debug, Clone, PartialEq, Eq)]
pub struct Response {
    pub id: String,
    pub version: String,
}

} // verus!
