//! Client-originated requests: state-changing cmds and read-only queries.
//!
//! The business payload of a cmd or query is a collaborator's concern. What
//! this layer reads of either is the section name it resolves to, supplied by
//! the target-resolution collaborator when the request is built.

use vstd::prelude::*;
use crate::ids::XorName;

verus! {

/// A state-changing request. Cmds are expected to succeed; the network only
/// answers one when something went wrong.
#[derive(Clone, Copy, PartialEq, Eq, Hash, Debug)]
pub struct Cmd {
    /// The section name this cmd resolves to.
    pub target: XorName,
}

impl Cmd {
    /// Returns the name of the section that must service this cmd.
    pub fn dst_address(&self) -> (r: XorName)
        ensures
            r == self.target,
    {
        self.target
    }
}

/// A read-only request.
#[derive(Clone, Copy, PartialEq, Eq, Hash, Debug)]
pub struct Query {
    /// The section name this query resolves to.
    pub target: XorName,
}

impl Query {
    /// Returns the name of the section that must service this query.
    pub fn dst_address(&self) -> (r: XorName)
        ensures
            r == self.target,
    {
        self.target
    }
}

} // verus!
