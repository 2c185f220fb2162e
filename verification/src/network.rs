//! Cmds and events that only travel between nodes of the network, never to a
//! client.

use vstd::prelude::*;
use crate::errors::{Error, TransferError};
use crate::sender::Address;

verus! {

/// A cmd sent internally in the network.
///
/// Its payload is a collaborator's concern; what this layer reads is the
/// address it resolves to, supplied by the target-resolution collaborator
/// when the cmd is built.
#[derive(Clone, Copy, PartialEq, Eq, Hash, Debug)]
pub struct NetworkCmd {
    /// The address this cmd resolves to.
    pub target: Address,
}

impl NetworkCmd {
    /// Returns the address that must receive this cmd.
    pub fn dst_address(&self) -> (r: Address)
        ensures
            r == self.target,
    {
        self.target
    }
}

/// Why a network-internal cmd failed.
#[derive(Clone, Copy, PartialEq, Eq, Hash, Debug)]
pub enum NetworkCmdError {
    /// A data duplication or storage step failed.
    Data(Error),
    /// A transfer-protocol phase failed.
    Transfers(TransferError),
}

/// An event sent internally in the network.
#[derive(Clone, Copy, PartialEq, Eq, Hash, Debug)]
pub struct NetworkEvent {
    /// The address this event resolves to.
    pub target: Address,
}

impl NetworkEvent {
    /// Returns the address that must receive this event.
    pub fn dst_address(&self) -> (r: Address)
        ensures
            r == self.target,
    {
        self.target
    }
}

} // verus!
