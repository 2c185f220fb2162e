//! Sender identity and routable addresses.

use vstd::prelude::*;
use crate::ids::XorName;

verus! {

/// Public identity of a sender.
///
/// The cryptographic key material and its verification belong to the
/// signature collaborator; this layer reads only the network name derived
/// from the key, which is what routing needs.
#[derive(Clone, Copy, PartialEq, Eq, Hash, Debug)]
pub struct PublicKey {
    /// The network name derived from the key.
    pub name: XorName,
}

/// A signature over the envelope contents, carried opaquely.
///
/// Producing and verifying it is the signature collaborator's concern; this
/// layer only records the bytes.
#[derive(Clone, PartialEq, Eq, Hash, Debug)]
pub struct Signature {
    ///
    pub bytes: Vec<u8>,
}

/// Functional role of an adult node.
#[derive(Clone, Copy, PartialEq, Eq, Hash, Debug)]
pub enum AdultDuty {
    /// Stores data chunks.
    ChunkStorage,
    /// Replicates data chunks to other holders.
    ChunkReplication,
}

/// Functional role of an elder node.
#[derive(Clone, Copy, PartialEq, Eq, Hash, Debug)]
pub enum ElderDuty {
    /// Manages data metadata.
    Metadata,
    /// Manages money transfers.
    Transfer,
    /// Fronts client requests.
    Gateway,
}

/// The functional role a Node or Section sender was acting under when
/// sending. A Client sender never carries a duty.
#[derive(Clone, Copy, PartialEq, Eq, Hash, Debug)]
pub enum Duty {
    /// Duty of an adult node.
    Adult(AdultDuty),
    /// Duty of an elder node.
    Elder(ElderDuty),
}

/// Authenticated originator of one hop of an envelope.
///
/// All variants carry an identity key and a signature over the envelope
/// contents; Node and Section senders additionally carry the [`Duty`] they
/// were acting under.
#[derive(Clone, PartialEq, Eq, Hash, Debug)]
pub enum MsgSender {
    /// A client of the network.
    Client {
        ///
        id: PublicKey,
        ///
        signature: Signature,
    },
    /// A single node.
    Node {
        ///
        id: PublicKey,
        ///
        duty: Duty,
        ///
        signature: Signature,
    },
    /// A section of nodes, acting as one.
    Section {
        ///
        id: PublicKey,
        ///
        duty: Duty,
        ///
        signature: Signature,
    },
}

impl MsgSender {
    /// The network name of this sender, whichever variant it is.
    pub open spec fn spec_address(self) -> XorName {
        match self {
            MsgSender::Client { id, .. } => id.name,
            MsgSender::Node { id, .. } => id.name,
            MsgSender::Section { id, .. } => id.name,
        }
    }

    /// Returns the network name of this sender's identity key.
    pub fn address(&self) -> (r: XorName)
        ensures
            r == self.spec_address(),
    {
        match self {
            MsgSender::Client { id, .. } => id.name,
            MsgSender::Node { id, .. } => id.name,
            MsgSender::Section { id, .. } => id.name,
        }
    }
}

/// A routable destination, tagged by actor class.
///
/// The tag constrains which messages are valid against it: only clients
/// receive events, query responses and cmd errors; only sections receive
/// cmds and queries.
#[derive(Clone, Copy, PartialEq, Eq, Hash, Debug)]
pub enum Address {
    /// A client at the given name.
    Client(XorName),
    /// A single node at the given name.
    Node(XorName),
    /// A section responsible for the given name.
    Section(XorName),
}

impl Address {
    /// The underlying network name, whichever class the address has.
    pub open spec fn spec_xorname(self) -> XorName {
        match self {
            Address::Client(name) => name,
            Address::Node(name) => name,
            Address::Section(name) => name,
        }
    }

    /// Extracts the underlying `XorName`.
    pub fn xorname(&self) -> (r: XorName)
        ensures
            r == self.spec_xorname(),
    {
        match self {
            Address::Client(name) => *name,
            Address::Node(name) => *name,
            Address::Section(name) => *name,
        }
    }
}

} // verus!
