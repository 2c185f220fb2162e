//! Events pushed from the network to a client.

use vstd::prelude::*;
use crate::ids::XorName;
use crate::sender::PublicKey;

verus! {

/// A Replica instance's validation of one transfer.
///
/// The signed transfer and the replica's signature share belong to the
/// replica-agreement collaborator; this layer reads only the debited party's
/// key, which is what event routing uses.
#[derive(Clone, Copy, PartialEq, Eq, Hash, Debug)]
pub struct TransferValidated {
    /// The key the transfer debits.
    pub from: PublicKey,
}

/// Proof that a quorum of Replica instances agreed to one debit.
#[derive(Clone, Copy, PartialEq, Eq, Hash, Debug)]
pub struct DebitAgreementProof {
    /// The key the agreed debit is drawn from.
    pub from: PublicKey,
}

/// A fact about something that happened, pushed to a client.
#[derive(Clone, Copy, PartialEq, Eq, Hash, Debug)]
pub enum Event {
    /// The transfer was validated by a Replica instance.
    TransferValidated(TransferValidated),
    /// An aggregate event created client side out of a quorum of
    /// `TransferValidated` events.
    TransferDebitAgreementReached(DebitAgreementProof),
}

impl Event {
    /// The client name this event is addressed to.
    ///
    /// Known gap: both variants yield the debited party's name, which need
    /// not be the client that made the causing request. A recipient relying
    /// on this address should treat it as the debited party, not as the
    /// requester.
    pub open spec fn spec_dst_address(self) -> XorName {
        match self {
            Event::TransferValidated(e) => e.from.name,
            Event::TransferDebitAgreementReached(proof) => proof.from.name,
        }
    }

    /// Returns the name of the client this event must be pushed to.
    pub fn dst_address(&self) -> (r: XorName)
        ensures
            r == self.spec_dst_address(),
    {
        match self {
            Event::TransferValidated(e) => e.from.name,
            Event::TransferDebitAgreementReached(proof) => proof.from.name,
        }
    }
}

} // verus!
