//! One message in flight, with its provenance chain.

use vstd::prelude::*;
use crate::ids::MessageId;
use crate::message::Message;
use crate::sender::{Address, MsgSender};

verus! {

/// A [`Message`] wrapped with its `origin` sender and the ordered list of
/// relays that have forwarded it.
///
/// `proxies` is append-only and its order is the chronological forwarding
/// order: every actor that handles the envelope adds itself at the end, and
/// nothing is removed or reordered after delivery.
#[derive(Clone, PartialEq, Eq, Hash, Debug)]
pub struct MsgEnvelope {
    ///
    pub message: Message,
    /// The source of the message.
    pub origin: MsgSender,
    /// Intermediate actors, so far, on the path of this message. Every new
    /// actor handling this message adds itself here.
    pub proxies: Vec<MsgSender>,
}

impl MsgEnvelope {
    /// Gets the message ID.
    pub fn id(&self) -> (r: MessageId)
        ensures
            r == self.message.spec_id(),
    {
        self.message.id()
    }

    /// The proxy would first sign the envelope contents, and then call this
    /// method to add itself (public key plus the signature) to the envelope.
    /// This layer records the proxy; it does not verify the signature.
    pub fn add_proxy(&mut self, proxy: MsgSender)
        ensures
            final(self).message == old(self).message,
            final(self).origin == old(self).origin,
            final(self).proxies@ == old(self).proxies@.push(proxy),
    {
        self.proxies.push(proxy);
    }

    /// Who handed over this envelope: the last proxy, or the origin when no
    /// proxy has forwarded it yet.
    pub open spec fn spec_most_recent_sender(self) -> MsgSender {
        if self.proxies@.len() == 0 {
            self.origin
        } else {
            self.proxies@.last()
        }
    }

    /// Returns the sender of the latest hop: the last appended proxy, or
    /// `origin` when `proxies` is empty. A receiving component uses this to
    /// validate that the immediate hop is a network peer in good standing.
    pub fn most_recent_sender(&self) -> (r: &MsgSender)
        ensures
            *r == self.spec_most_recent_sender(),
            self.proxies@.len() == 0 ==> *r == self.origin,
            self.proxies@.len() > 0 ==> *r == self.proxies@.last(),
    {
        match self.proxies.as_slice().last() {
            None => &self.origin,
            Some(proxy) => proxy,
        }
    }

    /// The address the wrapped message must be routed to, by message kind:
    /// a cmd or query goes to the section its target-resolution rule names;
    /// an event goes to its subject client; a network cmd or event goes to
    /// the address its own rule names; and a response or error goes to the
    /// origin address echoed inside the message.
    pub open spec fn spec_destination(self) -> Address {
        match self.message {
            Message::Cmd { cmd, .. } => Address::Section(cmd.target),
            Message::Query { query, .. } => Address::Section(query.target),
            Message::Event { event, .. } => Address::Client(event.spec_dst_address()),
            Message::QueryResponse { query_origin, .. } => query_origin,
            Message::CmdError { cmd_origin, .. } => cmd_origin,
            Message::NetworkCmd { cmd, .. } => cmd.target,
            Message::NetworkCmdError { cmd_origin, .. } => cmd_origin,
            Message::NetworkEvent { event, .. } => event.target,
        }
    }

    /// Resolves the destination of the wrapped message. Pure and
    /// deterministic: it consults no network state, and for responses and
    /// errors it passes the echoed origin address through unchanged, which
    /// is what keeps the delivery fabric free of per-request state.
    pub fn destination(&self) -> (r: Address)
        ensures
            r == self.spec_destination(),
    {
        match &self.message {
            Message::Cmd { cmd, .. } => Address::Section(cmd.dst_address()),
            Message::Query { query, .. } => Address::Section(query.dst_address()),
            Message::Event { event, .. } => Address::Client(event.dst_address()),
            Message::QueryResponse { query_origin, .. } => *query_origin,
            Message::CmdError { cmd_origin, .. } => *cmd_origin,
            Message::NetworkCmd { cmd, .. } => cmd.dst_address(),
            Message::NetworkCmdError { cmd_origin, .. } => *cmd_origin,
            Message::NetworkEvent { event, .. } => event.dst_address(),
        }
    }
}

/// Law: the most recent sender tracks appends, in order. Starting from any
/// envelope, appending proxy `a` makes `a` the most recent sender, and then
/// appending proxy `b` makes it `b`, not `a`. The two hypotheses are exactly
/// what [`MsgEnvelope::add_proxy`] ensures of each call.
pub proof fn lemma_most_recent_sender_tracks_appends(
    e0: MsgEnvelope,
    e1: MsgEnvelope,
    e2: MsgEnvelope,
    a: MsgSender,
    b: MsgSender,
)
    requires
        e1.origin == e0.origin,
        e1.proxies@ == e0.proxies@.push(a),
        e2.origin == e1.origin,
        e2.proxies@ == e1.proxies@.push(b),
    ensures
        e1.spec_most_recent_sender() == a,
        e2.spec_most_recent_sender() == b,
{
}

} // verus!
