//! The logical content being transmitted: a closed set of message kinds.
//!
//! Every kind carries its own [`MessageId`]. Response, error and event kinds
//! additionally carry a `correlation_id` linking back to the causing message,
//! and terminal responses and errors carry the original requester's
//! [`Address`] so the reply can be routed back without the fabric keeping
//! per-request state.

use vstd::prelude::*;
use crate::cmd::{Cmd, Query};
use crate::errors::CmdError;
use crate::event::Event;
use crate::ids::MessageId;
use crate::network::{NetworkCmd, NetworkCmdError, NetworkEvent};
use crate::response::QueryResponse;
use crate::sender::Address;

verus! {

/// One logical message. Created once by its originator with a fresh id, then
/// immutable.
///
/// Constructing a correlated variant (one that carries a `correlation_id`)
/// is only correct with the `id()` of the causing message as the
/// correlation id, and with the causing requester's address as the echoed
/// origin: this layer records both faithfully but cannot enforce the
/// caller's choice structurally.
#[derive(Clone, PartialEq, Eq, Hash, Debug)]
pub enum Message {
    /// A cmd leads to a write or other change of state. Cmds are expected to
    /// succeed, and are only answered when something went wrong.
    Cmd {
        /// Cmd.
        cmd: Cmd,
        /// Message ID.
        id: MessageId,
    },
    /// A query is a read-only operation.
    Query {
        /// Query.
        query: Query,
        /// Message ID.
        id: MessageId,
    },
    /// An event is a fact about something that happened.
    Event {
        /// Event.
        event: Event,
        /// Message ID.
        id: MessageId,
        /// ID of the causing cmd.
        correlation_id: MessageId,
    },
    /// The response to a query, containing the query result.
    QueryResponse {
        /// QueryResponse.
        response: QueryResponse,
        /// Message ID.
        id: MessageId,
        /// ID of the causing query.
        correlation_id: MessageId,
        /// The sender of the causing query.
        query_origin: Address,
    },
    /// Cmd error.
    CmdError {
        /// The error.
        error: CmdError,
        /// Message ID.
        id: MessageId,
        /// ID of the causing cmd.
        correlation_id: MessageId,
        /// The sender of the causing cmd.
        cmd_origin: Address,
    },
    /// A cmd sent only internally in the network.
    NetworkCmd {
        /// NetworkCmd.
        cmd: NetworkCmd,
        /// Message ID.
        id: MessageId,
    },
    /// An error of a NetworkCmd.
    NetworkCmdError {
        /// The error.
        error: NetworkCmdError,
        /// Message ID.
        id: MessageId,
        /// ID of the causing cmd.
        correlation_id: MessageId,
        /// The sender of the causing cmd.
        cmd_origin: Address,
    },
    /// An event sent only internally in the network.
    NetworkEvent {
        /// Event.
        event: NetworkEvent,
        /// Message ID.
        id: MessageId,
        /// ID of the causing cmd.
        correlation_id: MessageId,
    },
}

impl Message {
    /// The identifier this message was constructed with, whichever kind it
    /// is.
    pub open spec fn spec_id(self) -> MessageId {
        match self {
            Message::Cmd { id, .. } => id,
            Message::Query { id, .. } => id,
            Message::Event { id, .. } => id,
            Message::QueryResponse { id, .. } => id,
            Message::CmdError { id, .. } => id,
            Message::NetworkCmd { id, .. } => id,
            Message::NetworkCmdError { id, .. } => id,
            Message::NetworkEvent { id, .. } => id,
        }
    }

    /// Gets the message ID.
    pub fn id(&self) -> (r: MessageId)
        ensures
            r == self.spec_id(),
    {
        match self {
            Message::Cmd { id, .. } => *id,
            Message::Query { id, .. } => *id,
            Message::Event { id, .. } => *id,
            Message::QueryResponse { id, .. } => *id,
            Message::CmdError { id, .. } => *id,
            Message::NetworkCmd { id, .. } => *id,
            Message::NetworkCmdError { id, .. } => *id,
            Message::NetworkEvent { id, .. } => *id,
        }
    }

    /// The identifier of the causing message, for the kinds that carry one.
    pub open spec fn spec_correlation_id(self) -> Option<MessageId> {
        match self {
            Message::Cmd { .. } => None,
            Message::Query { .. } => None,
            Message::Event { correlation_id, .. } => Some(correlation_id),
            Message::QueryResponse { correlation_id, .. } => Some(correlation_id),
            Message::CmdError { correlation_id, .. } => Some(correlation_id),
            Message::NetworkCmd { .. } => None,
            Message::NetworkCmdError { correlation_id, .. } => Some(correlation_id),
            Message::NetworkEvent { correlation_id, .. } => Some(correlation_id),
        }
    }
}

/// Law: every message kind reads back exactly the identifier it was
/// constructed with, independent of every other field's value.
pub proof fn lemma_id_round_trip(
    cmd: Cmd,
    query: Query,
    event: Event,
    response: QueryResponse,
    error: CmdError,
    net_cmd: NetworkCmd,
    net_error: NetworkCmdError,
    net_event: NetworkEvent,
    id: MessageId,
    correlation_id: MessageId,
    query_origin: Address,
    cmd_origin: Address,
)
    ensures
        (Message::Cmd { cmd, id }).spec_id() == id,
        (Message::Query { query, id }).spec_id() == id,
        (Message::Event { event, id, correlation_id }).spec_id() == id,
        (Message::QueryResponse { response, id, correlation_id, query_origin }).spec_id() == id,
        (Message::CmdError { error, id, correlation_id, cmd_origin }).spec_id() == id,
        (Message::NetworkCmd { cmd: net_cmd, id }).spec_id() == id,
        (Message::NetworkCmdError { error: net_error, id, correlation_id, cmd_origin }).spec_id()
            == id,
        (Message::NetworkEvent { event: net_event, id, correlation_id }).spec_id() == id,
{
}

/// Law: every correlated message kind reads back exactly the correlation
/// identifier it was constructed with, unchanged by this layer and
/// independent of every other field's value; the kinds that answer nothing
/// carry none.
pub proof fn lemma_correlation_id_round_trip(
    cmd: Cmd,
    query: Query,
    event: Event,
    response: QueryResponse,
    error: CmdError,
    net_cmd: NetworkCmd,
    net_error: NetworkCmdError,
    net_event: NetworkEvent,
    id: MessageId,
    correlation_id: MessageId,
    query_origin: Address,
    cmd_origin: Address,
)
    ensures
        (Message::Event { event, id, correlation_id }).spec_correlation_id() == Some(
            correlation_id,
        ),
        (Message::QueryResponse { response, id, correlation_id, query_origin })
            .spec_correlation_id() == Some(correlation_id),
        (Message::CmdError { error, id, correlation_id, cmd_origin }).spec_correlation_id()
            == Some(correlation_id),
        (Message::NetworkCmdError { error: net_error, id, correlation_id, cmd_origin })
            .spec_correlation_id() == Some(correlation_id),
        (Message::NetworkEvent { event: net_event, id, correlation_id }).spec_correlation_id()
            == Some(correlation_id),
        (Message::Cmd { cmd, id }).spec_correlation_id() == None::<MessageId>,
        (Message::Query { query, id }).spec_correlation_id() == None::<MessageId>,
        (Message::NetworkCmd { cmd: net_cmd, id }).spec_correlation_id() == None::<MessageId>,
{
}

} // verus!
