use messaging::cmd::{Cmd, Query};
use messaging::envelope::MsgEnvelope;
use messaging::errors::{CmdError, Error, TransferError, TryFromError};
use messaging::event::{DebitAgreementProof, Event, TransferValidated};
use messaging::ids::{MessageId, XorName};
use messaging::message::Message;
use messaging::network::{NetworkCmd, NetworkCmdError, NetworkEvent};
use messaging::payload::{Blob, MapData, MapEntry, Money};
use messaging::response::{try_balance_from, try_blob_from, try_map_from, QueryResponse};
use messaging::sender::{Address, AdultDuty, Duty, MsgSender, PublicKey, Signature};

fn name(seed: u64) -> XorName {
    XorName { w0: seed, w1: seed.wrapping_add(1), w2: seed.wrapping_add(2), w3: seed.wrapping_add(3) }
}

fn client_sender(seed: u64) -> MsgSender {
    MsgSender::Client { id: PublicKey { name: name(seed) }, signature: Signature { bytes: vec![seed as u8] } }
}

fn node_sender(seed: u64) -> MsgSender {
    MsgSender::Node {
        id: PublicKey { name: name(seed) },
        duty: Duty::Adult(AdultDuty::ChunkStorage),
        signature: Signature { bytes: vec![seed as u8] },
    }
}

fn some_id(seed: u64) -> MessageId {
    MessageId(name(seed))
}

fn envelope_of(message: Message) -> MsgEnvelope {
    MsgEnvelope { message, origin: client_sender(1), proxies: Vec::new() }
}

#[test]
fn debug_format() {
    let errored_response = QueryResponse::GetSequence(Err(Error::AccessDenied));
    assert_eq!(
        errored_response.to_debug_string(),
        "QueryResponse::GetSequence(AccessDenied)"
    );
}

#[test]
fn try_from() {
    let i_data = Blob { data: vec![1, 3, 1, 4] };
    let e = Error::AccessDenied;
    assert_eq!(
        i_data,
        try_blob_from(QueryResponse::GetBlob(Ok(i_data.clone()))).unwrap()
    );
    assert_eq!(
        TryFromError::Response(e),
        try_blob_from(QueryResponse::GetBlob(Err(e))).unwrap_err()
    );

    let mut data = Vec::new();
    data.push(MapEntry { key: vec![1], value: vec![10] });
    let m_data = MapData { name: name(7), tag: 1, data };
    assert_eq!(
        m_data,
        try_map_from(QueryResponse::GetMap(Ok(m_data.clone()))).unwrap()
    );
    assert_eq!(
        TryFromError::Response(e),
        try_map_from(QueryResponse::GetMap(Err(e))).unwrap_err()
    );
}

#[test]
fn most_recent_sender_is_origin_without_proxies() {
    let envelope = envelope_of(Message::Query { query: Query { target: name(9) }, id: some_id(2) });
    assert_eq!(*envelope.most_recent_sender(), client_sender(1));
}

#[test]
fn most_recent_sender_is_last_appended_proxy() {
    let mut envelope =
        envelope_of(Message::Query { query: Query { target: name(9) }, id: some_id(2) });
    let a = node_sender(10);
    let b = node_sender(20);
    envelope.add_proxy(a.clone());
    assert_eq!(*envelope.most_recent_sender(), a);
    envelope.add_proxy(b.clone());
    assert_eq!(*envelope.most_recent_sender(), b);
    assert_eq!(envelope.proxies, vec![a, b]);
}

#[test]
fn message_id_is_read_back_for_every_kind() {
    let id = some_id(40);
    let correlation_id = some_id(41);
    let origin = Address::Client(name(5));
    let messages = vec![
        Message::Cmd { cmd: Cmd { target: name(6) }, id },
        Message::Query { query: Query { target: name(6) }, id },
        Message::Event {
            event: Event::TransferValidated(TransferValidated { from: PublicKey { name: name(8) } }),
            id,
            correlation_id,
        },
        Message::QueryResponse {
            response: QueryResponse::GetBalance(Ok(Money { nanos: 3 })),
            id,
            correlation_id,
            query_origin: origin,
        },
        Message::CmdError {
            error: CmdError::Auth(Error::AccessDenied),
            id,
            correlation_id,
            cmd_origin: origin,
        },
        Message::NetworkCmd { cmd: NetworkCmd { target: origin }, id },
        Message::NetworkCmdError {
            error: NetworkCmdError::Data(Error::NoSuchData),
            id,
            correlation_id,
            cmd_origin: origin,
        },
        Message::NetworkEvent { event: NetworkEvent { target: origin }, id, correlation_id },
    ];
    for message in messages {
        assert_eq!(message.id(), id);
        assert_eq!(envelope_of(message).id(), id);
    }
}

#[test]
fn correlation_id_is_read_back_unchanged() {
    let correlation_id = some_id(50);
    let message = Message::QueryResponse {
        response: QueryResponse::GetBalance(Ok(Money { nanos: 1 })),
        id: some_id(51),
        correlation_id,
        query_origin: Address::Client(name(5)),
    };
    match message {
        Message::QueryResponse { correlation_id: read, .. } => assert_eq!(read, correlation_id),
        _ => panic!("wrong variant"),
    }
    let message = Message::CmdError {
        error: CmdError::Transfer(TransferError::TransferValidation(Error::InsufficientBalance)),
        id: some_id(52),
        correlation_id,
        cmd_origin: Address::Client(name(5)),
    };
    match message {
        Message::CmdError { correlation_id: read, .. } => assert_eq!(read, correlation_id),
        _ => panic!("wrong variant"),
    }
}

#[test]
fn destination_passes_query_origin_through() {
    let n = name(77);
    let envelope = envelope_of(Message::QueryResponse {
        response: QueryResponse::GetBalance(Ok(Money { nanos: 3 })),
        id: some_id(60),
        correlation_id: some_id(61),
        query_origin: Address::Client(n),
    });
    assert_eq!(envelope.destination(), Address::Client(n));
}

#[test]
fn destination_passes_cmd_origin_through() {
    let n = name(78);
    let envelope = envelope_of(Message::CmdError {
        error: CmdError::Data(Error::NoSuchData),
        id: some_id(62),
        correlation_id: some_id(63),
        cmd_origin: Address::Client(n),
    });
    assert_eq!(envelope.destination(), Address::Client(n));

    let envelope = envelope_of(Message::NetworkCmdError {
        error: NetworkCmdError::Transfers(TransferError::TransferPropagation(Error::NoSuchEntry)),
        id: some_id(64),
        correlation_id: some_id(65),
        cmd_origin: Address::Node(n),
    });
    assert_eq!(envelope.destination(), Address::Node(n));
}

#[test]
fn destination_resolves_requests_to_their_section() {
    let n = name(79);
    let envelope = envelope_of(Message::Cmd { cmd: Cmd { target: n }, id: some_id(66) });
    assert_eq!(envelope.destination(), Address::Section(n));

    let envelope = envelope_of(Message::Query { query: Query { target: n }, id: some_id(67) });
    assert_eq!(envelope.destination(), Address::Section(n));
}

#[test]
fn destination_resolves_events_to_their_subject_client() {
    let n = name(80);
    let envelope = envelope_of(Message::Event {
        event: Event::TransferDebitAgreementReached(DebitAgreementProof {
            from: PublicKey { name: n },
        }),
        id: some_id(68),
        correlation_id: some_id(69),
    });
    assert_eq!(envelope.destination(), Address::Client(n));
}

#[test]
fn destination_resolves_network_kinds_by_their_own_rule() {
    let target = Address::Section(name(81));
    let envelope =
        envelope_of(Message::NetworkCmd { cmd: NetworkCmd { target }, id: some_id(70) });
    assert_eq!(envelope.destination(), target);

    let envelope = envelope_of(Message::NetworkEvent {
        event: NetworkEvent { target },
        id: some_id(71),
        correlation_id: some_id(72),
    });
    assert_eq!(envelope.destination(), target);
}

#[test]
fn extraction_of_wrong_variant_fails_with_wrong_type() {
    let response = QueryResponse::GetBalance(Ok(Money { nanos: 9 }));
    assert_eq!(TryFromError::WrongType, try_blob_from(response).unwrap_err());
}

#[test]
fn errored_balance_response_renders_and_extracts_its_error() {
    let response = QueryResponse::GetBalance(Err(Error::AccessDenied));
    assert_eq!(response.to_debug_string(), "QueryResponse::GetBalance(AccessDenied)");
    assert_eq!(
        TryFromError::Response(Error::AccessDenied),
        try_balance_from(response).unwrap_err()
    );
}

#[test]
fn successful_blob_response_extracts_equal_data() {
    let data = Blob { data: vec![5, 6, 7] };
    assert_eq!(data, try_blob_from(QueryResponse::GetBlob(Ok(data.clone()))).unwrap());
}

#[test]
fn successful_response_renders_a_compact_placeholder() {
    let response = QueryResponse::GetBlob(Ok(Blob { data: vec![0; 1024] }));
    assert_eq!(response.to_debug_string(), "QueryResponse::GetBlob(Success)");
}

#[test]
fn map_shell_also_narrows_to_map() {
    let m_data = MapData { name: name(3), tag: 2, data: Vec::new() };
    assert_eq!(
        m_data,
        try_map_from(QueryResponse::GetMapShell(Ok(m_data.clone()))).unwrap()
    );
}

#[test]
fn sender_address_is_the_identity_name() {
    let sender = node_sender(90);
    assert_eq!(sender.address(), name(90));
    assert_eq!(Address::Section(name(91)).xorname(), name(91));
}

#[test]
fn fresh_message_ids_differ() {
    let first = MessageId::new();
    let second = MessageId::new();
    assert_ne!(first, second);
}

#[test]
fn every_error_renders_its_tag() {
    let cases = [
        (Error::AccessDenied, "QueryResponse::GetMapVersion(AccessDenied)"),
        (Error::NoSuchData, "QueryResponse::GetMapVersion(NoSuchData)"),
        (Error::NoSuchEntry, "QueryResponse::GetMapVersion(NoSuchEntry)"),
        (Error::InvalidOperation, "QueryResponse::GetMapVersion(InvalidOperation)"),
        (Error::InsufficientBalance, "QueryResponse::GetMapVersion(InsufficientBalance)"),
    ];
    for (error, rendered) in cases {
        assert_eq!(QueryResponse::GetMapVersion(Err(error)).to_debug_string(), rendered);
    }
}
