use messaging::codec::{
    decode_address, decode_message_id, decode_provenance, encode_address, encode_message_id,
    encode_provenance,
};
use messaging::ids::{MessageId, XorName};
use messaging::sender::{Address, AdultDuty, Duty, ElderDuty, MsgSender, PublicKey, Signature};

fn wire_name(seed: u64) -> XorName {
    XorName {
        w0: seed,
        w1: seed.wrapping_mul(3),
        w2: seed.wrapping_mul(5),
        w3: seed.wrapping_mul(7),
    }
}

fn wire_client(seed: u64) -> MsgSender {
    MsgSender::Client {
        id: PublicKey { name: wire_name(seed) },
        signature: Signature { bytes: vec![seed as u8, 2, 3] },
    }
}

fn wire_node(seed: u64) -> MsgSender {
    MsgSender::Node {
        id: PublicKey { name: wire_name(seed) },
        duty: Duty::Adult(AdultDuty::ChunkReplication),
        signature: Signature { bytes: vec![seed as u8; 64] },
    }
}

fn wire_section(seed: u64) -> MsgSender {
    MsgSender::Section {
        id: PublicKey { name: wire_name(seed) },
        duty: Duty::Elder(ElderDuty::Transfer),
        signature: Signature { bytes: Vec::new() },
    }
}

#[test]
fn message_id_round_trips() {
    let id = MessageId(wire_name(41));
    let bytes = encode_message_id(&id);
    assert_eq!(bytes.len(), 32);
    assert_eq!(decode_message_id(&bytes), id);
}

#[test]
fn address_round_trips_with_its_class() {
    let addresses = [
        Address::Client(wire_name(1)),
        Address::Node(wire_name(1)),
        Address::Section(wire_name(1)),
    ];
    for (tag, address) in addresses.iter().enumerate() {
        let bytes = encode_address(address);
        assert_eq!(bytes[0], tag as u8);
        assert_eq!(decode_address(&bytes), *address);
    }
}

#[test]
fn provenance_round_trips_keeping_proxy_order() {
    let origin = wire_client(9);
    let proxies = vec![wire_node(10), wire_section(11), wire_node(12)];
    let bytes = encode_provenance(&origin, &proxies);
    let (decoded_origin, decoded_proxies) = decode_provenance(&bytes);
    assert_eq!(decoded_origin, origin);
    assert_eq!(decoded_proxies, proxies);
}

#[test]
fn empty_provenance_round_trips() {
    let origin = wire_section(20);
    let proxies = Vec::new();
    let (decoded_origin, decoded_proxies) = decode_provenance(&encode_provenance(&origin, &proxies));
    assert_eq!(decoded_origin, origin);
    assert!(decoded_proxies.is_empty());
}
