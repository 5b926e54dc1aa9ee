use mc_protocol::client::{Client, ClientReadPacketError};
use mc_protocol::codec::{EncodePacket, PacketId};
use mc_protocol::event_handler::ListenerHandler;
use mc_protocol::framing::{read_packet, write_packet, PacketStreamError, RawPacket};
use mc_protocol::packet_map::{standard_entries, PacketEntry, PacketMap, PacketMapError};
use mc_protocol::packets::ClientBoundKeepAlivePacket;
use mc_protocol::position::Position;
use mc_protocol::primitives::{decode_i64, encode_i64, DecodeError};
use mc_protocol::protocol_version::ProtocolVersion;
use mc_protocol::state::{can_transition, PacketRecipient, State};
use mc_protocol::varint::{decode_var_int, encode_var_int, VarIntError};

#[test]
fn test_protocol_version_ordering() {
    let v1_21 = ProtocolVersion::V1_21;
    let v1_21_2 = ProtocolVersion::V1_21_2;
    let v1_21_4 = ProtocolVersion::V1_21_4;

    assert!(v1_21 < v1_21_2);
    assert!(v1_21_2 < v1_21_4);
    assert!(v1_21_4 > v1_21_2);
    assert_eq!(v1_21_4, v1_21_4);
    assert_ne!(v1_21_2, v1_21_4);
}

#[test]
fn test_position() {
    let position = Position::new(18357644, 831, -20882616);
    let mut bytes = Vec::new();
    position.encode(&mut bytes);
    let decoded_position = Position::decode(&bytes, &mut 0).unwrap();
    assert_eq!(position.x, decoded_position.x);
    assert_eq!(position.y, decoded_position.y);
    assert_eq!(position.z, decoded_position.z);
}

#[test]
fn version_numbers_and_default() {
    assert_eq!(ProtocolVersion::V1_21.version_number(), 767);
    assert_eq!(ProtocolVersion::V1_21_2.version_number(), 768);
    assert_eq!(ProtocolVersion::V1_21_4.version_number(), 769);
    assert_eq!(ProtocolVersion::default().version_number(), 769);
    assert!(ProtocolVersion::V1_18 < ProtocolVersion::V1_20);
    assert_eq!(ProtocolVersion::from_version_number(767), Some(ProtocolVersion::V1_21));
    assert_eq!(ProtocolVersion::from_version_number(1), None);
}

#[test]
fn var_int_known_encodings() {
    let cases: Vec<(i32, Vec<u8>)> = vec![
        (0, vec![0x00]),
        (1, vec![0x01]),
        (127, vec![0x7f]),
        (128, vec![0x80, 0x01]),
        (300, vec![0xac, 0x02]),
        (2147483647, vec![0xff, 0xff, 0xff, 0xff, 0x07]),
        (-1, vec![0xff, 0xff, 0xff, 0xff, 0x0f]),
        (-2147483648, vec![0x80, 0x80, 0x80, 0x80, 0x08]),
    ];
    for (value, expected) in cases {
        let mut bytes = Vec::new();
        encode_var_int(value, &mut bytes);
        assert_eq!(bytes, expected);
        let mut index = 0usize;
        assert_eq!(decode_var_int(&bytes, &mut index), Ok(value));
        assert_eq!(index, expected.len());
    }
}

#[test]
fn var_int_round_trip_many() {
    let mut v: i64 = i32::MIN as i64;
    while v <= i32::MAX as i64 {
        let value = v as i32;
        let mut bytes = vec![0xaa];
        encode_var_int(value, &mut bytes);
        bytes.push(0x55);
        let mut index = 1usize;
        assert_eq!(decode_var_int(&bytes, &mut index), Ok(value));
        assert_eq!(index, bytes.len() - 1);
        v += 65537;
    }
}

#[test]
fn var_int_rejects_long_and_truncated() {
    let long = vec![0xff, 0xff, 0xff, 0xff, 0xff, 0x01];
    assert_eq!(decode_var_int(&long, &mut 0), Err(VarIntError::TooLong));
    let truncated = vec![0xff, 0xff];
    assert_eq!(decode_var_int(&truncated, &mut 0), Err(VarIntError::UnexpectedEnd));
    let empty: Vec<u8> = Vec::new();
    assert_eq!(decode_var_int(&empty, &mut 0), Err(VarIntError::UnexpectedEnd));
}

#[test]
fn position_packing_and_range_edges() {
    let p = Position::new(1, 2, 3);
    assert_eq!(p.packed(), (1u64 << 38) | (3u64 << 12) | 2);
    for (x, y, z) in [
        (-33554432, -2048, -33554432),
        (33554431, 2047, 33554431),
        (0, 0, 0),
        (-1, -1, -1),
    ] {
        let p = Position::new(x, y, z);
        let mut bytes = Vec::new();
        p.encode(&mut bytes);
        assert_eq!(bytes.len(), 8);
        assert_eq!(Position::decode(&bytes, &mut 0), Ok(p));
    }
    assert_eq!(Position::decode(&vec![0; 7], &mut 0), Err(DecodeError::UnexpectedEnd));
}

#[test]
fn i64_big_endian() {
    let mut bytes = Vec::new();
    encode_i64(0x0102030405060708, &mut bytes);
    assert_eq!(bytes, vec![1, 2, 3, 4, 5, 6, 7, 8]);
    assert_eq!(decode_i64(&bytes, &mut 0), Ok(0x0102030405060708));
    let mut neg = Vec::new();
    encode_i64(-2, &mut neg);
    assert_eq!(decode_i64(&neg, &mut 0), Ok(-2));
}

#[test]
fn frame_of_300_byte_payload() {
    let payload: Vec<u8> = (0..300u32).map(|i| i as u8).collect();
    let frame = write_packet(&RawPacket::new(0x42, payload.clone()));
    assert_eq!(&frame[0..2], &[0xad, 0x02]);
    assert_eq!(frame.len(), 2 + 301);
    assert_eq!(frame[2], 0x42);
    assert_eq!(&frame[3..], &payload[..]);
    let mut index = 0usize;
    let read = read_packet(&frame, &mut index).unwrap();
    assert_eq!(read.packet_id(), 0x42);
    assert_eq!(read.data(), &payload);
    assert_eq!(index, frame.len());
}

#[test]
fn frame_errors() {
    let mut index = 0usize;
    assert_eq!(read_packet(&vec![0x05, 0x01], &mut index).unwrap_err(), PacketStreamError::UnexpectedEnd);
    assert_eq!(read_packet(&vec![0x00], &mut 0).unwrap_err(), PacketStreamError::Malformed);
    assert_eq!(
        read_packet(&vec![0xff, 0xff, 0xff, 0xff, 0xff, 0x01], &mut 0).unwrap_err(),
        PacketStreamError::Malformed
    );
    assert_eq!(read_packet(&Vec::new(), &mut 0).unwrap_err(), PacketStreamError::UnexpectedEnd);
}

#[test]
fn id_name_round_trip_over_standard_table() {
    let map = PacketMap::standard().unwrap();
    for e in standard_entries() {
        for n in e.min_version..=e.max_version {
            let v = ProtocolVersion::from_version_number(n).unwrap();
            let id = map.get_packet_id(v, &e.name).unwrap();
            assert_eq!(id, e.id);
            assert_eq!(map.get_packet_name(v, e.state, e.recipient, id), Some(e.name.clone()));
        }
    }
}

#[test]
fn unknown_ids_and_names() {
    let map = PacketMap::standard().unwrap();
    let v = ProtocolVersion::V1_21_4;
    assert_eq!(map.get_packet_name(v, State::Play, PacketRecipient::Server, 0xff), None);
    assert_eq!(map.get_packet_name(v, State::Handshake, PacketRecipient::Server, 0x01), None);
    assert_eq!(
        map.get_packet_id(v, &"play/clientbound/minecraft:nothing".to_string()),
        Err(PacketMapError::NotFound)
    );
    let keep_alive = "play/clientbound/minecraft:keep_alive".to_string();
    assert_eq!(map.get_packet_id(ProtocolVersion::V1_21, &keep_alive), Ok(0x26));
    assert_eq!(map.get_packet_id(ProtocolVersion::V1_21_4, &keep_alive), Ok(0x27));
    assert_eq!(map.get_packet_id(ProtocolVersion::V1_18, &keep_alive), Err(PacketMapError::NotFound));
}

#[test]
fn conflicting_registrations_are_refused() {
    let dup_name = vec![
        PacketEntry::new("a", 1, State::Play, PacketRecipient::Client, 760, 769),
        PacketEntry::new("a", 2, State::Play, PacketRecipient::Client, 769, 769),
    ];
    assert_eq!(PacketMap::new(dup_name).err(), Some(PacketMapError::DuplicateName));
    let dup_id = vec![
        PacketEntry::new("a", 1, State::Play, PacketRecipient::Client, 760, 769),
        PacketEntry::new("b", 1, State::Play, PacketRecipient::Client, 765, 766),
    ];
    assert_eq!(PacketMap::new(dup_id).err(), Some(PacketMapError::DuplicateId));
    let disjoint = vec![
        PacketEntry::new("a", 1, State::Play, PacketRecipient::Client, 760, 764),
        PacketEntry::new("a", 1, State::Play, PacketRecipient::Client, 765, 766),
        PacketEntry::new("b", 1, State::Play, PacketRecipient::Server, 760, 769),
    ];
    assert!(PacketMap::new(disjoint).is_ok());
}

#[test]
fn state_transitions() {
    assert_eq!(State::default(), State::Handshake);
    assert!(can_transition(State::Handshake, State::Status));
    assert!(can_transition(State::Handshake, State::Login));
    assert!(can_transition(State::Login, State::Configuration));
    assert!(can_transition(State::Configuration, State::Play));
    assert!(!can_transition(State::Play, State::Configuration));
    assert!(!can_transition(State::Status, State::Login));
    assert!(!can_transition(State::Handshake, State::Play));
}

fn frame(id: u8, payload: &[u8]) -> Vec<u8> {
    write_packet(&RawPacket::new(id, payload.to_vec()))
}

#[test]
fn connection_lifecycle() {
    let mut client = Client::new(PacketMap::standard().unwrap());
    assert_eq!(*client.state(), State::Handshake);
    assert_eq!(client.protocol_version(), ProtocolVersion::V1_21_4);
    let hello = frame(0x00, &[1, 2]);
    let named = client.read_packet(&hello, &mut 0).unwrap();
    assert_eq!(named.name, "handshake/serverbound/minecraft:intention");
    assert_eq!(named.data, vec![1, 2]);

    client.set_protocol(ProtocolVersion::V1_21_4);
    client.update_state(State::Login);
    assert_eq!(*client.state(), State::Login);
    client.update_state(State::Configuration);
    assert_eq!(*client.state(), State::Configuration);

    let info = client.read_packet(&frame(0x00, &[]), &mut 0).unwrap();
    assert_eq!(info.name, "configuration/serverbound/minecraft:client_information");
    let mut index = 0usize;
    assert_eq!(
        client.read_packet(&frame(0x1a, &[0; 8]), &mut index).unwrap_err(),
        ClientReadPacketError::UnknownPacket(0x1a)
    );
    assert_eq!(index, 10);
    assert_eq!(client.send_keep_alive(), None);
    assert_eq!(client.keep_alive_frame(5), None);

    client.update_state(State::Play);
    let sent = client.send_keep_alive().unwrap();
    assert_eq!(sent.len(), 10);
    assert_eq!(&sent[0..2], &[0x09, 0x27]);
    assert_eq!(client.keep_alive_frame(5).unwrap(), vec![0x09, 0x27, 0, 0, 0, 0, 0, 0, 0, 5]);
    let ka = client.read_packet(&frame(0x1a, &[0; 8]), &mut 0).unwrap();
    assert_eq!(ka.name, "play/serverbound/minecraft:keep_alive");
}

#[test]
fn send_uses_negotiated_version() {
    let mut client = Client::new(PacketMap::standard().unwrap());
    let packet = ClientBoundKeepAlivePacket::new(-1);
    assert_eq!(client.send_packet(&packet).unwrap()[1], 0x27);
    client.set_protocol(ProtocolVersion::V1_21);
    assert_eq!(client.send_packet(&packet).unwrap()[1], 0x26);
    client.set_protocol(ProtocolVersion::V1_18);
    assert_eq!(client.send_packet(&packet), None);
}

#[test]
fn keep_alive_packet_encoding() {
    let packet = ClientBoundKeepAlivePacket::new(258);
    assert_eq!(packet.encode().unwrap(), vec![0, 0, 0, 0, 0, 0, 1, 2]);
    assert_eq!(packet.get_packet_name(), "play/clientbound/minecraft:keep_alive");
    let raw = RawPacket::from_packet(7, &packet).unwrap();
    assert_eq!(raw.packet_id(), 7);
    assert_eq!(raw.data(), &vec![0, 0, 0, 0, 0, 0, 1, 2]);
}

#[test]
fn listener_handler_keeps_callback() {
    let handler: ListenerHandler<ClientBoundKeepAlivePacket, fn(i32) -> i32> =
        ListenerHandler::new(|x| x + 1);
    assert_eq!((handler.listener_fn())(2), 3);
}

#[test]
fn standard_registry_holds_the_table() {
    let entries = standard_entries();
    assert_eq!(entries.len(), mc_protocol::packet_map::STANDARD_LEN);
    assert!(PacketMap::new(entries).is_ok());
}

#[test]
fn session_name_lookup_is_scoped_by_state() {
    let mut client = Client::new(PacketMap::standard().unwrap());
    assert_eq!(
        client.get_packet_name_from_id(0x00),
        Some("handshake/serverbound/minecraft:intention".to_string())
    );
    assert_eq!(client.get_packet_name_from_id(0x03), None);
    client.update_state(State::Login);
    assert_eq!(
        client.get_packet_name_from_id(0x03),
        Some("login/serverbound/minecraft:login_acknowledged".to_string())
    );
    assert_eq!(client.get_packet_name_from_id(0x04), None);
}
