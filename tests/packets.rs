use mc_protocol::chunk::{BitSet, BlockEntity, ChunkDataAndUpdateLightPacket, Light, Nbt, NbtEncodeError};
use mc_protocol::client::NamedPacket;
use mc_protocol::codec::{encode_length_padded, DecodePacket, EncodePacket, PacketId};
use mc_protocol::event_handler::decode_packet;
use mc_protocol::packets::{
    EmptyPacket, GameEvent, GameEventPacket, HandshakePacket, LoginStartPacket, RegistryDataPacket, RegistryEntry,
    StatusResponsePacket,
};
use mc_protocol::primitives::{decode_prefixed, decode_string, encode_string, DecodeError};

#[test]
fn game_event_ids_and_encoding() {
    assert_eq!(GameEvent::StartWaitingForChunks.get_event_id(), 13);
    let packet = GameEventPacket::start_waiting_for_chunks(1.0f32.to_bits());
    assert_eq!(packet.event, 13);
    assert_eq!(packet.encode().unwrap(), vec![13, 0x3f, 0x80, 0, 0]);
    assert_eq!(packet.get_packet_name(), "play/clientbound/minecraft:game_event");
}

#[test]
fn status_response_is_prefixed_string() {
    let packet = StatusResponsePacket::new("{\"a\":1}".to_string());
    let bytes = packet.encode().unwrap();
    assert_eq!(bytes[0], 7);
    assert_eq!(&bytes[1..], b"{\"a\":1}");
    assert_eq!(packet.json_response(), "{\"a\":1}");
    assert_eq!(packet.get_packet_name(), "status/clientbound/minecraft:status_response");
}

#[test]
fn string_codec_round_trip() {
    let mut bytes = Vec::new();
    encode_string(&"héllo".to_string(), &mut bytes).unwrap();
    assert_eq!(bytes[0], 6);
    let mut index = 0usize;
    assert_eq!(decode_string(&bytes, &mut index), Ok("héllo".to_string()));
    assert_eq!(index, 7);
    let invalid = vec![2, 0xff, 0xfe];
    assert_eq!(decode_string(&invalid, &mut 0), Err(DecodeError::Malformed));
    assert_eq!(decode_prefixed(&vec![3, 1], &mut 0), Err(DecodeError::UnexpectedEnd));
    assert_eq!(decode_prefixed(&vec![0xff, 0xff, 0xff, 0xff, 0x0f], &mut 0), Err(DecodeError::Malformed));
}

fn login_bytes() -> Vec<u8> {
    let mut bytes = vec![5];
    bytes.extend_from_slice(b"Steve");
    bytes.extend_from_slice(&[0x11; 8]);
    bytes.extend_from_slice(&[0x22; 8]);
    bytes
}

#[test]
fn login_start_decodes() {
    let packet = LoginStartPacket::decode(&login_bytes()).unwrap();
    assert_eq!(packet.name, "Steve");
    assert_eq!(packet.player_uuid, 0x1111111111111111_2222222222222222u128);
    let short = login_bytes()[..20].to_vec();
    assert_eq!(LoginStartPacket::decode(&short).unwrap_err(), DecodeError::UnexpectedEnd);
}

#[test]
fn decode_named_packet_payload() {
    let named = NamedPacket { name: "login/serverbound/minecraft:hello".to_string(), data: login_bytes() };
    let packet: LoginStartPacket = decode_packet(named);
    assert_eq!(packet.name, "Steve");
}

#[test]
fn registry_data_encoding() {
    let packet = RegistryDataPacket {
        registry_id: "a:b".to_string(),
        entries: vec![
            RegistryEntry { entry_id: "x".to_string(), data: None },
            RegistryEntry { entry_id: "y".to_string(), data: Some(Nbt::from_bytes(vec![10, 0])) },
        ],
    };
    assert_eq!(
        packet.encode().unwrap(),
        vec![3, b'a', b':', b'b', 2, 1, b'x', 0, 1, b'y', 1, 10, 0]
    );
    assert_eq!(packet.get_packet_name(), "configuration/clientbound/minecraft:registry_data");
}

#[test]
fn nbt_is_written_without_prefix() {
    let nbt = Nbt::from_bytes(vec![10, 0, 0]);
    let mut bytes = vec![9];
    assert!(nbt.encode(&mut bytes).is_ok());
    assert_eq!(bytes, vec![9, 10, 0, 0]);
    assert_ne!(NbtEncodeError::Io, NbtEncodeError::Infallible);
}

#[test]
fn bit_set_layout() {
    let set = BitSet { words: vec![0b101, 1u64 << 63] };
    assert!(set.get(0));
    assert!(!set.get(1));
    assert!(set.get(2));
    assert!(set.get(127));
    assert!(!set.get(64));
    assert!(!set.get(500));
    let bytes = set.encode().unwrap();
    assert_eq!(bytes.len(), 1 + 16);
    assert_eq!(bytes[0], 2);
    assert_eq!(&bytes[1..9], &[0, 0, 0, 0, 0, 0, 0, 5]);
    assert_eq!(bytes[9], 0x80);
    assert_eq!(BitSet::new().encode().unwrap(), vec![0]);
}

#[test]
fn light_and_block_entity_encoding() {
    let light = Light { block_light_array: vec![-1, 2, 0] };
    assert_eq!(light.encode().unwrap(), vec![3, 0xff, 2, 0]);
    assert_eq!(BlockEntity {}.encode().unwrap(), Vec::<u8>::new());
    let mut bytes = Vec::new();
    encode_length_padded(&vec![light.clone(), light], &mut bytes).unwrap();
    assert_eq!(bytes, vec![2, 3, 0xff, 2, 0, 3, 0xff, 2, 0]);
}

#[test]
fn chunk_packet_encoding() {
    let packet = ChunkDataAndUpdateLightPacket::new(1, -1, Nbt::from_bytes(vec![10, 0]), vec![7, 7, 7]);
    assert_eq!(packet.size, 3);
    let bytes = packet.encode().unwrap();
    assert_eq!(
        bytes,
        vec![0, 0, 0, 1, 0xff, 0xff, 0xff, 0xff, 10, 0, 3, 7, 7, 7, 0, 0, 0, 0, 0, 0, 0]
    );
    assert_eq!(packet.get_packet_name(), "play/clientbound/minecraft:level_chunk_with_light");
}

#[test]
fn handshake_decodes() {
    let mut bytes = vec![0x81, 0x06, 9];
    bytes.extend_from_slice(b"localhost");
    bytes.extend_from_slice(&[0x63, 0xdd, 2]);
    let packet = HandshakePacket::decode(&bytes).unwrap();
    assert_eq!(packet.protocol_version, 769);
    assert_eq!(packet.server_address, "localhost");
    assert_eq!(packet.server_port, 25565);
    assert_eq!(packet.next_state, 2);
    assert_eq!(HandshakePacket::decode(&bytes[..12].to_vec()).unwrap_err(), DecodeError::UnexpectedEnd);
    assert_eq!(EmptyPacket::decode(&vec![1, 2]).unwrap(), EmptyPacket {});
}
