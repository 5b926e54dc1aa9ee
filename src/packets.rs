//! Packets that the connection core itself sends.
use vstd::prelude::*;
use vstd::utf8::{decode_utf8, valid_utf8};
use crate::chunk::Nbt;
use crate::codec::{DecodePacket, EncodeError, EncodePacket, PacketId, encode_length_padded, length_padded, append_vec};
use crate::varint::{VarIntRead, decode_var_int, var_int_decode_spec};
use crate::primitives::{
    DecodeError, PrefixedRead, be_bytes_u32, be_bytes_u64, be_u64_at, decode_string, decode_u64,
    encode_i64, encode_string, encode_u32, prefixed_read_spec, string_bytes, string_encodable,
};

verus! {

/// Sent in `Play` to check that the client is still there.
#[derive(Debug, Clone, Copy, PartialEq, Eq, Structural)]
pub struct ClientBoundKeepAlivePacket {
    pub id: i64,
}

impl ClientBoundKeepAlivePacket {
    pub fn new(id: i64) -> (r: Self)
        ensures
            r.id == id,
    {
        Self { id }
    }
}

/// The symbolic name of the client-bound keep-alive packet.
pub open spec fn keep_alive_name() -> Seq<char> {
    "play/clientbound/minecraft:keep_alive"@
}

/// The payload of a keep-alive packet: its value, eight bytes big-endian.
pub open spec fn keep_alive_payload(value: i64) -> Seq<u8> {
    be_bytes_u64(value as u64)
}

impl EncodePacket for ClientBoundKeepAlivePacket {
    open spec fn encoded(&self) -> Option<Seq<u8>> {
        Some(keep_alive_payload(self.id))
    }

    fn encode(&self) -> (r: Result<Vec<u8>, EncodeError>) {
        let mut bytes: Vec<u8> = Vec::new();
        encode_i64(self.id, &mut bytes);
        assert(bytes@ =~= be_bytes_u64(self.id as u64));
        Ok(bytes)
    }
}

impl PacketId for ClientBoundKeepAlivePacket {
    open spec fn packet_name(&self) -> Seq<char> {
        keep_alive_name()
    }

    fn get_packet_name(&self) -> (r: String) {
        "play/clientbound/minecraft:keep_alive".to_owned()
    }
}

/// The kinds of game event the server announces.
pub enum GameEvent {
    StartWaitingForChunks,
}

impl GameEvent {
    pub open spec fn event_id(&self) -> u8 {
        match self {
            GameEvent::StartWaitingForChunks => 13,
        }
    }

    pub fn get_event_id(&self) -> (r: u8)
        ensures
            r == self.event_id(),
    {
        match self {
            GameEvent::StartWaitingForChunks => 13,
        }
    }
}

/// A game event with its value, held as the bits of a 32-bit IEEE float.
#[derive(Debug, Clone, Copy, PartialEq, Eq, Structural)]
pub struct GameEventPacket {
    pub event: u8,
    pub value_bits: u32,
}

impl GameEventPacket {
    /// Tells the client to wait for chunks; `value_bits` are the bits of the
    /// event's float value.
    pub fn start_waiting_for_chunks(value_bits: u32) -> (r: Self)
        ensures
            r.event == GameEvent::StartWaitingForChunks.event_id(),
            r.value_bits == value_bits,
    {
        Self { event: GameEvent::StartWaitingForChunks.get_event_id(), value_bits }
    }
}

impl EncodePacket for GameEventPacket {
    open spec fn encoded(&self) -> Option<Seq<u8>> {
        Some(seq![self.event] + be_bytes_u32(self.value_bits))
    }

    fn encode(&self) -> (r: Result<Vec<u8>, EncodeError>) {
        let mut bytes: Vec<u8> = Vec::new();
        bytes.push(self.event);
        encode_u32(self.value_bits, &mut bytes);
        assert(bytes@ =~= seq![self.event] + be_bytes_u32(self.value_bits));
        Ok(bytes)
    }
}

impl PacketId for GameEventPacket {
    open spec fn packet_name(&self) -> Seq<char> {
        "play/clientbound/minecraft:game_event"@
    }

    fn get_packet_name(&self) -> (r: String) {
        "play/clientbound/minecraft:game_event".to_owned()
    }
}

/// The answer to a status request: a JSON document.
#[derive(Debug, Clone)]
pub struct StatusResponsePacket {
    json_response: String,
}

impl StatusResponsePacket {
    pub closed spec fn json(&self) -> Seq<char> {
        self.json_response@
    }

    pub fn new(json_response: String) -> (r: Self)
        ensures
            r.json() == json_response@,
    {
        StatusResponsePacket { json_response }
    }

    pub fn json_response(&self) -> (r: &String)
        ensures
            r@ == self.json(),
    {
        &self.json_response
    }
}

impl EncodePacket for StatusResponsePacket {
    open spec fn encoded(&self) -> Option<Seq<u8>> {
        if string_encodable(self.json()) {
            Some(string_bytes(self.json()))
        } else {
            None
        }
    }

    fn encode(&self) -> (r: Result<Vec<u8>, EncodeError>) {
        let mut bytes: Vec<u8> = Vec::new();
        encode_string(&self.json_response, &mut bytes)?;
        assert(bytes@ =~= string_bytes(self.json()));
        Ok(bytes)
    }
}

impl PacketId for StatusResponsePacket {
    open spec fn packet_name(&self) -> Seq<char> {
        "status/clientbound/minecraft:status_response"@
    }

    fn get_packet_name(&self) -> (r: String) {
        "status/clientbound/minecraft:status_response".to_owned()
    }
}

/// The client's first login packet: its player name and UUID.
#[derive(Debug, Clone)]
pub struct LoginStartPacket {
    pub name: String,
    pub player_uuid: u128,
}

/// A UUID: sixteen big-endian bytes at `i`.
pub open spec fn be_u128_at(s: Seq<u8>, i: int) -> u128 {
    ((be_u64_at(s, i) as u128) << 64u128) | (be_u64_at(s, i + 8) as u128)
}

impl View for LoginStartPacket {
    type V = (Seq<char>, u128);

    open spec fn view(&self) -> (Seq<char>, u128) {
        (self.name@, self.player_uuid)
    }
}

impl DecodePacket for LoginStartPacket {
    open spec fn decodable(bytes: Seq<u8>) -> bool {
        match prefixed_read_spec(bytes, 0) {
            PrefixedRead::Done(b, n) => valid_utf8(b) && n + 16 <= bytes.len(),
            _ => false,
        }
    }

    open spec fn decoded(bytes: Seq<u8>) -> (Seq<char>, u128) {
        match prefixed_read_spec(bytes, 0) {
            PrefixedRead::Done(b, n) => (decode_utf8(b), be_u128_at(bytes, n as int)),
            _ => (Seq::empty(), 0),
        }
    }

    fn decode(bytes: &Vec<u8>) -> (r: Result<Self, DecodeError>) {
        let mut index: usize = 0;
        let name = decode_string(bytes, &mut index)?;
        let hi = decode_u64(bytes, &mut index)?;
        let lo = decode_u64(bytes, &mut index)?;
        Ok(LoginStartPacket { name, player_uuid: ((hi as u128) << 64u128) | (lo as u128) })
    }
}

/// One entry of a registry: its identifier and, optionally, its data.
#[derive(Debug, Clone)]
pub struct RegistryEntry {
    pub entry_id: String,
    pub data: Option<Nbt>,
}

impl EncodePacket for RegistryEntry {
    open spec fn encoded(&self) -> Option<Seq<u8>> {
        if string_encodable(self.entry_id@) {
            Some(
                string_bytes(self.entry_id@) + match self.data {
                    Some(n) => seq![1u8] + n.bytes@,
                    None => seq![0u8],
                },
            )
        } else {
            None
        }
    }

    fn encode(&self) -> (r: Result<Vec<u8>, EncodeError>) {
        let mut bytes: Vec<u8> = Vec::new();
        encode_string(&self.entry_id, &mut bytes)?;
        let ghost head = bytes@;
        match &self.data {
            Some(n) => {
                bytes.push(1u8);
                append_vec(&n.bytes, &mut bytes);
                assert(bytes@ =~= head + (seq![1u8] + n.bytes@));
            },
            None => {
                bytes.push(0u8);
                assert(bytes@ =~= head + seq![0u8]);
            },
        }
        Ok(bytes)
    }
}

/// The contents of one registry, sent during configuration.
#[derive(Debug, Clone)]
pub struct RegistryDataPacket {
    pub registry_id: String,
    pub entries: Vec<RegistryEntry>,
}

impl EncodePacket for RegistryDataPacket {
    open spec fn encoded(&self) -> Option<Seq<u8>> {
        if string_encodable(self.registry_id@) {
            match length_padded(self.entries@) {
                Some(b) => Some(string_bytes(self.registry_id@) + b),
                None => None,
            }
        } else {
            None
        }
    }

    fn encode(&self) -> (r: Result<Vec<u8>, EncodeError>) {
        let mut bytes: Vec<u8> = Vec::new();
        encode_string(&self.registry_id, &mut bytes)?;
        encode_length_padded(&self.entries, &mut bytes)?;
        Ok(bytes)
    }
}

impl PacketId for RegistryDataPacket {
    open spec fn packet_name(&self) -> Seq<char> {
        "configuration/clientbound/minecraft:registry_data"@
    }

    fn get_packet_name(&self) -> (r: String) {
        "configuration/clientbound/minecraft:registry_data".to_owned()
    }
}

/// The client's opening packet: the protocol number it speaks, the address
/// it dialled, and the state it asks for next (1 status, 2 login).
#[derive(Debug, Clone)]
pub struct HandshakePacket {
    pub protocol_version: i32,
    pub server_address: String,
    pub server_port: u16,
    pub next_state: i32,
}

/// Reads a variable-length integer as a decoding step.
fn read_var_int(bytes: &Vec<u8>, index: &mut usize) -> (r: Result<i32, DecodeError>)
    ensures
        match var_int_decode_spec(bytes@, *old(index) as int) {
            VarIntRead::Done(v, n) => r == Ok::<i32, DecodeError>(v as u32 as i32) && *final(index)
                == *old(index) + n,
            VarIntRead::End => r == Err::<i32, DecodeError>(DecodeError::UnexpectedEnd),
            VarIntRead::TooLong => r == Err::<i32, DecodeError>(DecodeError::Malformed),
        },
{
    match decode_var_int(bytes, index) {
        Ok(v) => Ok(v),
        Err(crate::varint::VarIntError::UnexpectedEnd) => Err(DecodeError::UnexpectedEnd),
        Err(crate::varint::VarIntError::TooLong) => Err(DecodeError::Malformed),
    }
}

/// The fields of a handshake as read from `bytes`, when they are all there.
pub open spec fn handshake_fields(bytes: Seq<u8>) -> Option<(i32, Seq<char>, u16, i32)> {
    match var_int_decode_spec(bytes, 0) {
        VarIntRead::Done(pv, n1) => match prefixed_read_spec(bytes, n1 as int) {
            PrefixedRead::Done(b, n2) => {
                let p = (n1 + n2) as int;
                if valid_utf8(b) && p + 2 <= bytes.len() {
                    match var_int_decode_spec(bytes, p + 2) {
                        VarIntRead::Done(ns, _) => Some(
                            (
                                pv as u32 as i32,
                                decode_utf8(b),
                                (bytes[p] * 256 + bytes[p + 1]) as u16,
                                ns as u32 as i32,
                            ),
                        ),
                        _ => None,
                    }
                } else {
                    None
                }
            },
            _ => None,
        },
        _ => None,
    }
}

impl View for HandshakePacket {
    type V = (i32, Seq<char>, u16, i32);

    open spec fn view(&self) -> (i32, Seq<char>, u16, i32) {
        (self.protocol_version, self.server_address@, self.server_port, self.next_state)
    }
}

impl DecodePacket for HandshakePacket {
    open spec fn decodable(bytes: Seq<u8>) -> bool {
        handshake_fields(bytes) is Some
    }

    open spec fn decoded(bytes: Seq<u8>) -> (i32, Seq<char>, u16, i32) {
        handshake_fields(bytes)->Some_0
    }

    fn decode(bytes: &Vec<u8>) -> (r: Result<Self, DecodeError>) {
        let mut index: usize = 0;
        let protocol_version = read_var_int(bytes, &mut index)?;
        let server_address = decode_string(bytes, &mut index)?;
        if index >= bytes.len() || bytes.len() - index < 2 {
            return Err(DecodeError::UnexpectedEnd);
        }
        let server_port: u16 = (bytes[index] as u16) * 256 + bytes[index + 1] as u16;
        index = index + 2;
        let next_state = read_var_int(bytes, &mut index)?;
        Ok(HandshakePacket { protocol_version, server_address, server_port, next_state })
    }
}

/// A packet whose arrival alone matters: it carries no fields.
#[derive(Debug, Clone, Copy, PartialEq, Eq, Structural)]
pub struct EmptyPacket {}

impl View for EmptyPacket {
    type V = ();

    open spec fn view(&self) -> () {
        ()
    }
}

impl DecodePacket for EmptyPacket {
    open spec fn decodable(bytes: Seq<u8>) -> bool {
        true
    }

    open spec fn decoded(bytes: Seq<u8>) -> () {
        ()
    }

    fn decode(bytes: &Vec<u8>) -> (r: Result<Self, DecodeError>) {
        Ok(EmptyPacket {})
    }
}

} // verus!
