//! Network-protocol core of a game server: wire codecs, packet framing,
//! version-scoped packet identities and the per-connection state machine.
use vstd::prelude::*;

pub mod chunk;
pub mod client;
pub mod codec;
pub mod event_handler;
pub mod framing;
pub mod packet_map;
pub mod packets;
pub mod position;
pub mod primitives;
pub mod protocol_version;
pub mod state;
pub mod varint;

verus! {

} // verus!
