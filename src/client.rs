//! One client's session: its state, negotiated version and identity, and
//! the decisions of reading and sending packets. The socket belongs to the
//! caller, which hands in the bytes received and writes out the frames
//! returned.
use vstd::prelude::*;
use crate::codec::{EncodePacket, PacketId};
use crate::framing::{
    FrameRead, PacketStreamError, RawPacket, frame_read_spec, frame_spec, read_packet,
    write_packet,
};
use crate::packet_map::{PacketMap, lemma_name_unique};
use crate::packets::{ClientBoundKeepAlivePacket, keep_alive_name, keep_alive_payload};
use crate::protocol_version::{ProtocolVersion, default_version};
use crate::state::{PacketRecipient, State, legal_transition};

verus! {

/// The identity a connection has once login succeeded.
#[derive(Clone, Debug)]
pub struct GameProfile {
    pub uuid: u128,
    pub name: String,
}

/// A received packet after its id has been resolved to a name.
#[derive(Clone, Debug)]
pub struct NamedPacket {
    pub name: String,
    pub data: Vec<u8>,
}

/// Why no named packet could be read.
#[derive(Debug, Clone, Copy, PartialEq, Eq, Structural)]
pub enum ClientReadPacketError {
    /// The frame itself could not be read.
    PacketStream(PacketStreamError),
    /// The frame's id is not registered in the current scope.
    UnknownPacket(u8),
}

/// Whether a payload of this size can be framed.
pub open spec fn frameable(b: Seq<u8>) -> bool {
    b.len() + 1 <= i32::MAX
}

/// Whether a packet encodes to a payload that can be framed.
pub open spec fn payload_frameable<P: EncodePacket>(packet: &P) -> bool {
    match packet.encoded() {
        Some(b) => frameable(b),
        None => false,
    }
}

/// One connection's session.
pub struct Client {
    state: State,
    packet_map: PacketMap,
    game_profile: Option<GameProfile>,
    version: Option<ProtocolVersion>,
}

impl Client {
    /// The registry a session resolves names by is well-formed.
    #[verifier::type_invariant]
    spec fn inv(&self) -> bool {
        self.packet_map.wf()
    }

    pub closed spec fn spec_state(&self) -> State {
        self.state
    }

    pub closed spec fn spec_packet_map(&self) -> PacketMap {
        self.packet_map
    }

    pub closed spec fn spec_game_profile(&self) -> Option<GameProfile> {
        self.game_profile
    }

    pub closed spec fn spec_version(&self) -> Option<ProtocolVersion> {
        self.version
    }

    /// The version in force: the negotiated one, else the default.
    pub open spec fn effective_version(&self) -> ProtocolVersion {
        match self.spec_version() {
            Some(v) => v,
            None => default_version(),
        }
    }

    /// A new session, in `Handshake`, with no version and no identity.
    pub fn new(packet_map: PacketMap) -> (r: Self)
        requires
            packet_map.wf(),
        ensures
            r.spec_state() == State::Handshake,
            r.spec_packet_map() == packet_map,
            r.spec_game_profile() is None,
            r.spec_version() is None,
    {
        Client { state: State::Handshake, packet_map, game_profile: None, version: None }
    }

    /// Reads the next frame at `*index` and names it by the current version,
    /// state and the server as recipient.
    pub fn read_packet(&self, bytes: &Vec<u8>, index: &mut usize) -> (r: Result<
        NamedPacket,
        ClientReadPacketError,
    >)
        ensures
            match frame_read_spec(bytes@, *old(index) as int) {
                FrameRead::Done(id, payload, n) => {
                    &&& *final(index) == *old(index) + n
                    &&& r matches Ok(p) ==> p.data@ == payload && self.spec_packet_map().has_name(
                        self.effective_version().number(),
                        self.spec_state(),
                        PacketRecipient::Server,
                        id,
                        p.name@,
                    )
                    &&& r is Err <==> forall|nm: Seq<char>|
                        !self.spec_packet_map().has_name(
                            self.effective_version().number(),
                            self.spec_state(),
                            PacketRecipient::Server,
                            id,
                            nm,
                        )
                    &&& r is Err ==> r == Err::<NamedPacket, ClientReadPacketError>(
                        ClientReadPacketError::UnknownPacket(id),
                    )
                },
                FrameRead::End => r == Err::<NamedPacket, ClientReadPacketError>(
                    ClientReadPacketError::PacketStream(PacketStreamError::UnexpectedEnd),
                ),
                FrameRead::Malformed => r == Err::<NamedPacket, ClientReadPacketError>(
                    ClientReadPacketError::PacketStream(PacketStreamError::Malformed),
                ),
            },
    {
        let packet = match read_packet(bytes, index) {
            Ok(p) => p,
            Err(e) => {
                return Err(ClientReadPacketError::PacketStream(e));
            },
        };
        let packet_id = packet.packet_id();
        match self.get_packet_name_from_id(packet_id) {
            Some(packet_name) => Ok(NamedPacket { name: packet_name, data: packet.data }),
            None => Err(ClientReadPacketError::UnknownPacket(packet_id)),
        }
    }

    /// Moves the session to `new_state`, which must be a legal next state.
    pub fn update_state(&mut self, new_state: State)
        requires
            legal_transition(old(self).spec_state(), new_state),
        ensures
            final(self).spec_state() == new_state,
            final(self).spec_packet_map() == old(self).spec_packet_map(),
            final(self).spec_game_profile() == old(self).spec_game_profile(),
            final(self).spec_version() == old(self).spec_version(),
    {
        proof {
            use_type_invariant(&*self);
        }
        self.state = new_state;
    }

    /// The frame that sends `packet`, with the id its name has at the
    /// version in force; nothing when the name is unmapped there or the
    /// payload cannot be encoded or framed (the packet is then dropped).
    pub fn send_packet<P: EncodePacket + PacketId>(&self, packet: &P) -> (r: Option<Vec<u8>>)
        ensures
            r matches Some(f) ==> exists|id: u8|
                {
                    &&& self.spec_packet_map().has_id(
                        self.effective_version().number(),
                        packet.packet_name(),
                        id,
                    )
                    &&& packet.encoded() matches Some(b)
                    &&& f@ == frame_spec(id, b)
                },
            r is None <==> {
                ||| forall|id: u8|
                    !self.spec_packet_map().has_id(
                        self.effective_version().number(),
                        packet.packet_name(),
                        id,
                    )
                ||| !payload_frameable(packet)
            },
    {
        let version = self.protocol_version();
        let name = packet.get_packet_name();
        let packet_id = match self.packet_map.get_packet_id(version, &name) {
            Ok(id) => id,
            Err(_) => {
                return None;
            },
        };
        assert(self.spec_packet_map().has_id(
            self.effective_version().number(),
            packet.packet_name(),
            packet_id,
        ));
        let raw_packet = match RawPacket::from_packet(packet_id, packet) {
            Ok(raw) => raw,
            Err(_) => {
                return None;
            },
        };
        if raw_packet.data.len() >= i32::MAX as usize {
            return None;
        }
        Some(write_packet(&raw_packet))
    }

    pub fn state(&self) -> (r: &State)
        ensures
            *r == self.spec_state(),
    {
        &self.state
    }

    /// In `Play`, the frame of a keep-alive packet carrying a fresh random
    /// value; nothing in any other state.
    pub fn send_keep_alive(&self) -> (r: Option<Vec<u8>>)
        ensures
            self.spec_state() != State::Play ==> r is None,
            self.spec_state() == State::Play ==> {
                &&& r is Some <==> exists|id: u8|
                    self.spec_packet_map().has_id(
                        self.effective_version().number(),
                        keep_alive_name(),
                        id,
                    )
                &&& r matches Some(f) ==> exists|id: u8, value: i64|
                    self.spec_packet_map().has_id(
                        self.effective_version().number(),
                        keep_alive_name(),
                        id,
                    ) && f@ == #[trigger] frame_spec(id, keep_alive_payload(value))
            },
    {
        if self.state == State::Play {
            let value = get_random();
            self.keep_alive_frame(value)
        } else {
            None
        }
    }

    /// The frame of a keep-alive packet carrying `value`, when the session is
    /// in `Play` and the packet has an id at the version in force.
    pub fn keep_alive_frame(&self, value: i64) -> (r: Option<Vec<u8>>)
        ensures
            self.spec_state() != State::Play ==> r is None,
            self.spec_state() == State::Play ==> {
                &&& r is Some <==> exists|id: u8|
                    self.spec_packet_map().has_id(
                        self.effective_version().number(),
                        keep_alive_name(),
                        id,
                    )
                &&& r matches Some(f) ==> exists|id: u8|
                    self.spec_packet_map().has_id(
                        self.effective_version().number(),
                        keep_alive_name(),
                        id,
                    ) && f@ == frame_spec(id, keep_alive_payload(value))
            },
    {
        if self.state == State::Play {
            let packet = ClientBoundKeepAlivePacket::new(value);
            let r = self.send_packet(&packet);
            proof {
                assert(keep_alive_payload(value).len() == 8);
                assert(payload_frameable(&packet));
                assert(packet.packet_name() == keep_alive_name());
            }
            r
        } else {
            None
        }
    }

    /// Records the identity; it is set once, after login.
    pub fn set_game_profile(&mut self, profile: GameProfile)
        requires
            old(self).spec_game_profile() is None,
        ensures
            final(self).spec_game_profile() == Some(profile),
            final(self).spec_state() == old(self).spec_state(),
            final(self).spec_packet_map() == old(self).spec_packet_map(),
            final(self).spec_version() == old(self).spec_version(),
    {
        proof {
            use_type_invariant(&*self);
        }
        self.game_profile = Some(profile);
    }

    pub fn game_profile(&self) -> (r: Option<&GameProfile>)
        ensures
            r matches Some(p) ==> self.spec_game_profile() == Some(*p),
            r is None <==> self.spec_game_profile() is None,
    {
        match &self.game_profile {
            Some(p) => Some(p),
            None => None,
        }
    }

    /// Records the negotiated protocol version.
    pub fn set_protocol(&mut self, protocol_version: ProtocolVersion)
        ensures
            final(self).spec_version() == Some(protocol_version),
            final(self).spec_state() == old(self).spec_state(),
            final(self).spec_packet_map() == old(self).spec_packet_map(),
            final(self).spec_game_profile() == old(self).spec_game_profile(),
    {
        proof {
            use_type_invariant(&*self);
        }
        self.version = Some(protocol_version);
    }

    /// The version in force.
    pub fn protocol_version(&self) -> (r: ProtocolVersion)
        ensures
            r == self.effective_version(),
    {
        match self.version {
            Some(v) => v,
            None => ProtocolVersion::default(),
        }
    }

    /// The name registered under `packet_id` for the version in force, the
    /// current state and the server as recipient; nothing when none is.
    pub fn get_packet_name_from_id(&self, packet_id: u8) -> (r: Option<String>)
        ensures
            self.spec_packet_map().wf(),
            forall|n: Seq<char>|
                self.spec_packet_map().has_name(
                    self.effective_version().number(),
                    self.spec_state(),
                    PacketRecipient::Server,
                    packet_id,
                    n,
                ) ==> (r matches Some(x) && x@ == n),
            r matches Some(n) ==> self.spec_packet_map().has_name(
                self.effective_version().number(),
                self.spec_state(),
                PacketRecipient::Server,
                packet_id,
                n@,
            ),
            r is None <==> forall|n: Seq<char>|
                !self.spec_packet_map().has_name(
                    self.effective_version().number(),
                    self.spec_state(),
                    PacketRecipient::Server,
                    packet_id,
                    n,
                ),
    {
        let r = self.packet_map.get_packet_name(
            self.protocol_version(),
            self.state,
            PacketRecipient::Server,
            packet_id,
        );
        proof {
            use_type_invariant(self);
            assert forall|n: Seq<char>|
                self.spec_packet_map().has_name(
                    self.effective_version().number(),
                    self.spec_state(),
                    PacketRecipient::Server,
                    packet_id,
                    n,
                ) implies (r matches Some(x) && x@ == n) by {
                lemma_name_unique(
                    self.packet_map,
                    self.effective_version().number(),
                    self.state,
                    PacketRecipient::Server,
                    packet_id,
                    n,
                    r.unwrap()@,
                );
            }
            if r is Some {
                assert(self.spec_packet_map().has_name(
                    self.effective_version().number(),
                    self.spec_state(),
                    PacketRecipient::Server,
                    packet_id,
                    r.unwrap()@,
                ));
            }
        }
        r
    }
}

/// Relies on rand's thread-local generator (`rand::rng`, `Rng::random`) for
/// a fresh 64-bit value; nothing is assumed of the value.
#[verifier::external_body]
fn get_random() -> (r: i64) {
    let mut rng = rand::rng();
    rand::Rng::random(&mut rng)
}

} // verus!
