//! The identity map: numeric packet ids and symbolic packet names, scoped by
//! protocol version, connection state and recipient.
use vstd::prelude::*;
use crate::protocol_version::ProtocolVersion;
use crate::state::{PacketRecipient, State};

verus! {

/// One registration: `name` has id `id` in `state`, sent to `recipient`,
/// for protocol numbers `min_version..=max_version`.
#[derive(Clone, Debug)]
pub struct PacketEntry {
    pub name: String,
    pub id: u8,
    pub state: State,
    pub recipient: PacketRecipient,
    pub min_version: u32,
    pub max_version: u32,
}

impl PacketEntry {
    pub fn new(
        name: &str,
        id: u8,
        state: State,
        recipient: PacketRecipient,
        min_version: u32,
        max_version: u32,
    ) -> (r: Self)
        ensures
            r.name@ == name@,
            r.id == id,
            r.state == state,
            r.recipient == recipient,
            r.min_version == min_version,
            r.max_version == max_version,
    {
        PacketEntry { name: name.to_owned(), id, state, recipient, min_version, max_version }
    }
}

/// Why a lookup or a registration failed.
#[derive(Debug, Clone, Copy, PartialEq, Eq, Structural)]
pub enum PacketMapError {
    /// No id is registered for the name at that version.
    NotFound,
    /// Two registrations at a common version share a name.
    DuplicateName,
    /// Two registrations at a common version, state and recipient share an id.
    DuplicateId,
}

/// Whether `e` is registered at protocol number `v`.
pub open spec fn entry_applies(e: PacketEntry, v: u32) -> bool {
    e.min_version <= v <= e.max_version
}

/// Two registrations, given as name, id, state, recipient and version
/// range, that hold at a common version differ in name, and in id where
/// state and recipient agree.
pub open spec fn views_compatible(
    a: (Seq<char>, u8, State, PacketRecipient, u32, u32),
    b: (Seq<char>, u8, State, PacketRecipient, u32, u32),
) -> bool {
    (a.4 <= b.5 && b.4 <= a.5) ==> {
        &&& a.0 != b.0
        &&& (a.2 == b.2 && a.3 == b.3) ==> a.1 != b.1
    }
}

/// Two registrations that hold at a common version differ in name, and in
/// id where state and recipient agree.
pub open spec fn entries_compatible(a: PacketEntry, b: PacketEntry) -> bool {
    views_compatible(entry_view(a), entry_view(b))
}

/// Within each (version, state, recipient), ids and names are in one-to-one
/// correspondence.
pub open spec fn entries_wf(es: Seq<PacketEntry>) -> bool {
    forall|i: int, j: int|
        0 <= i < j < es.len() ==> #[trigger] entries_compatible(es[i], es[j])
}

/// A read-only registry of packet identities.
#[derive(Clone, Debug)]
pub struct PacketMap {
    entries: Vec<PacketEntry>,
}

impl PacketMap {
    pub closed spec fn view(&self) -> Seq<PacketEntry> {
        self.entries@
    }

    pub open spec fn wf(&self) -> bool {
        entries_wf(self@)
    }

    /// Whether `name` is registered with id `id` at protocol number `v`.
    pub open spec fn has_id(&self, v: u32, name: Seq<char>, id: u8) -> bool {
        exists|k: int|
            0 <= k < self@.len() && #[trigger] entry_applies(self@[k], v) && self@[k].name@ == name
                && self@[k].id == id
    }

    /// Whether `name` is registered under `id` at version `v`, state `s`
    /// and recipient `d`.
    pub open spec fn has_name(
        &self,
        v: u32,
        s: State,
        d: PacketRecipient,
        id: u8,
        name: Seq<char>,
    ) -> bool {
        exists|k: int|
            0 <= k < self@.len() && #[trigger] entry_applies(self@[k], v) && self@[k].state == s
                && self@[k].recipient == d && self@[k].id == id && self@[k].name@ == name
    }

    /// Builds a registry; fails when two registrations conflict.
    pub fn new(entries: Vec<PacketEntry>) -> (r: Result<PacketMap, PacketMapError>)
        ensures
            r matches Ok(m) ==> m@ == entries@ && m.wf(),
            r is Err <==> !entries_wf(entries@),
    {
        let n = entries.len();
        let mut i: usize = 0;
        while i < n
            invariant
                n == entries@.len(),
                i <= n,
                forall|a: int, b: int|
                    0 <= a < i && a < b < n ==> #[trigger] entries_compatible(
                        entries@[a],
                        entries@[b],
                    ),
            decreases n - i,
        {
            let mut j: usize = i + 1;
            while j < n
                invariant
                    n == entries@.len(),
                    i < n,
                    i + 1 <= j <= n,
                    forall|a: int, b: int|
                        0 <= a < i && a < b < n ==> #[trigger] entries_compatible(
                            entries@[a],
                            entries@[b],
                        ),
                    forall|b: int| i < b < j ==> #[trigger] entries_compatible(entries@[i as int], entries@[b]),
                decreases n - j,
            {
                let a = &entries[i];
                let b = &entries[j];
                if a.min_version <= b.max_version && b.min_version <= a.max_version {
                    if a.name == b.name {
                        assert(!entries_compatible(entries@[i as int], entries@[j as int]));
                        return Err(PacketMapError::DuplicateName);
                    }
                    if a.state == b.state && a.recipient == b.recipient && a.id == b.id {
                        assert(!entries_compatible(entries@[i as int], entries@[j as int]));
                        return Err(PacketMapError::DuplicateId);
                    }
                }
                j = j + 1;
            }
            i = i + 1;
        }
        Ok(PacketMap { entries })
    }

    /// The id of `name` at `version`.
    pub fn get_packet_id(&self, version: ProtocolVersion, name: &String) -> (r: Result<u8, PacketMapError>)
        ensures
            r matches Ok(id) ==> self.has_id(version.number(), name@, id),
            r is Err <==> forall|id: u8| !self.has_id(version.number(), name@, id),
            r is Err ==> r == Err::<u8, PacketMapError>(PacketMapError::NotFound),
    {
        let v = version.version_number();
        let mut k: usize = 0;
        while k < self.entries.len()
            invariant
                v == version.number(),
                forall|j: int|
                    0 <= j < k ==> !(#[trigger] entry_applies(self@[j], v) && self@[j].name@
                        == name@),
            decreases self@.len() - k,
        {
            let e = &self.entries[k];
            if e.min_version <= v && v <= e.max_version && e.name == *name {
                assert(entry_applies(self@[k as int], v));
                assert(self.has_id(v, name@, e.id));
                return Ok(e.id);
            }
            k = k + 1;
        }
        Err(PacketMapError::NotFound)
    }

    /// The name registered under `id` at `version`, `state` and `recipient`;
    /// nothing when none is.
    pub fn get_packet_name(
        &self,
        version: ProtocolVersion,
        state: State,
        recipient: PacketRecipient,
        id: u8,
    ) -> (r: Option<String>)
        ensures
            r matches Some(n) ==> self.has_name(version.number(), state, recipient, id, n@),
            r is None <==> forall|n: Seq<char>|
                !self.has_name(version.number(), state, recipient, id, n),
    {
        let v = version.version_number();
        let mut k: usize = 0;
        while k < self.entries.len()
            invariant
                v == version.number(),
                forall|j: int|
                    0 <= j < k ==> !(#[trigger] entry_applies(self@[j], v) && self@[j].state
                        == state && self@[j].recipient == recipient && self@[j].id == id),
            decreases self@.len() - k,
        {
            let e = &self.entries[k];
            if e.min_version <= v && v <= e.max_version && e.state == state && e.recipient
                == recipient && e.id == id {
                assert(entry_applies(self@[k as int], v));
                let n = e.name.clone();
                assert(self.has_name(v, state, recipient, id, n@));
                return Some(n);
            }
            k = k + 1;
        }
        None
    }
}

/// What a registration says: name, id, state, recipient and version range.
pub open spec fn entry_view(e: PacketEntry) -> (Seq<char>, u8, State, PacketRecipient, u32, u32) {
    (e.name@, e.id, e.state, e.recipient, e.min_version, e.max_version)
}

/// The number of registrations of the supported releases.
pub const STANDARD_LEN: usize = 32;

/// Registration `i` of the supported releases, protocol numbers 757 to 769.
pub open spec fn standard_table(i: int) -> (Seq<char>, u8, State, PacketRecipient, u32, u32) {
    if i == 0 {
        ("handshake/serverbound/minecraft:intention"@, 0x00u8, State::Handshake, PacketRecipient::Server, 757u32, 769u32)
    } else if i == 1 {
        ("status/serverbound/minecraft:status_request"@, 0x00u8, State::Status, PacketRecipient::Server, 757u32, 769u32)
    } else if i == 2 {
        ("status/serverbound/minecraft:ping_request"@, 0x01u8, State::Status, PacketRecipient::Server, 757u32, 769u32)
    } else if i == 3 {
        ("status/clientbound/minecraft:status_response"@, 0x00u8, State::Status, PacketRecipient::Client, 757u32, 769u32)
    } else if i == 4 {
        ("status/clientbound/minecraft:pong_response"@, 0x01u8, State::Status, PacketRecipient::Client, 757u32, 769u32)
    } else if i == 5 {
        ("login/serverbound/minecraft:hello"@, 0x00u8, State::Login, PacketRecipient::Server, 757u32, 769u32)
    } else if i == 6 {
        ("login/serverbound/minecraft:login_acknowledged"@, 0x03u8, State::Login, PacketRecipient::Server, 764u32, 769u32)
    } else if i == 7 {
        ("login/clientbound/minecraft:login_disconnect"@, 0x00u8, State::Login, PacketRecipient::Client, 757u32, 769u32)
    } else if i == 8 {
        ("login/clientbound/minecraft:login_finished"@, 0x02u8, State::Login, PacketRecipient::Client, 757u32, 769u32)
    } else if i == 9 {
        ("configuration/serverbound/minecraft:client_information"@, 0x00u8, State::Configuration, PacketRecipient::Server, 764u32, 769u32)
    } else if i == 10 {
        ("configuration/serverbound/minecraft:finish_configuration"@, 0x02u8, State::Configuration, PacketRecipient::Server, 764u32, 765u32)
    } else if i == 11 {
        ("configuration/serverbound/minecraft:finish_configuration"@, 0x03u8, State::Configuration, PacketRecipient::Server, 766u32, 769u32)
    } else if i == 12 {
        ("configuration/serverbound/minecraft:keep_alive"@, 0x03u8, State::Configuration, PacketRecipient::Server, 764u32, 765u32)
    } else if i == 13 {
        ("configuration/serverbound/minecraft:keep_alive"@, 0x04u8, State::Configuration, PacketRecipient::Server, 766u32, 769u32)
    } else if i == 14 {
        ("configuration/serverbound/minecraft:select_known_packs"@, 0x07u8, State::Configuration, PacketRecipient::Server, 766u32, 769u32)
    } else if i == 15 {
        ("configuration/clientbound/minecraft:finish_configuration"@, 0x02u8, State::Configuration, PacketRecipient::Client, 764u32, 765u32)
    } else if i == 16 {
        ("configuration/clientbound/minecraft:finish_configuration"@, 0x03u8, State::Configuration, PacketRecipient::Client, 766u32, 769u32)
    } else if i == 17 {
        ("configuration/clientbound/minecraft:keep_alive"@, 0x03u8, State::Configuration, PacketRecipient::Client, 764u32, 765u32)
    } else if i == 18 {
        ("configuration/clientbound/minecraft:keep_alive"@, 0x04u8, State::Configuration, PacketRecipient::Client, 766u32, 769u32)
    } else if i == 19 {
        ("configuration/clientbound/minecraft:registry_data"@, 0x05u8, State::Configuration, PacketRecipient::Client, 764u32, 765u32)
    } else if i == 20 {
        ("configuration/clientbound/minecraft:registry_data"@, 0x07u8, State::Configuration, PacketRecipient::Client, 766u32, 769u32)
    } else if i == 21 {
        ("configuration/clientbound/minecraft:select_known_packs"@, 0x0Eu8, State::Configuration, PacketRecipient::Client, 766u32, 769u32)
    } else if i == 22 {
        ("play/serverbound/minecraft:keep_alive"@, 0x18u8, State::Play, PacketRecipient::Server, 766u32, 767u32)
    } else if i == 23 {
        ("play/serverbound/minecraft:keep_alive"@, 0x1Au8, State::Play, PacketRecipient::Server, 768u32, 769u32)
    } else if i == 24 {
        ("play/clientbound/minecraft:keep_alive"@, 0x26u8, State::Play, PacketRecipient::Client, 766u32, 767u32)
    } else if i == 25 {
        ("play/clientbound/minecraft:keep_alive"@, 0x27u8, State::Play, PacketRecipient::Client, 768u32, 769u32)
    } else if i == 26 {
        ("play/clientbound/minecraft:game_event"@, 0x22u8, State::Play, PacketRecipient::Client, 766u32, 767u32)
    } else if i == 27 {
        ("play/clientbound/minecraft:game_event"@, 0x23u8, State::Play, PacketRecipient::Client, 768u32, 769u32)
    } else if i == 28 {
        ("play/clientbound/minecraft:level_chunk_with_light"@, 0x27u8, State::Play, PacketRecipient::Client, 766u32, 767u32)
    } else if i == 29 {
        ("play/clientbound/minecraft:level_chunk_with_light"@, 0x28u8, State::Play, PacketRecipient::Client, 768u32, 769u32)
    } else if i == 30 {
        ("play/clientbound/minecraft:login"@, 0x2Bu8, State::Play, PacketRecipient::Client, 766u32, 767u32)
    } else if i == 31 {
        ("play/clientbound/minecraft:login"@, 0x2Cu8, State::Play, PacketRecipient::Client, 768u32, 769u32)
    } else {
        (Seq::empty(), 0u8, State::Handshake, PacketRecipient::Server, 1u32, 0u32)
    }
}

/// The registrations of the supported releases do not conflict.
pub open spec fn standard_table_wf() -> bool {
    forall|i: int, j: int|
        0 <= i < j < STANDARD_LEN ==> #[trigger] views_compatible(
            standard_table(i),
            standard_table(j),
        )
}

/// The names of the supported releases' registrations, told apart by
/// their lengths and a few of their characters.
proof fn lemma_standard_names_distinct()
    ensures
        "configuration/clientbound/minecraft:finish_configuration"@.len() == 56,
        "configuration/clientbound/minecraft:finish_configuration"@[14] == 'c',
        "configuration/clientbound/minecraft:finish_configuration"@[36] == 'f',
        "configuration/clientbound/minecraft:finish_configuration"@[5] == 'g',
        "configuration/clientbound/minecraft:keep_alive"@.len() == 46,
        "configuration/clientbound/minecraft:keep_alive"@[14] == 'c',
        "configuration/clientbound/minecraft:keep_alive"@[36] == 'k',
        "configuration/clientbound/minecraft:keep_alive"@[5] == 'g',
        "configuration/clientbound/minecraft:registry_data"@.len() == 49,
        "configuration/clientbound/minecraft:registry_data"@[14] == 'c',
        "configuration/clientbound/minecraft:registry_data"@[36] == 'r',
        "configuration/clientbound/minecraft:registry_data"@[5] == 'g',
        "configuration/clientbound/minecraft:select_known_packs"@.len() == 54,
        "configuration/clientbound/minecraft:select_known_packs"@[14] == 'c',
        "configuration/clientbound/minecraft:select_known_packs"@[36] == 's',
        "configuration/clientbound/minecraft:select_known_packs"@[5] == 'g',
        "configuration/serverbound/minecraft:client_information"@.len() == 54,
        "configuration/serverbound/minecraft:client_information"@[14] == 's',
        "configuration/serverbound/minecraft:client_information"@[36] == 'c',
        "configuration/serverbound/minecraft:client_information"@[5] == 'g',
        "configuration/serverbound/minecraft:finish_configuration"@.len() == 56,
        "configuration/serverbound/minecraft:finish_configuration"@[14] == 's',
        "configuration/serverbound/minecraft:finish_configuration"@[36] == 'f',
        "configuration/serverbound/minecraft:finish_configuration"@[5] == 'g',
        "configuration/serverbound/minecraft:keep_alive"@.len() == 46,
        "configuration/serverbound/minecraft:keep_alive"@[14] == 's',
        "configuration/serverbound/minecraft:keep_alive"@[36] == 'k',
        "configuration/serverbound/minecraft:keep_alive"@[5] == 'g',
        "configuration/serverbound/minecraft:select_known_packs"@.len() == 54,
        "configuration/serverbound/minecraft:select_known_packs"@[14] == 's',
        "configuration/serverbound/minecraft:select_known_packs"@[36] == 's',
        "configuration/serverbound/minecraft:select_known_packs"@[5] == 'g',
        "handshake/serverbound/minecraft:intention"@.len() == 41,
        "handshake/serverbound/minecraft:intention"@[14] == 'e',
        "handshake/serverbound/minecraft:intention"@[36] == 'n',
        "handshake/serverbound/minecraft:intention"@[5] == 'h',
        "login/clientbound/minecraft:login_disconnect"@.len() == 44,
        "login/clientbound/minecraft:login_disconnect"@[14] == 'u',
        "login/clientbound/minecraft:login_disconnect"@[36] == 's',
        "login/clientbound/minecraft:login_disconnect"@[5] == '/',
        "login/clientbound/minecraft:login_finished"@.len() == 42,
        "login/clientbound/minecraft:login_finished"@[14] == 'u',
        "login/clientbound/minecraft:login_finished"@[36] == 'n',
        "login/clientbound/minecraft:login_finished"@[5] == '/',
        "login/serverbound/minecraft:hello"@.len() == 33,
        "login/serverbound/minecraft:hello"@[14] == 'u',
        "login/serverbound/minecraft:hello"@[5] == '/',
        "login/serverbound/minecraft:login_acknowledged"@.len() == 46,
        "login/serverbound/minecraft:login_acknowledged"@[14] == 'u',
        "login/serverbound/minecraft:login_acknowledged"@[36] == 'k',
        "login/serverbound/minecraft:login_acknowledged"@[5] == '/',
        "play/clientbound/minecraft:game_event"@.len() == 37,
        "play/clientbound/minecraft:game_event"@[14] == 'n',
        "play/clientbound/minecraft:game_event"@[36] == 't',
        "play/clientbound/minecraft:game_event"@[5] == 'c',
        "play/clientbound/minecraft:keep_alive"@.len() == 37,
        "play/clientbound/minecraft:keep_alive"@[14] == 'n',
        "play/clientbound/minecraft:keep_alive"@[36] == 'e',
        "play/clientbound/minecraft:keep_alive"@[5] == 'c',
        "play/clientbound/minecraft:level_chunk_with_light"@.len() == 49,
        "play/clientbound/minecraft:level_chunk_with_light"@[14] == 'n',
        "play/clientbound/minecraft:level_chunk_with_light"@[36] == 'n',
        "play/clientbound/minecraft:level_chunk_with_light"@[5] == 'c',
        "play/clientbound/minecraft:login"@.len() == 32,
        "play/clientbound/minecraft:login"@[14] == 'n',
        "play/clientbound/minecraft:login"@[5] == 'c',
        "play/serverbound/minecraft:keep_alive"@.len() == 37,
        "play/serverbound/minecraft:keep_alive"@[14] == 'n',
        "play/serverbound/minecraft:keep_alive"@[36] == 'e',
        "play/serverbound/minecraft:keep_alive"@[5] == 's',
        "status/clientbound/minecraft:pong_response"@.len() == 42,
        "status/clientbound/minecraft:pong_response"@[14] == 'o',
        "status/clientbound/minecraft:pong_response"@[36] == 's',
        "status/clientbound/minecraft:pong_response"@[5] == 's',
        "status/clientbound/minecraft:status_response"@.len() == 44,
        "status/clientbound/minecraft:status_response"@[14] == 'o',
        "status/clientbound/minecraft:status_response"@[36] == 'r',
        "status/clientbound/minecraft:status_response"@[5] == 's',
        "status/serverbound/minecraft:ping_request"@.len() == 41,
        "status/serverbound/minecraft:ping_request"@[14] == 'o',
        "status/serverbound/minecraft:ping_request"@[36] == 'q',
        "status/serverbound/minecraft:ping_request"@[5] == 's',
        "status/serverbound/minecraft:status_request"@.len() == 43,
        "status/serverbound/minecraft:status_request"@[14] == 'o',
        "status/serverbound/minecraft:status_request"@[36] == 'r',
        "status/serverbound/minecraft:status_request"@[5] == 's',
{
    reveal_strlit("configuration/clientbound/minecraft:finish_configuration");
    assert("configuration/clientbound/minecraft:finish_configuration"@.len() == 56 && "configuration/clientbound/minecraft:finish_configuration"@[14] == 'c' && "configuration/clientbound/minecraft:finish_configuration"@[36] == 'f' && "configuration/clientbound/minecraft:finish_configuration"@[5] == 'g');
    reveal_strlit("configuration/clientbound/minecraft:keep_alive");
    assert("configuration/clientbound/minecraft:keep_alive"@.len() == 46 && "configuration/clientbound/minecraft:keep_alive"@[14] == 'c' && "configuration/clientbound/minecraft:keep_alive"@[36] == 'k' && "configuration/clientbound/minecraft:keep_alive"@[5] == 'g');
    reveal_strlit("configuration/clientbound/minecraft:registry_data");
    assert("configuration/clientbound/minecraft:registry_data"@.len() == 49 && "configuration/clientbound/minecraft:registry_data"@[14] == 'c' && "configuration/clientbound/minecraft:registry_data"@[36] == 'r' && "configuration/clientbound/minecraft:registry_data"@[5] == 'g');
    reveal_strlit("configuration/clientbound/minecraft:select_known_packs");
    assert("configuration/clientbound/minecraft:select_known_packs"@.len() == 54 && "configuration/clientbound/minecraft:select_known_packs"@[14] == 'c' && "configuration/clientbound/minecraft:select_known_packs"@[36] == 's' && "configuration/clientbound/minecraft:select_known_packs"@[5] == 'g');
    reveal_strlit("configuration/serverbound/minecraft:client_information");
    assert("configuration/serverbound/minecraft:client_information"@.len() == 54 && "configuration/serverbound/minecraft:client_information"@[14] == 's' && "configuration/serverbound/minecraft:client_information"@[36] == 'c' && "configuration/serverbound/minecraft:client_information"@[5] == 'g');
    reveal_strlit("configuration/serverbound/minecraft:finish_configuration");
    assert("configuration/serverbound/minecraft:finish_configuration"@.len() == 56 && "configuration/serverbound/minecraft:finish_configuration"@[14] == 's' && "configuration/serverbound/minecraft:finish_configuration"@[36] == 'f' && "configuration/serverbound/minecraft:finish_configuration"@[5] == 'g');
    reveal_strlit("configuration/serverbound/minecraft:keep_alive");
    assert("configuration/serverbound/minecraft:keep_alive"@.len() == 46 && "configuration/serverbound/minecraft:keep_alive"@[14] == 's' && "configuration/serverbound/minecraft:keep_alive"@[36] == 'k' && "configuration/serverbound/minecraft:keep_alive"@[5] == 'g');
    reveal_strlit("configuration/serverbound/minecraft:select_known_packs");
    assert("configuration/serverbound/minecraft:select_known_packs"@.len() == 54 && "configuration/serverbound/minecraft:select_known_packs"@[14] == 's' && "configuration/serverbound/minecraft:select_known_packs"@[36] == 's' && "configuration/serverbound/minecraft:select_known_packs"@[5] == 'g');
    reveal_strlit("handshake/serverbound/minecraft:intention");
    assert("handshake/serverbound/minecraft:intention"@.len() == 41 && "handshake/serverbound/minecraft:intention"@[14] == 'e' && "handshake/serverbound/minecraft:intention"@[36] == 'n' && "handshake/serverbound/minecraft:intention"@[5] == 'h');
    reveal_strlit("login/clientbound/minecraft:login_disconnect");
    assert("login/clientbound/minecraft:login_disconnect"@.len() == 44 && "login/clientbound/minecraft:login_disconnect"@[14] == 'u' && "login/clientbound/minecraft:login_disconnect"@[36] == 's' && "login/clientbound/minecraft:login_disconnect"@[5] == '/');
    reveal_strlit("login/clientbound/minecraft:login_finished");
    assert("login/clientbound/minecraft:login_finished"@.len() == 42 && "login/clientbound/minecraft:login_finished"@[14] == 'u' && "login/clientbound/minecraft:login_finished"@[36] == 'n' && "login/clientbound/minecraft:login_finished"@[5] == '/');
    reveal_strlit("login/serverbound/minecraft:hello");
    assert("login/serverbound/minecraft:hello"@.len() == 33 && "login/serverbound/minecraft:hello"@[14] == 'u' && "login/serverbound/minecraft:hello"@[5] == '/');
    reveal_strlit("login/serverbound/minecraft:login_acknowledged");
    assert("login/serverbound/minecraft:login_acknowledged"@.len() == 46 && "login/serverbound/minecraft:login_acknowledged"@[14] == 'u' && "login/serverbound/minecraft:login_acknowledged"@[36] == 'k' && "login/serverbound/minecraft:login_acknowledged"@[5] == '/');
    reveal_strlit("play/clientbound/minecraft:game_event");
    assert("play/clientbound/minecraft:game_event"@.len() == 37 && "play/clientbound/minecraft:game_event"@[14] == 'n' && "play/clientbound/minecraft:game_event"@[36] == 't' && "play/clientbound/minecraft:game_event"@[5] == 'c');
    reveal_strlit("play/clientbound/minecraft:keep_alive");
    assert("play/clientbound/minecraft:keep_alive"@.len() == 37 && "play/clientbound/minecraft:keep_alive"@[14] == 'n' && "play/clientbound/minecraft:keep_alive"@[36] == 'e' && "play/clientbound/minecraft:keep_alive"@[5] == 'c');
    reveal_strlit("play/clientbound/minecraft:level_chunk_with_light");
    assert("play/clientbound/minecraft:level_chunk_with_light"@.len() == 49 && "play/clientbound/minecraft:level_chunk_with_light"@[14] == 'n' && "play/clientbound/minecraft:level_chunk_with_light"@[36] == 'n' && "play/clientbound/minecraft:level_chunk_with_light"@[5] == 'c');
    reveal_strlit("play/clientbound/minecraft:login");
    assert("play/clientbound/minecraft:login"@.len() == 32 && "play/clientbound/minecraft:login"@[14] == 'n' && "play/clientbound/minecraft:login"@[5] == 'c');
    reveal_strlit("play/serverbound/minecraft:keep_alive");
    assert("play/serverbound/minecraft:keep_alive"@.len() == 37 && "play/serverbound/minecraft:keep_alive"@[14] == 'n' && "play/serverbound/minecraft:keep_alive"@[36] == 'e' && "play/serverbound/minecraft:keep_alive"@[5] == 's');
    reveal_strlit("status/clientbound/minecraft:pong_response");
    assert("status/clientbound/minecraft:pong_response"@.len() == 42 && "status/clientbound/minecraft:pong_response"@[14] == 'o' && "status/clientbound/minecraft:pong_response"@[36] == 's' && "status/clientbound/minecraft:pong_response"@[5] == 's');
    reveal_strlit("status/clientbound/minecraft:status_response");
    assert("status/clientbound/minecraft:status_response"@.len() == 44 && "status/clientbound/minecraft:status_response"@[14] == 'o' && "status/clientbound/minecraft:status_response"@[36] == 'r' && "status/clientbound/minecraft:status_response"@[5] == 's');
    reveal_strlit("status/serverbound/minecraft:ping_request");
    assert("status/serverbound/minecraft:ping_request"@.len() == 41 && "status/serverbound/minecraft:ping_request"@[14] == 'o' && "status/serverbound/minecraft:ping_request"@[36] == 'q' && "status/serverbound/minecraft:ping_request"@[5] == 's');
    reveal_strlit("status/serverbound/minecraft:status_request");
    assert("status/serverbound/minecraft:status_request"@.len() == 43 && "status/serverbound/minecraft:status_request"@[14] == 'o' && "status/serverbound/minecraft:status_request"@[36] == 'r' && "status/serverbound/minecraft:status_request"@[5] == 's');
}

/// The registrations of the supported releases do not conflict.
#[verifier::rlimit(100)]
pub proof fn lemma_standard_table_wf()
    ensures
        standard_table_wf(),
{
    lemma_standard_names_distinct();
    assert forall|i: int, j: int| 0 <= i < j < STANDARD_LEN implies #[trigger] views_compatible(
        standard_table(i),
        standard_table(j),
    ) by {
    }
}

/// Whether `es` holds exactly the registrations of the supported releases.
pub open spec fn is_standard(es: Seq<PacketEntry>) -> bool {
    &&& es.len() == STANDARD_LEN
    &&& forall|k: int| 0 <= k < STANDARD_LEN ==> #[trigger] entry_view(es[k]) == standard_table(k)
}

/// The registrations of the supported releases.
pub fn standard_entries() -> (r: Vec<PacketEntry>)
    ensures
        is_standard(r@),
{
    let c = PacketRecipient::Client;
    let s = PacketRecipient::Server;
    let mut v: Vec<PacketEntry> = Vec::new();
    v.push(PacketEntry::new("handshake/serverbound/minecraft:intention", 0x00, State::Handshake, s, 757, 769));
    v.push(PacketEntry::new("status/serverbound/minecraft:status_request", 0x00, State::Status, s, 757, 769));
    v.push(PacketEntry::new("status/serverbound/minecraft:ping_request", 0x01, State::Status, s, 757, 769));
    v.push(PacketEntry::new("status/clientbound/minecraft:status_response", 0x00, State::Status, c, 757, 769));
    v.push(PacketEntry::new("status/clientbound/minecraft:pong_response", 0x01, State::Status, c, 757, 769));
    v.push(PacketEntry::new("login/serverbound/minecraft:hello", 0x00, State::Login, s, 757, 769));
    v.push(PacketEntry::new("login/serverbound/minecraft:login_acknowledged", 0x03, State::Login, s, 764, 769));
    v.push(PacketEntry::new("login/clientbound/minecraft:login_disconnect", 0x00, State::Login, c, 757, 769));
    v.push(PacketEntry::new("login/clientbound/minecraft:login_finished", 0x02, State::Login, c, 757, 769));
    v.push(PacketEntry::new("configuration/serverbound/minecraft:client_information", 0x00, State::Configuration, s, 764, 769));
    v.push(PacketEntry::new("configuration/serverbound/minecraft:finish_configuration", 0x02, State::Configuration, s, 764, 765));
    v.push(PacketEntry::new("configuration/serverbound/minecraft:finish_configuration", 0x03, State::Configuration, s, 766, 769));
    v.push(PacketEntry::new("configuration/serverbound/minecraft:keep_alive", 0x03, State::Configuration, s, 764, 765));
    v.push(PacketEntry::new("configuration/serverbound/minecraft:keep_alive", 0x04, State::Configuration, s, 766, 769));
    v.push(PacketEntry::new("configuration/serverbound/minecraft:select_known_packs", 0x07, State::Configuration, s, 766, 769));
    v.push(PacketEntry::new("configuration/clientbound/minecraft:finish_configuration", 0x02, State::Configuration, c, 764, 765));
    v.push(PacketEntry::new("configuration/clientbound/minecraft:finish_configuration", 0x03, State::Configuration, c, 766, 769));
    v.push(PacketEntry::new("configuration/clientbound/minecraft:keep_alive", 0x03, State::Configuration, c, 764, 765));
    v.push(PacketEntry::new("configuration/clientbound/minecraft:keep_alive", 0x04, State::Configuration, c, 766, 769));
    v.push(PacketEntry::new("configuration/clientbound/minecraft:registry_data", 0x05, State::Configuration, c, 764, 765));
    v.push(PacketEntry::new("configuration/clientbound/minecraft:registry_data", 0x07, State::Configuration, c, 766, 769));
    v.push(PacketEntry::new("configuration/clientbound/minecraft:select_known_packs", 0x0E, State::Configuration, c, 766, 769));
    v.push(PacketEntry::new("play/serverbound/minecraft:keep_alive", 0x18, State::Play, s, 766, 767));
    v.push(PacketEntry::new("play/serverbound/minecraft:keep_alive", 0x1A, State::Play, s, 768, 769));
    v.push(PacketEntry::new("play/clientbound/minecraft:keep_alive", 0x26, State::Play, c, 766, 767));
    v.push(PacketEntry::new("play/clientbound/minecraft:keep_alive", 0x27, State::Play, c, 768, 769));
    v.push(PacketEntry::new("play/clientbound/minecraft:game_event", 0x22, State::Play, c, 766, 767));
    v.push(PacketEntry::new("play/clientbound/minecraft:game_event", 0x23, State::Play, c, 768, 769));
    v.push(PacketEntry::new("play/clientbound/minecraft:level_chunk_with_light", 0x27, State::Play, c, 766, 767));
    v.push(PacketEntry::new("play/clientbound/minecraft:level_chunk_with_light", 0x28, State::Play, c, 768, 769));
    v.push(PacketEntry::new("play/clientbound/minecraft:login", 0x2B, State::Play, c, 766, 767));
    v.push(PacketEntry::new("play/clientbound/minecraft:login", 0x2C, State::Play, c, 768, 769));
    assert forall|k: int| 0 <= k < STANDARD_LEN implies #[trigger] entry_view(v@[k]) == standard_table(k) by {
    }
    v
}

impl PacketMap {
    /// The registry of the supported releases.
    pub fn standard() -> (r: Result<PacketMap, PacketMapError>)
        ensures
            r matches Ok(m) && is_standard(m@) && m.wf(),
    {
        let es = standard_entries();
        let ghost v = es@;
        let r = PacketMap::new(es);
        proof {
            lemma_standard_table_wf();
            assert(entries_wf(v) <==> standard_table_wf()) by {
                if entries_wf(v) {
                    assert forall|i: int, j: int|
                        0 <= i < j < STANDARD_LEN implies #[trigger] views_compatible(
                        standard_table(i),
                        standard_table(j),
                    ) by {
                        assert(entries_compatible(v[i], v[j]));
                    }
                }
                if standard_table_wf() {
                    assert forall|i: int, j: int|
                        0 <= i < j < v.len() implies #[trigger] entries_compatible(v[i], v[j]) by {
                        assert(views_compatible(standard_table(i), standard_table(j)));
                    }
                }
            }
        }
        r
    }
}

/// For a well-formed registry and a registration `k` that holds at
/// protocol number `v`: the id found for its name is its id, and the name
/// found for that id, in its state and recipient, is its name.
pub proof fn lemma_id_name_round_trip(m: PacketMap, v: u32, k: int)
    requires
        m.wf(),
        0 <= k < m@.len(),
        entry_applies(m@[k], v),
    ensures
        m.has_id(v, m@[k].name@, m@[k].id),
        forall|id: u8| m.has_id(v, m@[k].name@, id) ==> id == m@[k].id,
        m.has_name(v, m@[k].state, m@[k].recipient, m@[k].id, m@[k].name@),
        forall|n: Seq<char>|
            m.has_name(v, m@[k].state, m@[k].recipient, m@[k].id, n) ==> n == m@[k].name@,
{
    let e = m@[k];
    assert forall|id: u8| m.has_id(v, e.name@, id) implies id == e.id by {
        let j = choose|j: int|
            0 <= j < m@.len() && #[trigger] entry_applies(m@[j], v) && m@[j].name@ == e.name@
                && m@[j].id == id;
        if j < k {
            assert(entries_compatible(m@[j], m@[k]));
        } else if j > k {
            assert(entries_compatible(m@[k], m@[j]));
        }
    }
    assert forall|n: Seq<char>| m.has_name(v, e.state, e.recipient, e.id, n) implies n
        == e.name@ by {
        let j = choose|j: int|
            0 <= j < m@.len() && #[trigger] entry_applies(m@[j], v) && m@[j].state == e.state
                && m@[j].recipient == e.recipient && m@[j].id == e.id && m@[j].name@ == n;
        if j < k {
            assert(entries_compatible(m@[j], m@[k]));
        } else if j > k {
            assert(entries_compatible(m@[k], m@[j]));
        }
    }
}

/// In a well-formed registry, at most one name is registered under an id
/// for a given version, state and recipient.
pub proof fn lemma_name_unique(
    m: PacketMap,
    v: u32,
    s: State,
    d: PacketRecipient,
    id: u8,
    n1: Seq<char>,
    n2: Seq<char>,
)
    requires
        m.wf(),
        m.has_name(v, s, d, id, n1),
        m.has_name(v, s, d, id, n2),
    ensures
        n1 == n2,
{
    let i = choose|i: int|
        0 <= i < m@.len() && #[trigger] entry_applies(m@[i], v) && m@[i].state == s
            && m@[i].recipient == d && m@[i].id == id && m@[i].name@ == n1;
    let j = choose|j: int|
        0 <= j < m@.len() && #[trigger] entry_applies(m@[j], v) && m@[j].state == s
            && m@[j].recipient == d && m@[j].id == id && m@[j].name@ == n2;
    if i < j {
        assert(entries_compatible(m@[i], m@[j]));
    } else if j < i {
        assert(entries_compatible(m@[j], m@[i]));
    }
}

} // verus!
