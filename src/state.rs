//! Connection states and the transitions between them.
use vstd::prelude::*;

verus! {

/// The phase of a connection.
#[derive(Clone, Copy, Debug, PartialEq, Eq, Structural, Hash)]
pub enum State {
    Handshake,
    Status,
    Login,
    Configuration,
    Play,
}

/// Which side a packet is addressed to.
#[derive(Clone, Copy, Debug, PartialEq, Eq, Structural, Hash)]
pub enum PacketRecipient {
    /// Sent by the server (client-bound).
    Client,
    /// Sent by the client (server-bound).
    Server,
}

impl Default for State {
    fn default() -> (r: Self)
        ensures
            r == State::Handshake,
    {
        State::Handshake
    }
}

/// The state changes a connection may make: from `Handshake` to `Status` or
/// `Login`, then `Login` to `Configuration` to `Play`.
pub open spec fn legal_transition(from: State, to: State) -> bool {
    match (from, to) {
        (State::Handshake, State::Status) => true,
        (State::Handshake, State::Login) => true,
        (State::Login, State::Configuration) => true,
        (State::Configuration, State::Play) => true,
        _ => false,
    }
}

/// How far a state lies along the life of a connection.
pub open spec fn state_rank(s: State) -> nat {
    match s {
        State::Handshake => 0,
        State::Status => 1,
        State::Login => 1,
        State::Configuration => 2,
        State::Play => 3,
    }
}

/// Whether a connection in `from` may move to `to`.
pub fn can_transition(from: State, to: State) -> (r: bool)
    ensures
        r == legal_transition(from, to),
{
    match (from, to) {
        (State::Handshake, State::Status) => true,
        (State::Handshake, State::Login) => true,
        (State::Login, State::Configuration) => true,
        (State::Configuration, State::Play) => true,
        _ => false,
    }
}

/// A legal transition always moves forward: states never regress, and
/// `Status` is terminal.
pub proof fn lemma_transitions_advance(from: State, to: State)
    ensures
        legal_transition(from, to) ==> state_rank(to) > state_rank(from),
        from == State::Status ==> !legal_transition(from, to),
        from == State::Play ==> !legal_transition(from, to),
{
}

} // verus!
