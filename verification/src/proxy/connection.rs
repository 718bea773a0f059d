use vstd::prelude::*;

verus! {

/// Where a client connection stands.
#[derive(Clone, Copy, Debug, PartialEq, Eq, Structural)]
pub enum ConnectionState {
    /// Nothing has been read yet.
    AwaitingRequestLine,
    /// A tunnel was asked for; the TLS handshake with the client is under way.
    Handshaking,
    /// Requests are read from the decrypted stream of a tunnel.
    DecryptedForwarding,
    /// Requests are read from the plain stream.
    PlaintextForwarding,
    /// The connection is over.
    Closed,
}

/// What happened on a connection.
#[derive(Clone, Copy, Debug, PartialEq, Eq, Structural)]
pub enum ConnectionEvent {
    /// A request was read that asks for a tunnel.
    ConnectRead,
    /// A request was read that asks for anything else.
    RequestRead,
    /// The TLS handshake with the client succeeded.
    HandshakeDone,
    /// The TLS handshake with the client failed.
    HandshakeFailed,
    /// The client closed the connection, or will send no more requests. During
    /// the handshake this is a handshake that failed.
    ClientDone,
}

/// What is to be done on a connection next.
#[derive(Clone, Copy, Debug, PartialEq, Eq, Structural)]
pub enum ConnectionAction {
    /// Tell the client that the tunnel stands, get the leaf for the host and
    /// start the TLS handshake.
    EstablishTunnel,
    /// Hand the request that was read to the forwarding pipeline.
    Forward,
    /// Read the next request.
    ReadNext,
    /// Release the connection.
    Close,
    /// Release the connection and report a network error.
    Fail,
}

/// The state that follows `state` on `event`, and what is to be done.
pub open spec fn transition(state: ConnectionState, event: ConnectionEvent) -> (
    ConnectionState,
    ConnectionAction,
) {
    match (state, event) {
        (ConnectionState::Closed, _) => (ConnectionState::Closed, ConnectionAction::Close),
        (ConnectionState::Handshaking, ConnectionEvent::ClientDone) => (
            ConnectionState::Closed,
            ConnectionAction::Fail,
        ),
        (_, ConnectionEvent::ClientDone) => (ConnectionState::Closed, ConnectionAction::Close),
        (ConnectionState::AwaitingRequestLine, ConnectionEvent::ConnectRead) => (
            ConnectionState::Handshaking,
            ConnectionAction::EstablishTunnel,
        ),
        (ConnectionState::AwaitingRequestLine, ConnectionEvent::RequestRead) => (
            ConnectionState::PlaintextForwarding,
            ConnectionAction::Forward,
        ),
        (ConnectionState::Handshaking, ConnectionEvent::HandshakeDone) => (
            ConnectionState::DecryptedForwarding,
            ConnectionAction::ReadNext,
        ),
        (ConnectionState::Handshaking, _) => (ConnectionState::Closed, ConnectionAction::Fail),
        (ConnectionState::DecryptedForwarding, ConnectionEvent::RequestRead) => (
            ConnectionState::DecryptedForwarding,
            ConnectionAction::Forward,
        ),
        (ConnectionState::DecryptedForwarding, ConnectionEvent::ConnectRead) => (
            ConnectionState::DecryptedForwarding,
            ConnectionAction::Forward,
        ),
        (ConnectionState::PlaintextForwarding, ConnectionEvent::RequestRead) => (
            ConnectionState::PlaintextForwarding,
            ConnectionAction::Forward,
        ),
        (ConnectionState::PlaintextForwarding, ConnectionEvent::ConnectRead) => (
            ConnectionState::PlaintextForwarding,
            ConnectionAction::Forward,
        ),
        _ => (ConnectionState::Closed, ConnectionAction::Fail),
    }
}

/// Whether requests read in this state came through a tunnel.
pub open spec fn is_tunnelled(state: ConnectionState) -> bool {
    state == ConnectionState::DecryptedForwarding
}

impl ConnectionState {
    /// The state of a connection that was just accepted.
    pub fn new() -> (state: Self)
        ensures
            state == ConnectionState::AwaitingRequestLine,
    {
        ConnectionState::AwaitingRequestLine
    }

    /// Takes the connection from one state to the next on an event, and says
    /// what is to be done.
    pub fn step(self, event: ConnectionEvent) -> (next: (ConnectionState, ConnectionAction))
        ensures
            next == transition(self, event),
    {
        match self {
            ConnectionState::Closed => (ConnectionState::Closed, ConnectionAction::Close),
            ConnectionState::AwaitingRequestLine => match event {
                ConnectionEvent::ClientDone => (ConnectionState::Closed, ConnectionAction::Close),
                ConnectionEvent::ConnectRead => (
                    ConnectionState::Handshaking,
                    ConnectionAction::EstablishTunnel,
                ),
                ConnectionEvent::RequestRead => (
                    ConnectionState::PlaintextForwarding,
                    ConnectionAction::Forward,
                ),
                _ => (ConnectionState::Closed, ConnectionAction::Fail),
            },
            ConnectionState::Handshaking => match event {
                ConnectionEvent::HandshakeDone => (
                    ConnectionState::DecryptedForwarding,
                    ConnectionAction::ReadNext,
                ),
                _ => (ConnectionState::Closed, ConnectionAction::Fail),
            },
            forwarding => match event {
                ConnectionEvent::ClientDone => (ConnectionState::Closed, ConnectionAction::Close),
                ConnectionEvent::RequestRead => (forwarding, ConnectionAction::Forward),
                ConnectionEvent::ConnectRead => (forwarding, ConnectionAction::Forward),
                _ => (ConnectionState::Closed, ConnectionAction::Fail),
            },
        }
    }

    /// Whether requests read in this state came through a tunnel, so that
    /// their origin is reached over TLS.
    pub fn tunnelled(self) -> (yes: bool)
        ensures
            yes == is_tunnelled(self),
    {
        match self {
            ConnectionState::DecryptedForwarding => true,
            _ => false,
        }
    }

    pub fn is_closed(self) -> (closed: bool)
        ensures
            closed == (self == ConnectionState::Closed),
    {
        match self {
            ConnectionState::Closed => true,
            _ => false,
        }
    }
}

/// The state after a sequence of events, taken in their order.
pub open spec fn run(state: ConnectionState, events: Seq<ConnectionEvent>) -> ConnectionState
    decreases events.len(),
{
    if events.len() == 0 {
        state
    } else {
        transition(run(state, events.drop_last()), events.last()).0
    }
}

/// A closed connection stays closed whatever happens, and nothing is asked of
/// it but to be released.
pub proof fn lemma_closed_is_final(events: Seq<ConnectionEvent>)
    ensures
        run(ConnectionState::Closed, events) == ConnectionState::Closed,
        forall|event: ConnectionEvent| #[trigger]
            transition(ConnectionState::Closed, event) == (
                ConnectionState::Closed,
                ConnectionAction::Close,
            ),
    decreases events.len(),
{
    if events.len() > 0 {
        lemma_closed_is_final(events.drop_last());
    }
}

/// A request is handed to the pipeline only from a connection that has read
/// its first request, or has finished its handshake; and a connection reaches
/// the decrypted stream only through a handshake that succeeded.
pub proof fn lemma_forwarding_follows_handshake(state: ConnectionState, event: ConnectionEvent)
    ensures
        transition(state, event).1 == ConnectionAction::Forward ==> state
            != ConnectionState::Handshaking && state != ConnectionState::Closed,
        transition(state, event).0 == ConnectionState::DecryptedForwarding ==> (state
            == ConnectionState::Handshaking && event == ConnectionEvent::HandshakeDone) || state
            == ConnectionState::DecryptedForwarding,
        transition(state, event).1 == ConnectionAction::Fail ==> transition(state, event).0
            == ConnectionState::Closed,
{
}

} // verus!
