use vstd::prelude::*;

verus! {

/// Where the signaling client stands in its connection's life.
#[derive(Debug, Clone, Copy, PartialEq, Eq, Structural)]
pub enum ClientPhase {
    Disconnected,
    Connecting,
    Handshaking,
    Joined,
    Closed,
    Failed,
}

/// What happens to the signaling client's connection.
#[derive(Debug, Clone, Copy, PartialEq, Eq, Structural)]
pub enum ClientEvent {
    /// `connect` has begun the bootstrap request.
    ConnectStarted,
    /// The signaling socket is open.
    SocketOpened,
    /// The join request was sent and answered.
    JoinAnswered,
    /// The peer closed the socket in order.
    SocketClosed,
    /// A transport, bootstrap or handshake step failed.
    Failure,
}

/// The order of the phases: a connection only moves forward.
pub open spec fn rank(p: ClientPhase) -> nat {
    match p {
        ClientPhase::Disconnected => 0,
        ClientPhase::Connecting => 1,
        ClientPhase::Handshaking => 2,
        ClientPhase::Joined => 3,
        ClientPhase::Closed => 4,
        ClientPhase::Failed => 4,
    }
}

/// Whether the connection is over.
pub open spec fn is_terminal(p: ClientPhase) -> bool {
    p is Closed || p is Failed
}

/// The phase after event `e` in phase `p`. Each phase advances on its own
/// event; a failure, or a close before the room is joined, fails the
/// connection; a finished connection stays as it is, and any other event
/// leaves the phase unchanged.
pub open spec fn phase_after(p: ClientPhase, e: ClientEvent) -> ClientPhase {
    if is_terminal(p) {
        p
    } else {
        match e {
            ClientEvent::Failure => ClientPhase::Failed,
            ClientEvent::SocketClosed => if p is Joined {
                ClientPhase::Closed
            } else if p is Disconnected {
                p
            } else {
                ClientPhase::Failed
            },
            ClientEvent::ConnectStarted => if p is Disconnected {
                ClientPhase::Connecting
            } else {
                p
            },
            ClientEvent::SocketOpened => if p is Connecting {
                ClientPhase::Handshaking
            } else {
                p
            },
            ClientEvent::JoinAnswered => if p is Handshaking {
                ClientPhase::Joined
            } else {
                p
            },
        }
    }
}

/// The phase after event `e` in phase `p`.
pub fn advance(p: ClientPhase, e: ClientEvent) -> (r: ClientPhase)
    ensures
        r == phase_after(p, e),
{
    match p {
        ClientPhase::Closed | ClientPhase::Failed => p,
        _ => match e {
            ClientEvent::Failure => ClientPhase::Failed,
            ClientEvent::SocketClosed => match p {
                ClientPhase::Joined => ClientPhase::Closed,
                ClientPhase::Disconnected => p,
                _ => ClientPhase::Failed,
            },
            ClientEvent::ConnectStarted => match p {
                ClientPhase::Disconnected => ClientPhase::Connecting,
                _ => p,
            },
            ClientEvent::SocketOpened => match p {
                ClientPhase::Connecting => ClientPhase::Handshaking,
                _ => p,
            },
            ClientEvent::JoinAnswered => match p {
                ClientPhase::Handshaking => ClientPhase::Joined,
                _ => p,
            },
        },
    }
}

/// Whether frames may be sent and read: only in a joined room.
pub fn is_joined(p: ClientPhase) -> (r: bool)
    ensures
        r == (p is Joined),
{
    match p {
        ClientPhase::Joined => true,
        _ => false,
    }
}

/// The phase after each of `es` in turn.
pub open spec fn phase_after_all(p: ClientPhase, es: Seq<ClientEvent>) -> ClientPhase
    decreases es.len(),
{
    if es.len() == 0 {
        p
    } else {
        phase_after(phase_after_all(p, es.drop_last()), es.last())
    }
}

/// Transitions only go forward, a finished connection never changes again,
/// and nothing leads back to a phase of lower rank; in particular there is
/// no reconnection.
pub proof fn lemma_forward_only(p: ClientPhase, es: Seq<ClientEvent>)
    ensures
        rank(phase_after_all(p, es)) >= rank(p),
        is_terminal(p) ==> phase_after_all(p, es) == p,
    decreases es.len(),
{
    if es.len() > 0 {
        lemma_forward_only(p, es.drop_last());
    }
}

} // verus!
