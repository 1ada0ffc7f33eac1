//! The connection actor: the one owner of an accepted socket. Its life is a
//! small state machine — established, then reading and dispatching in turn,
//! until it closes — and the library fixes every transition; the asynchronous
//! shell owns the socket and the channels and performs the actions the steps
//! demand.

use vstd::prelude::*;

verus! {

/// Event payloads carried from the coordinator to a connection actor.
/// An extensible seam for the protocol layer; empty while that layer is
/// undefined.
#[derive(Debug)]
pub struct ConnectHandlerEventIn {}

/// Replies a connection actor sends back for a coordinator-issued event.
#[derive(Debug)]
pub struct ConnectHandlerEventInResponse {}

/// Event payloads carried from a connection actor up to the coordinator.
#[derive(Debug)]
pub struct ConnectHandlerEventOut {}

/// Replies the coordinator sends back for a connection actor's event.
#[derive(Debug)]
pub struct ConnectHandlerEventOutResponse {}

/// The phases of a connection actor's ownership of its socket.
#[derive(Clone, Copy, PartialEq, Eq, Structural, Debug)]
pub enum ConnState {
    /// The socket was handed over, already connected; nothing read yet.
    Established,
    /// Waiting on the socket and on the inbound command channel at once.
    Reading,
    /// Forwarding what a read produced to the coordinator.
    Dispatching,
    /// Terminal: the socket is released and the actor's task ends.
    Closed,
}

/// What a connection actor can observe while it runs.
#[derive(Clone, Copy, PartialEq, Eq, Structural, Debug)]
pub enum ConnEvent {
    /// The actor takes up its socket and begins its loop.
    Start,
    /// A read completed with this many bytes; zero means the peer closed.
    ReadDone { n: usize },
    /// A read failed with an IO error.
    ReadFailed,
    /// The coordinator commanded bytes written to the socket.
    CommandWrite,
    /// The coordinator commanded the connection closed.
    CommandClose,
    /// The forwarding of a read's events to the coordinator finished.
    DispatchDone,
    /// Sending to the coordinator failed: the coordinator is gone.
    CoordinatorGone,
}

/// What the shell must do after a step.
#[derive(Clone, Copy, PartialEq, Eq, Structural, Debug)]
pub enum ConnAction {
    /// Wait again on the socket and the inbound channel.
    BeginRead,
    /// Forward the decoded events to the coordinator over the correlator.
    DispatchToCoordinator,
    /// Apply the commanded write to the socket without leaving the read loop.
    ApplyWrite,
    /// Release the socket, notify the coordinator of the departure so it can
    /// drop the registry entry, and end the task.
    ReleaseSocket,
    /// Nothing: the event does not apply in this phase.
    Ignore,
}

/// The whole transition table. A zero-byte read, a read error, a close
/// command and a vanished coordinator all end in `Closed`; only that one
/// actor is affected. `Closed` is terminal.
pub open spec fn spec_conn_step(s: ConnState, e: ConnEvent) -> (ConnState, ConnAction) {
    match s {
        ConnState::Established => match e {
            ConnEvent::Start => (ConnState::Reading, ConnAction::BeginRead),
            ConnEvent::CommandClose => (ConnState::Closed, ConnAction::ReleaseSocket),
            ConnEvent::CoordinatorGone => (ConnState::Closed, ConnAction::ReleaseSocket),
            _ => (ConnState::Established, ConnAction::Ignore),
        },
        ConnState::Reading => match e {
            ConnEvent::ReadDone { n } => if n == 0 {
                (ConnState::Closed, ConnAction::ReleaseSocket)
            } else {
                (ConnState::Dispatching, ConnAction::DispatchToCoordinator)
            },
            ConnEvent::ReadFailed => (ConnState::Closed, ConnAction::ReleaseSocket),
            ConnEvent::CommandWrite => (ConnState::Reading, ConnAction::ApplyWrite),
            ConnEvent::CommandClose => (ConnState::Closed, ConnAction::ReleaseSocket),
            ConnEvent::CoordinatorGone => (ConnState::Closed, ConnAction::ReleaseSocket),
            _ => (ConnState::Reading, ConnAction::Ignore),
        },
        ConnState::Dispatching => match e {
            ConnEvent::DispatchDone => (ConnState::Reading, ConnAction::BeginRead),
            ConnEvent::CommandClose => (ConnState::Closed, ConnAction::ReleaseSocket),
            ConnEvent::CoordinatorGone => (ConnState::Closed, ConnAction::ReleaseSocket),
            _ => (ConnState::Dispatching, ConnAction::Ignore),
        },
        ConnState::Closed => (ConnState::Closed, ConnAction::Ignore),
    }
}

/// One step of the connection actor: the next phase and what the shell owes
/// for it, exactly as the transition table says.
pub fn conn_step(s: ConnState, e: ConnEvent) -> (r: (ConnState, ConnAction))
    ensures
        r == spec_conn_step(s, e),
{
    match s {
        ConnState::Established => match e {
            ConnEvent::Start => (ConnState::Reading, ConnAction::BeginRead),
            ConnEvent::CommandClose => (ConnState::Closed, ConnAction::ReleaseSocket),
            ConnEvent::CoordinatorGone => (ConnState::Closed, ConnAction::ReleaseSocket),
            _ => (ConnState::Established, ConnAction::Ignore),
        },
        ConnState::Reading => match e {
            ConnEvent::ReadDone { n } => if n == 0 {
                (ConnState::Closed, ConnAction::ReleaseSocket)
            } else {
                (ConnState::Dispatching, ConnAction::DispatchToCoordinator)
            },
            ConnEvent::ReadFailed => (ConnState::Closed, ConnAction::ReleaseSocket),
            ConnEvent::CommandWrite => (ConnState::Reading, ConnAction::ApplyWrite),
            ConnEvent::CommandClose => (ConnState::Closed, ConnAction::ReleaseSocket),
            ConnEvent::CoordinatorGone => (ConnState::Closed, ConnAction::ReleaseSocket),
            _ => (ConnState::Reading, ConnAction::Ignore),
        },
        ConnState::Dispatching => match e {
            ConnEvent::DispatchDone => (ConnState::Reading, ConnAction::BeginRead),
            ConnEvent::CommandClose => (ConnState::Closed, ConnAction::ReleaseSocket),
            ConnEvent::CoordinatorGone => (ConnState::Closed, ConnAction::ReleaseSocket),
            _ => (ConnState::Dispatching, ConnAction::Ignore),
        },
        ConnState::Closed => (ConnState::Closed, ConnAction::Ignore),
    }
}

/// A read that returned zero bytes or failed closes the actor and makes the
/// shell release the socket and announce the departure; no state but this
/// actor's own is touched.
pub proof fn lemma_read_failure_closes(e: ConnEvent)
    requires
        e == (ConnEvent::ReadDone { n: 0usize }) || e == ConnEvent::ReadFailed,
    ensures
        spec_conn_step(ConnState::Reading, e) == (ConnState::Closed, ConnAction::ReleaseSocket),
{
}

/// `Closed` is terminal: no event revives a closed actor, and nothing more
/// is asked of the shell for it.
pub proof fn lemma_closed_terminal(e: ConnEvent)
    ensures
        spec_conn_step(ConnState::Closed, e) == (ConnState::Closed, ConnAction::Ignore),
{
}

/// A send failure toward the coordinator is fatal to the calling actor
/// alone: from every live phase, the actor closes and its socket is
/// released.
pub proof fn lemma_coordinator_gone_closes(s: ConnState)
    requires
        s != ConnState::Closed,
    ensures
        spec_conn_step(s, ConnEvent::CoordinatorGone) == (
            ConnState::Closed,
            ConnAction::ReleaseSocket,
        ),
{
}

} // verus!
