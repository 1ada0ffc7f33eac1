//! The listener actor: the one owner of a bound listening socket. Each round
//! of its loop settles either with an accepted connection or with an accept
//! error; the library decides what each round does to the shared registry and
//! what the shell must spawn, and guarantees that accept errors never end the
//! loop.

use crate::addr::SockAddr;
use crate::registry::{ConnectionHandle, Registry};
use vstd::prelude::*;

verus! {

/// Replies a listener actor sends back for a coordinator-issued event.
#[derive(Debug)]
pub struct AcceptHandlerEventInResponse {}

/// Event payloads carried from the coordinator to a listener actor.
/// An extensible seam for the protocol layer; empty while that layer is
/// undefined.
#[derive(Debug)]
pub struct AcceptHandlerEventIn {}

/// Replies the coordinator sends back for a listener actor's event.
#[derive(Debug)]
pub struct AcceptHandlerEventOutResponse {}

/// Event payloads carried from a listener actor up to the coordinator.
#[derive(Debug)]
pub struct AcceptHandlerEventOut {}

/// How one round of the listener loop settled.
#[derive(Clone, Copy, PartialEq, Eq, Structural, Debug)]
pub enum AcceptOutcome {
    /// A connection from this peer address was accepted.
    Accepted { peer: SockAddr },
    /// The accept failed; the error is recorded, nothing more.
    Failed,
}

/// What the shell must do after a round.
#[derive(Clone, Copy, PartialEq, Eq, Structural, Debug)]
pub enum ListenerAction {
    /// Spawn the connection actor for this peer; the fresh inbound channel
    /// registered for it carries this id.
    SpawnConnection { peer: SockAddr, chan: u64 },
    /// An entry for this peer is still live: the new connection is refused
    /// rather than silently replacing the live handle.
    RejectConnection { peer: SockAddr },
    /// Keep waiting for the next connection.
    KeepListening,
}

/// What one settled round does: an accept error changes nothing and the loop
/// goes on listening; an accepted fresh peer is registered under a fresh
/// channel id and its actor is spawned; a peer whose entry is still live is
/// refused.
pub open spec fn spec_on_accept(
    m: Map<SockAddr, ConnectionHandle>,
    next_chan: u64,
    outcome: AcceptOutcome,
) -> (Map<SockAddr, ConnectionHandle>, u64, ListenerAction) {
    match outcome {
        AcceptOutcome::Failed => (m, next_chan, ListenerAction::KeepListening),
        AcceptOutcome::Accepted { peer } => if m.contains_key(peer) {
            (m, next_chan, ListenerAction::RejectConnection { peer })
        } else {
            (
                m.insert(peer, ConnectionHandle { peer, chan: next_chan }),
                (next_chan + 1) as u64,
                ListenerAction::SpawnConnection { peer, chan: next_chan },
            )
        },
    }
}

/// One round of the listener loop, on the shared registry. `next_chan` is
/// the coordinator-wide supply of fresh channel ids.
pub fn on_accept(registry: &mut Registry, next_chan: &mut u64, outcome: AcceptOutcome) -> (r:
    ListenerAction)
    requires
        old(registry).wf(),
        *old(next_chan) < u64::MAX,
    ensures
        final(registry).wf(),
        (final(registry)@, *final(next_chan), r) == spec_on_accept(
            old(registry)@,
            *old(next_chan),
            outcome,
        ),
{
    match outcome {
        AcceptOutcome::Failed => ListenerAction::KeepListening,
        AcceptOutcome::Accepted { peer } => {
            let chan: u64 = *next_chan;
            let handle = ConnectionHandle { peer, chan };
            if registry.register(handle) {
                *next_chan = chan + 1;
                ListenerAction::SpawnConnection { peer, chan }
            } else {
                ListenerAction::RejectConnection { peer }
            }
        },
    }
}

/// An accept error is absorbed: the registry and the id supply are left as
/// they were and the listener keeps listening — and a later accepted fresh
/// peer on the same listener is still registered and its actor spawned.
pub proof fn lemma_accept_error_not_fatal(
    m: Map<SockAddr, ConnectionHandle>,
    next_chan: u64,
    peer: SockAddr,
)
    requires
        !m.contains_key(peer),
    ensures
        ({
            let (m1, n1, a1) = spec_on_accept(m, next_chan, AcceptOutcome::Failed);
            m1 == m && n1 == next_chan && a1 == ListenerAction::KeepListening && spec_on_accept(
                m1,
                n1,
                (AcceptOutcome::Accepted { peer }),
            ) == (
                m.insert(peer, (ConnectionHandle { peer, chan: next_chan })),
                (next_chan + 1) as u64,
                (ListenerAction::SpawnConnection { peer, chan: next_chan }),
            )
        }),
{
}

} // verus!
