//! The coordinator: owner of the bind addresses, the bound-listener handles
//! and the shared connection registry, and the only component that issues
//! commands downward. Construction is pure validation; binding is performed
//! by the asynchronous shell, which reports every outcome back; the event
//! loop is a step function the shell calls once per wakeup.

use crate::accept_handler::AcceptHandlerEventOut;
use crate::addr::{first_bad_from, spec_parse_sock_addr, SockAddr};
use crate::addr::parse_sock_addr;
use crate::connect_handler::ConnectHandlerEventOut;
use crate::correlator::Envelope;
use crate::registry::{ConnectionHandle, Registry};
use vstd::pervasive::unreached;
use vstd::prelude::*;

verus! {

/// Why construction failed. Both are surfaced synchronously and are fatal to
/// construction.
#[derive(PartialEq, Eq, Debug)]
pub enum ConstructError {
    /// Both address lists were empty.
    NoBindAddresses,
    /// This address string is not a valid `host:port`.
    AddressParse { addr: String },
}

/// How one bind attempt ended, as the shell reports it.
#[derive(PartialEq, Eq, Debug)]
pub enum BindOutcome {
    /// Bound; the address actually bound (for a requested port 0 the system
    /// fills in the ephemeral port it assigned).
    Bound { local: SockAddr },
    /// The bind failed, with its cause as text.
    BindError { msg: String },
}

/// Why starting failed. No listener set is left partially running.
#[derive(PartialEq, Eq, Debug)]
pub enum StartError {
    /// This requested address could not be bound.
    BindFailed { addr: SockAddr, msg: String },
}

/// An event the coordinator's loop multiplexes, one per wakeup.
pub enum EndpointEvent {
    /// An envelope from some listener actor.
    FromAcceptHandler { envelope: Envelope<AcceptHandlerEventOut> },
    /// An envelope from some connection actor.
    FromConnectHandler { envelope: Envelope<ConnectHandlerEventOut> },
    /// A connection actor announced its departure before its task ends;
    /// this notice, not channel detection, is what drives registry cleanup.
    ConnectionClosed { peer: SockAddr },
    /// Both upward channels have closed: every actor has exited.
    ChannelsClosed,
}

/// What the shell must do after one wakeup.
#[derive(Clone, Copy, PartialEq, Eq, Structural, Debug)]
pub enum EndpointAction {
    /// Drop this reply sender, deliberately: while the protocol layer is
    /// undefined the coordinator answers no envelope, and the dropped
    /// sender lets the waiting caller observe `NoResponse` rather than hang.
    DropReply { reply_chan: u64 },
    /// Keep multiplexing.
    Continue,
    /// End the loop.
    Stop,
}

/// The index of the first outcome in `s` at or after `i` that is a failed
/// bind, or -1 if every one succeeded.
pub open spec fn first_bind_error_from(s: Seq<BindOutcome>, i: int) -> int
    decreases s.len() - i,
{
    if i < 0 || i >= s.len() {
        -1
    } else if s[i] is BindError {
        i
    } else {
        first_bind_error_from(s, i + 1)
    }
}

/// The coordinator of the whole endpoint: its bind targets, its running
/// listeners and the shared registry of connection actors.
pub struct IrcEndpointBackend {
    /// The plain-transport addresses to listen on. Immutable after
    /// construction.
    pub bind_addrs_plain: Vec<SockAddr>,
    /// The TLS addresses: the extension point for the TLS collaborator.
    /// Kept and validated, not bound here.
    pub bind_addrs_tls: Vec<SockAddr>,
    /// One entry per running listener actor: its bound local address and
    /// the id of its inbound command channel. Owned by the coordinator.
    pub accept_handlers: Vec<(SockAddr, u64)>,
    /// The shared table of live connection actors, keyed by peer address.
    pub connect_handlers: Registry,
    /// The supply of fresh channel ids; never reused.
    pub next_chan: u64,
}

/// Parses every address of `l`, or reports the index of the first that does
/// not parse.
fn parse_addr_list(l: &Vec<&str>) -> (r: Result<Vec<SockAddr>, usize>)
    ensures
        match r {
            Ok(v) => first_bad_from(l@, 0) == -1 && v@.len() == l@.len() && (forall|i: int|
                0 <= i < l@.len() ==> Some(v@[i]) == spec_parse_sock_addr(
                    (#[trigger] l@[i])@,
                )),
            Err(i) => first_bad_from(l@, 0) == i && i < l@.len() && spec_parse_sock_addr(
                l@[i as int]@,
            ) is None,
        },
{
    let n: usize = l.len();
    let mut out: Vec<SockAddr> = Vec::new();
    let mut i: usize = 0;
    while i < n
        invariant
            n == l@.len(),
            i <= n,
            out@.len() == i,
            forall|j: int| 0 <= j < i ==> Some(out@[j]) == spec_parse_sock_addr((#[trigger] l@[j])@),
            first_bad_from(l@, 0) == first_bad_from(l@, i as int),
        decreases n - i,
    {
        match parse_sock_addr(l[i]) {
            Some(a) => {
                out.push(a);
            },
            None => {
                return Err(i);
            },
        }
        i = i + 1;
    }
    Ok(out)
}

impl IrcEndpointBackend {
    /// The coordinator's internal shape: the registry holds at most one
    /// entry per peer.
    pub open spec fn wf(&self) -> bool {
        self.connect_handlers.wf()
    }

    /// Pure validation and state initialization; no socket is bound here.
    /// Fails with `NoBindAddresses` exactly when both lists are empty, and
    /// with `AddressParse` carrying the first string (plain list first) that
    /// is not a valid `host:port`; otherwise every address of both lists is
    /// parsed, the registry is empty and no listener is running.
    pub fn new(bind_addrs_plain: Vec<&str>, bind_addrs_tls: Vec<&str>) -> (r: Result<
        IrcEndpointBackend,
        ConstructError,
    >)
        ensures
            ({
                let pb = first_bad_from(bind_addrs_plain@, 0);
                let tb = first_bad_from(bind_addrs_tls@, 0);
                match r {
                    Ok(b) => (bind_addrs_plain@.len() > 0 || bind_addrs_tls@.len() > 0) && pb
                        == -1 && tb == -1 && b.wf() && b.bind_addrs_plain@.len()
                        == bind_addrs_plain@.len() && (forall|i: int|
                        0 <= i < bind_addrs_plain@.len() ==> Some(b.bind_addrs_plain@[i])
                            == spec_parse_sock_addr((#[trigger] bind_addrs_plain@[i])@))
                        && b.bind_addrs_tls@.len() == bind_addrs_tls@.len() && (forall|i: int|
                        0 <= i < bind_addrs_tls@.len() ==> Some(b.bind_addrs_tls@[i])
                            == spec_parse_sock_addr((#[trigger] bind_addrs_tls@[i])@))
                        && b.connect_handlers@ == Map::<SockAddr, ConnectionHandle>::empty()
                        && b.accept_handlers@.len() == 0 && b.next_chan == 0,
                    Err(ConstructError::NoBindAddresses) => bind_addrs_plain@.len() == 0
                        && bind_addrs_tls@.len() == 0,
                    Err(ConstructError::AddressParse { addr }) => (bind_addrs_plain@.len() > 0
                        || bind_addrs_tls@.len() > 0) && (if pb >= 0 {
                        addr@ == (bind_addrs_plain@[pb])@
                    } else {
                        tb >= 0 && addr@ == (bind_addrs_tls@[tb])@
                    }),
                }
            }),
    {
        if bind_addrs_plain.len() == 0 && bind_addrs_tls.len() == 0 {
            return Err(ConstructError::NoBindAddresses);
        }
        let parsed_plain = match parse_addr_list(&bind_addrs_plain) {
            Ok(v) => v,
            Err(i) => {
                return Err(ConstructError::AddressParse { addr: bind_addrs_plain[i].to_owned() });
            },
        };
        let parsed_tls = match parse_addr_list(&bind_addrs_tls) {
            Ok(v) => v,
            Err(i) => {
                return Err(ConstructError::AddressParse { addr: bind_addrs_tls[i].to_owned() });
            },
        };
        Ok(
            IrcEndpointBackend {
                bind_addrs_plain: parsed_plain,
                bind_addrs_tls: parsed_tls,
                accept_handlers: Vec::new(),
                connect_handlers: Registry::new(),
                next_chan: 0,
            },
        )
    }

    /// The all-or-nothing verdict on the shell's bind attempts, one outcome
    /// per plain address, in order. If every bind succeeded, one listener
    /// handle is recorded per bound address, each with a fresh command
    /// channel id, and the shell must spawn those listener actors. If any
    /// bind failed, the whole start fails with that first address and cause,
    /// and no listener handle is recorded: nothing is left partially
    /// running. Binding the TLS list is the TLS collaborator's extension
    /// point and is a no-op pass-through here.
    pub fn complete_start(&mut self, outcomes: Vec<BindOutcome>) -> (r: Result<(), StartError>)
        requires
            old(self).wf(),
            old(self).accept_handlers@.len() == 0,
            outcomes@.len() == old(self).bind_addrs_plain@.len(),
            old(self).next_chan + outcomes@.len() <= u64::MAX,
        ensures
            final(self).wf(),
            final(self).bind_addrs_plain == old(self).bind_addrs_plain,
            final(self).bind_addrs_tls == old(self).bind_addrs_tls,
            final(self).connect_handlers == old(self).connect_handlers,
            ({
                let before = *old(self);
                let after = *final(self);
                let fb = first_bind_error_from(outcomes@, 0);
                match r {
                    Ok(_) => fb == -1 && after.accept_handlers@.len() == outcomes@.len() && (
                    forall|i: int|
                        0 <= i < outcomes@.len() ==> ((#[trigger] outcomes@[i]) matches
                        BindOutcome::Bound { local }
                            && after.accept_handlers@[i].0 == local && after.accept_handlers@[i].1
                            == before.next_chan + i)) && after.next_chan == before.next_chan
                        + outcomes@.len(),
                    Err(StartError::BindFailed { addr, msg }) => fb >= 0 && addr
                        == before.bind_addrs_plain@[fb] && (
                    outcomes@[fb] matches BindOutcome::BindError { msg: cause } && msg@ == cause@)
                        && after.accept_handlers@.len() == 0 && after.next_chan
                        == before.next_chan,
                }
            }),
    {
        let n: usize = outcomes.len();
        let mut i: usize = 0;
        while i < n
            invariant
                n == outcomes@.len(),
                i <= n,
                *self == *old(self),
                self.accept_handlers@.len() == 0,
                self.wf(),
                n == self.bind_addrs_plain@.len(),
                first_bind_error_from(outcomes@, 0) == first_bind_error_from(outcomes@, i as int),
                forall|j: int| 0 <= j < i ==> (#[trigger] outcomes@[j]) is Bound,
            decreases n - i,
        {
            match &outcomes[i] {
                BindOutcome::BindError { msg } => {
                    proof {
                        assert(first_bind_error_from(outcomes@, i as int) == i as int);
                    }
                    return Err(
                        StartError::BindFailed { addr: self.bind_addrs_plain[i], msg: msg.clone() },
                    );
                },
                BindOutcome::Bound { local: _ } => {},
            }
            i = i + 1;
        }
        let mut k: usize = 0;
        while k < n
            invariant
                n == outcomes@.len(),
                k <= n,
                self.wf(),
                self.bind_addrs_plain == old(self).bind_addrs_plain,
                self.bind_addrs_tls == old(self).bind_addrs_tls,
                self.connect_handlers == old(self).connect_handlers,
                old(self).next_chan + n <= u64::MAX,
                self.next_chan == old(self).next_chan + k,
                self.accept_handlers@.len() == k,
                forall|j: int| 0 <= j < n ==> (#[trigger] outcomes@[j]) is Bound,
                forall|j: int|
                    0 <= j < k ==> ((#[trigger] outcomes@[j]) matches BindOutcome::Bound { local }
                        && self.accept_handlers@[j].0 == local && self.accept_handlers@[j].1
                        == old(self).next_chan + j),
            decreases n - k,
        {
            let local: SockAddr = match &outcomes[k] {
                BindOutcome::Bound { local } => *local,
                BindOutcome::BindError { msg: _ } => {
                    proof {
                        assert(outcomes@[k as int] is Bound);
                    }
                    unreached()
                },
            };
            let chan: u64 = self.next_chan;
            self.accept_handlers.push((local, chan));
            self.next_chan = chan + 1;
            k = k + 1;
        }
        Ok(())
    }

    /// One wakeup of the coordinator's event loop, processing one event.
    /// Every envelope's reply sender is dropped deliberately — the protocol
    /// atop the transport is undefined, and the drop lets the caller observe
    /// `NoResponse` rather than hang. A departure notice removes exactly the
    /// departed peer's registry entry. The loop stops only when both upward
    /// channels have closed, that is, when every actor has exited; no single
    /// event terminates it.
    pub fn handle_event(&mut self, ev: EndpointEvent) -> (r: EndpointAction)
        requires
            old(self).wf(),
        ensures
            final(self).wf(),
            final(self).bind_addrs_plain == old(self).bind_addrs_plain,
            final(self).bind_addrs_tls == old(self).bind_addrs_tls,
            final(self).accept_handlers == old(self).accept_handlers,
            final(self).next_chan == old(self).next_chan,
            ({
                let before = *old(self);
                let after = *final(self);
                match ev {
                    EndpointEvent::FromAcceptHandler { envelope } => r
                        == (EndpointAction::DropReply { reply_chan: envelope.reply_chan })
                        && after.connect_handlers@ == before.connect_handlers@,
                    EndpointEvent::FromConnectHandler { envelope } => r
                        == (EndpointAction::DropReply { reply_chan: envelope.reply_chan })
                        && after.connect_handlers@ == before.connect_handlers@,
                    EndpointEvent::ConnectionClosed { peer } => r == EndpointAction::Continue
                        && after.connect_handlers@ == before.connect_handlers@.remove(peer),
                    EndpointEvent::ChannelsClosed => r == EndpointAction::Stop
                        && after.connect_handlers@ == before.connect_handlers@,
                }
            }),
    {
        match ev {
            EndpointEvent::FromAcceptHandler { envelope } => EndpointAction::DropReply {
                reply_chan: envelope.reply_chan,
            },
            EndpointEvent::FromConnectHandler { envelope } => EndpointAction::DropReply {
                reply_chan: envelope.reply_chan,
            },
            EndpointEvent::ConnectionClosed { peer } => {
                self.connect_handlers.remove(&peer);
                EndpointAction::Continue
            },
            EndpointEvent::ChannelsClosed => EndpointAction::Stop,
        }
    }
}

impl IrcEndpointBackend {
    pub fn lol() {
    }
}

/// Removing a departed peer's registry entry touches nothing else: the
/// departed peer's entry is gone, and every other peer's entry is exactly
/// what it was.
pub proof fn lemma_departure_removes_only_own_entry(
    m: Map<SockAddr, ConnectionHandle>,
    peer: SockAddr,
)
    ensures
        !m.remove(peer).contains_key(peer),
        forall|q: SockAddr| q != peer ==> (m.remove(peer).contains_key(q) <==> m.contains_key(q)),
        forall|q: SockAddr| q != peer && m.contains_key(q) ==> m.remove(peer)[q] == m[q],
{
    broadcast use vstd::map::group_map_axioms;

}

} // verus!
