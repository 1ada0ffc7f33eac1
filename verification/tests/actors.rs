use irc_endpoint::accept_handler::{on_accept, AcceptHandlerEventOut, AcceptOutcome, ListenerAction};
use irc_endpoint::addr::SockAddr;
use irc_endpoint::connect_handler::{conn_step, ConnAction, ConnEvent, ConnState};
use irc_endpoint::correlator::{
    resolve_call, CallConfig, CallError, CallOutcome, Envelope, DEFAULT_DEADLINE_MS,
};
use irc_endpoint::endpoint_handler::{EndpointAction, EndpointEvent, IrcEndpointBackend};
use irc_endpoint::registry::{ConnectionHandle, Registry};

fn peer(o4: u8, port: u16) -> SockAddr {
    SockAddr { o1: 192, o2: 168, o3: 0, o4, port }
}

#[test]
fn registry_register_lookup_remove() {
    let mut r = Registry::new();
    assert_eq!(r.len(), 0);
    let h = ConnectionHandle { peer: peer(1, 5000), chan: 7 };
    assert!(r.register(h));
    assert_eq!(r.len(), 1);
    assert_eq!(r.lookup(&peer(1, 5000)), Some(h));
    assert_eq!(r.lookup(&peer(2, 5000)), None);
    assert!(r.remove(&peer(1, 5000)));
    assert_eq!(r.len(), 0);
    assert_eq!(r.lookup(&peer(1, 5000)), None);
    assert!(!r.remove(&peer(1, 5000)));
}

#[test]
fn registry_keeps_first_entry_for_a_peer() {
    let mut r = Registry::new();
    let first = ConnectionHandle { peer: peer(1, 5000), chan: 1 };
    let second = ConnectionHandle { peer: peer(1, 5000), chan: 2 };
    assert!(r.register(first));
    assert!(!r.register(second));
    assert_eq!(r.len(), 1);
    assert_eq!(r.lookup(&peer(1, 5000)), Some(first));
}

#[test]
fn distinct_accepts_fill_registry() {
    // three concurrent accepts from distinct peers: one entry each, and each
    // entry routes to its own actor's channel
    let mut reg = Registry::new();
    let mut next_chan: u64 = 0;
    for i in 0..3u8 {
        let action = on_accept(
            &mut reg,
            &mut next_chan,
            AcceptOutcome::Accepted { peer: peer(i, 6000) },
        );
        assert_eq!(
            action,
            ListenerAction::SpawnConnection { peer: peer(i, 6000), chan: i as u64 }
        );
    }
    assert_eq!(reg.len(), 3);
    for i in 0..3u8 {
        let h = reg.lookup(&peer(i, 6000)).unwrap();
        assert_eq!(h.chan, i as u64);
        assert_eq!(h.peer, peer(i, 6000));
    }
}

#[test]
fn accept_error_is_not_fatal() {
    // a failed accept leaves everything as it was and the loop listening;
    // the next valid accept still succeeds
    let mut reg = Registry::new();
    let mut next_chan: u64 = 0;
    assert_eq!(
        on_accept(&mut reg, &mut next_chan, AcceptOutcome::Failed),
        ListenerAction::KeepListening
    );
    assert_eq!(reg.len(), 0);
    assert_eq!(next_chan, 0);
    assert_eq!(
        on_accept(&mut reg, &mut next_chan, AcceptOutcome::Accepted { peer: peer(9, 1234) }),
        ListenerAction::SpawnConnection { peer: peer(9, 1234), chan: 0 }
    );
    assert_eq!(reg.len(), 1);
}

#[test]
fn reconnecting_peer_with_live_entry_is_rejected() {
    let mut reg = Registry::new();
    let mut next_chan: u64 = 0;
    on_accept(&mut reg, &mut next_chan, AcceptOutcome::Accepted { peer: peer(5, 7777) });
    assert_eq!(
        on_accept(&mut reg, &mut next_chan, AcceptOutcome::Accepted { peer: peer(5, 7777) }),
        ListenerAction::RejectConnection { peer: peer(5, 7777) }
    );
    assert_eq!(reg.len(), 1);
    assert_eq!(reg.lookup(&peer(5, 7777)).unwrap().chan, 0);
}

#[test]
fn registry_enumerates_every_live_peer_once() {
    let mut r = Registry::new();
    assert!(r.register(ConnectionHandle { peer: peer(1, 10), chan: 0 }));
    assert!(r.register(ConnectionHandle { peer: peer(2, 20), chan: 1 }));
    assert!(r.register(ConnectionHandle { peer: peer(3, 30), chan: 2 }));
    assert!(r.remove(&peer(2, 20)));
    assert_eq!(r.peers(), vec![peer(1, 10), peer(3, 30)]);
}

#[test]
fn zero_byte_read_closes_the_actor() {
    assert_eq!(
        conn_step(ConnState::Reading, ConnEvent::ReadDone { n: 0 }),
        (ConnState::Closed, ConnAction::ReleaseSocket)
    );
}

#[test]
fn read_error_closes_the_actor() {
    assert_eq!(
        conn_step(ConnState::Reading, ConnEvent::ReadFailed),
        (ConnState::Closed, ConnAction::ReleaseSocket)
    );
}

#[test]
fn successful_read_dispatches_then_reads_again() {
    assert_eq!(
        conn_step(ConnState::Established, ConnEvent::Start),
        (ConnState::Reading, ConnAction::BeginRead)
    );
    assert_eq!(
        conn_step(ConnState::Reading, ConnEvent::ReadDone { n: 42 }),
        (ConnState::Dispatching, ConnAction::DispatchToCoordinator)
    );
    assert_eq!(
        conn_step(ConnState::Dispatching, ConnEvent::DispatchDone),
        (ConnState::Reading, ConnAction::BeginRead)
    );
}

#[test]
fn commands_apply_without_leaving_reading() {
    assert_eq!(
        conn_step(ConnState::Reading, ConnEvent::CommandWrite),
        (ConnState::Reading, ConnAction::ApplyWrite)
    );
    assert_eq!(
        conn_step(ConnState::Reading, ConnEvent::CommandClose),
        (ConnState::Closed, ConnAction::ReleaseSocket)
    );
}

#[test]
fn coordinator_gone_is_fatal_to_the_actor() {
    assert_eq!(
        conn_step(ConnState::Reading, ConnEvent::CoordinatorGone),
        (ConnState::Closed, ConnAction::ReleaseSocket)
    );
    assert_eq!(
        conn_step(ConnState::Dispatching, ConnEvent::CoordinatorGone),
        (ConnState::Closed, ConnAction::ReleaseSocket)
    );
}

#[test]
fn closed_is_terminal() {
    assert_eq!(
        conn_step(ConnState::Closed, ConnEvent::Start),
        (ConnState::Closed, ConnAction::Ignore)
    );
    assert_eq!(
        conn_step(ConnState::Closed, ConnEvent::ReadDone { n: 10 }),
        (ConnState::Closed, ConnAction::Ignore)
    );
}

#[test]
fn call_replied_returns_the_reply() {
    assert_eq!(resolve_call(CallOutcome::Replied(31u32)), Ok(31u32));
}

#[test]
fn dropped_reply_channel_is_no_response_not_timeout() {
    let dropped: Result<u32, CallError> = resolve_call(CallOutcome::ReplyClosed);
    let elapsed: Result<u32, CallError> = resolve_call(CallOutcome::DeadlineElapsed);
    assert_eq!(dropped, Err(CallError::NoResponse));
    assert_eq!(elapsed, Err(CallError::Timeout));
    assert_ne!(dropped, elapsed);
}

#[test]
fn closed_outbound_channel_is_send_failed() {
    let r: Result<u32, CallError> = resolve_call(CallOutcome::SendClosed);
    assert_eq!(r, Err(CallError::SendFailed));
}

#[test]
fn default_deadline_is_five_seconds() {
    assert_eq!(CallConfig::default().deadline_ms, DEFAULT_DEADLINE_MS);
    assert_eq!(DEFAULT_DEADLINE_MS, 5000);
}

#[test]
fn every_envelope_reply_is_dropped_deliberately() {
    let mut b = IrcEndpointBackend::new(vec!["0.0.0.0:4096"], vec![]).unwrap();
    let action = b.handle_event(EndpointEvent::FromAcceptHandler {
        envelope: Envelope { payload: AcceptHandlerEventOut {}, reply_chan: 11 },
    });
    assert_eq!(action, EndpointAction::DropReply { reply_chan: 11 });
}

#[test]
fn departure_notice_removes_only_that_entry() {
    let mut b = IrcEndpointBackend::new(vec!["0.0.0.0:4096"], vec![]).unwrap();
    on_accept(
        &mut b.connect_handlers,
        &mut b.next_chan,
        AcceptOutcome::Accepted { peer: peer(1, 1111) },
    );
    on_accept(
        &mut b.connect_handlers,
        &mut b.next_chan,
        AcceptOutcome::Accepted { peer: peer(2, 2222) },
    );
    assert_eq!(
        b.handle_event(EndpointEvent::ConnectionClosed { peer: peer(1, 1111) }),
        EndpointAction::Continue
    );
    assert_eq!(b.connect_handlers.lookup(&peer(1, 1111)), None);
    let kept = b.connect_handlers.lookup(&peer(2, 2222)).unwrap();
    assert_eq!(kept.chan, 1);
    assert_eq!(b.connect_handlers.len(), 1);
}

#[test]
fn loop_stops_only_when_both_channels_close() {
    let mut b = IrcEndpointBackend::new(vec!["0.0.0.0:4096"], vec![]).unwrap();
    assert_eq!(
        b.handle_event(EndpointEvent::ConnectionClosed { peer: peer(3, 3333) }),
        EndpointAction::Continue
    );
    assert_eq!(b.handle_event(EndpointEvent::ChannelsClosed), EndpointAction::Stop);
}
