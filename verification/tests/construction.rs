use irc_endpoint::addr::{parse_sock_addr, SockAddr};
use irc_endpoint::endpoint_handler::{BindOutcome, ConstructError, IrcEndpointBackend, StartError};

fn sa(o1: u8, o2: u8, o3: u8, o4: u8, port: u16) -> SockAddr {
    SockAddr { o1, o2, o3, o4, port }
}

#[test]
fn mk_irc_endpoint() {
    assert!(IrcEndpointBackend::new(vec!["0.0.0.0:4096"], vec![]).is_ok());

    assert!(IrcEndpointBackend::new(vec!["0.0.0.0:4096:"], vec![]).is_err());

    assert!(IrcEndpointBackend::new(vec![], vec![]).is_err());
}

#[test]
fn parse_plain_quad() {
    assert_eq!(parse_sock_addr("0.0.0.0:4096"), Some(sa(0, 0, 0, 0, 4096)));
    assert_eq!(parse_sock_addr("1.2.3.4:80"), Some(sa(1, 2, 3, 4, 80)));
    assert_eq!(
        parse_sock_addr("255.255.255.255:65535"),
        Some(sa(255, 255, 255, 255, 65535))
    );
    assert_eq!(parse_sock_addr("0.0.0.0:0"), Some(sa(0, 0, 0, 0, 0)));
}

#[test]
fn parse_accepts_leading_zeros() {
    assert_eq!(parse_sock_addr("01.002.3.4:0080"), Some(sa(1, 2, 3, 4, 80)));
}

#[test]
fn parse_rejects_malformed() {
    assert_eq!(parse_sock_addr("0.0.0.0:4096:"), None);
    assert_eq!(parse_sock_addr("256.0.0.0:80"), None);
    assert_eq!(parse_sock_addr("1.2.3:80"), None);
    assert_eq!(parse_sock_addr("1.2.3.4.5:80"), None);
    assert_eq!(parse_sock_addr("1.2.3.4:65536"), None);
    assert_eq!(parse_sock_addr("1.2.3.4"), None);
    assert_eq!(parse_sock_addr("1.2.3.4:"), None);
    assert_eq!(parse_sock_addr(":80"), None);
    assert_eq!(parse_sock_addr(""), None);
    assert_eq!(parse_sock_addr("a.b.c.d:80"), None);
    assert_eq!(parse_sock_addr("1.2.3.4:8x"), None);
    assert_eq!(parse_sock_addr("1.2.3.4:123456"), None);
    assert_eq!(parse_sock_addr("1..3.4:80"), None);
}

#[test]
fn new_parses_every_address() {
    let b = IrcEndpointBackend::new(
        vec!["0.0.0.0:4096", "127.0.0.1:6667"],
        vec!["10.0.0.1:6697"],
    )
    .unwrap();
    assert_eq!(b.bind_addrs_plain, vec![sa(0, 0, 0, 0, 4096), sa(127, 0, 0, 1, 6667)]);
    assert_eq!(b.bind_addrs_tls, vec![sa(10, 0, 0, 1, 6697)]);
    assert_eq!(b.accept_handlers.len(), 0);
    assert_eq!(b.next_chan, 0);
}

#[test]
fn new_reports_empty_lists() {
    match IrcEndpointBackend::new(vec![], vec![]) {
        Err(ConstructError::NoBindAddresses) => {}
        _ => panic!("both lists empty must fail with NoBindAddresses"),
    }
}

#[test]
fn new_reports_first_bad_plain_address() {
    match IrcEndpointBackend::new(vec!["0.0.0.0:1", "bogus", "also bad"], vec![]) {
        Err(ConstructError::AddressParse { addr }) => assert_eq!(addr, "bogus"),
        _ => panic!("a malformed plain address must fail with AddressParse"),
    }
}

#[test]
fn new_validates_tls_addresses_too() {
    match IrcEndpointBackend::new(vec!["0.0.0.0:1"], vec!["1.2.3.4:99999"]) {
        Err(ConstructError::AddressParse { addr }) => assert_eq!(addr, "1.2.3.4:99999"),
        _ => panic!("a malformed tls address must fail with AddressParse"),
    }
    assert!(IrcEndpointBackend::new(vec![], vec!["1.2.3.4:6697"]).is_ok());
}

#[test]
fn start_records_one_listener_per_bound_address() {
    let mut b = IrcEndpointBackend::new(vec!["0.0.0.0:4096", "0.0.0.0:0"], vec![]).unwrap();
    let outcomes = vec![
        BindOutcome::Bound { local: sa(0, 0, 0, 0, 4096) },
        // requested port 0: the system assigned an ephemeral port
        BindOutcome::Bound { local: sa(0, 0, 0, 0, 54321) },
    ];
    assert!(b.complete_start(outcomes).is_ok());
    assert_eq!(b.accept_handlers, vec![(sa(0, 0, 0, 0, 4096), 0u64), (sa(0, 0, 0, 0, 54321), 1u64)]);
    assert_eq!(b.next_chan, 2);
}

#[test]
fn start_is_all_or_nothing() {
    let mut b = IrcEndpointBackend::new(vec!["0.0.0.0:4096", "0.0.0.0:81"], vec![]).unwrap();
    let outcomes = vec![
        BindOutcome::Bound { local: sa(0, 0, 0, 0, 4096) },
        BindOutcome::BindError { msg: String::from("address in use") },
    ];
    match b.complete_start(outcomes) {
        Err(StartError::BindFailed { addr, msg }) => {
            assert_eq!(addr, sa(0, 0, 0, 0, 81));
            assert_eq!(msg, "address in use");
        }
        _ => panic!("one failed bind must fail the whole start"),
    }
    assert_eq!(b.accept_handlers.len(), 0);
    assert_eq!(b.next_chan, 0);
}
