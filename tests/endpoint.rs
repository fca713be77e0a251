use libp2p::identity::Keypair;
use libp2p::PeerId;
use libp2p_wasm::address::{is_websocket_stack, parse_dial_target, str_eq, AddressError};
use libp2p_wasm::manager::{Action, ConnState, Event, Failure, Manager};
use libp2p_wasm::peer::{bytes_eq, check_identify, judge_identify, Identity, IdentifyVerdict, RemotePeerInfo, PROTOCOL_NAME};
use libp2p_wasm::pipeline::{Layer, Pipeline, UPGRADE_TIMEOUT_MS};

const KRAS: &str = "/dns4/kras-00.fluence.dev/tcp/19990/wss/p2p/12D3KooWSD5PToNiLQwKDXsu8JSysCwUt8BVUJEqCHcDe7P5h45e";

const PLAIN: &str = "/dns4/example.test/tcp/1/wss";

fn keypair(seed: u8) -> Keypair {
    Keypair::ed25519_from_bytes([seed; 32]).unwrap()
}

fn encoded_key(seed: u8) -> Vec<u8> {
    keypair(seed).public().encode_protobuf()
}

fn peer_bytes(seed: u8) -> Vec<u8> {
    PeerId::from_public_key(&keypair(seed).public()).to_bytes()
}

fn peer_text(seed: u8) -> String {
    PeerId::from_public_key(&keypair(seed).public()).to_base58()
}

fn identity(seed: u8) -> Identity {
    Identity::from_public_key(encoded_key(seed)).unwrap()
}

fn manager() -> Manager {
    Manager::new(&Pipeline::build(identity(1)))
}

fn info_for(seed: u8) -> RemotePeerInfo {
    RemotePeerInfo {
        peer_id: peer_bytes(seed),
        public_key: encoded_key(seed),
        protocol_version: PROTOCOL_NAME.to_string(),
        agent_version: "remote/1.0".to_string(),
        listen_addrs: vec![],
    }
}

/// Dials and brings connection 0 to `Ready`.
fn ready_manager(remote_seed: u8) -> Manager {
    let mut m = manager();
    m.start_event_loop();
    let target = format!("/dns4/example.test/tcp/1/wss/p2p/{}", peer_text(remote_seed));
    assert_eq!(m.dial(&target, 0), Ok(0));
    assert!(matches!(m.handle(Event::RawOpened { conn: 0 }), Action::Absorb));
    assert!(matches!(
        m.handle(Event::HandshakeDone { conn: 0, remote: peer_bytes(remote_seed) }),
        Action::Absorb
    ));
    assert!(matches!(m.handle(Event::MultiplexReady { conn: 0 }), Action::StartIdentify { conn: 0 }));
    assert_eq!(m.state(0), ConnState::Ready);
    m
}

#[test]
fn parses_the_fixed_target() {
    let t = parse_dial_target(KRAS).unwrap();
    assert_eq!(t.text, KRAS);
    assert!(t.secure);
    let expected: PeerId = "12D3KooWSD5PToNiLQwKDXsu8JSysCwUt8BVUJEqCHcDe7P5h45e".parse().unwrap();
    assert_eq!(t.peer, Some(expected.to_bytes()));
}

#[test]
fn parses_plain_websocket_without_peer() {
    let t = parse_dial_target("/ip4/10.0.0.1/tcp/80/ws").unwrap();
    assert!(!t.secure);
    assert_eq!(t.peer, None);
}

#[test]
fn rejects_malformed_text() {
    assert_eq!(parse_dial_target("not an address").err(), Some(AddressError::Malformed));
    assert_eq!(parse_dial_target("dns4/host/tcp/1/wss").err(), Some(AddressError::Malformed));
    assert_eq!(parse_dial_target("/dns4/host/tcp/notaport/wss").err(), Some(AddressError::Malformed));
    assert_eq!(parse_dial_target("/dns4/host/tcp/1/wss/p2p/notapeer").err(), Some(AddressError::Malformed));
}

#[test]
fn rejects_unsupported_transport() {
    assert_eq!(parse_dial_target("/ip4/127.0.0.1/tcp/1").err(), Some(AddressError::UnsupportedTransport));
    // The empty address is well formed, with no segments.
    assert_eq!(parse_dial_target("").err(), Some(AddressError::UnsupportedTransport));
    assert_eq!(parse_dial_target("/ip4/127.0.0.1/udp/1/quic").err(), Some(AddressError::UnsupportedTransport));
    assert_eq!(parse_dial_target("/tcp/1/ip4/127.0.0.1/ws").err(), Some(AddressError::UnsupportedTransport));
}

#[test]
fn websocket_stack_rules() {
    let s = |v: &[&str]| v.iter().map(|x| x.to_string()).collect::<Vec<String>>();
    assert!(is_websocket_stack(&s(&["dns4", "tcp", "wss"])));
    assert!(is_websocket_stack(&s(&["ip6", "tcp", "ws", "p2p"])));
    assert!(!is_websocket_stack(&s(&["dns4", "tcp", "wss", "tcp"])));
    assert!(!is_websocket_stack(&s(&["dns4", "udp", "wss"])));
    assert!(!is_websocket_stack(&s(&["tcp", "wss"])));
    assert!(!is_websocket_stack(&s(&[])));
}

#[test]
fn string_and_byte_equality() {
    assert!(str_eq("wss", "wss"));
    assert!(!str_eq("wss", "ws"));
    assert!(!str_eq("abc", "abd"));
    assert!(str_eq("", ""));
    assert!(bytes_eq(&vec![1, 2, 3], &vec![1, 2, 3]));
    assert!(!bytes_eq(&vec![1, 2, 3], &vec![1, 2, 4]));
    assert!(!bytes_eq(&vec![1, 2], &vec![1, 2, 3]));
}

#[test]
fn identity_derives_peer_id() {
    let id = identity(3);
    assert_eq!(id.public_key(), &encoded_key(3));
    assert_eq!(id.peer_id(), &peer_bytes(3));
    assert_ne!(id.peer_id(), id.public_key());
}

#[test]
fn identity_rejects_undecodable_key() {
    assert!(Identity::from_public_key(vec![1, 2, 3]).is_none());
    assert!(Identity::from_public_key(vec![]).is_none());
}

#[test]
fn pipeline_layers_in_fixed_order() {
    let p = Pipeline::build(identity(1));
    assert_eq!(
        p.layers(),
        &vec![Layer::Handshake, Layer::Multiplex, Layer::Timeout { millis: 20000 }]
    );
    assert_eq!(p.upgrade_timeout_ms(), Some(20000));
    assert_eq!(UPGRADE_TIMEOUT_MS, 20000);
    assert_eq!(p.identity().peer_id(), &peer_bytes(1));
    assert_eq!(manager().deadline_ms(), 20000);
}

#[test]
fn identify_verdicts() {
    assert_eq!(check_identify(&info_for(4)), IdentifyVerdict::Accepted);
    let mut wrong = info_for(4);
    wrong.peer_id = peer_bytes(5);
    assert_eq!(check_identify(&wrong), IdentifyVerdict::PeerMismatch);
    let mut garbage = info_for(4);
    garbage.public_key = vec![9, 9, 9];
    assert_eq!(check_identify(&garbage), IdentifyVerdict::UndecodableKey);
    assert_eq!(judge_identify(&Some(vec![1, 2]), &vec![1, 2]), IdentifyVerdict::Accepted);
    assert_eq!(judge_identify(&Some(vec![1, 2]), &vec![1, 3]), IdentifyVerdict::PeerMismatch);
    assert_eq!(judge_identify(&None, &vec![1, 2]), IdentifyVerdict::UndecodableKey);
}

#[test]
fn dial_queues_without_network() {
    let mut m = manager();
    assert_eq!(m.dial(KRAS, 5), Ok(0));
    assert_eq!(m.dial("/ip4/1.2.3.4/tcp/443/wss", 6), Ok(1));
    assert_eq!(m.len(), 2);
    let c = m.connection(0);
    assert_eq!(c.state, ConnState::Dialing);
    assert_eq!(c.started_ms, 5);
    assert!(!c.raw_open);
    assert!(c.remote.is_none());
    assert!(!m.is_running());
}

#[test]
fn malformed_dial_changes_nothing() {
    let mut m = manager();
    assert_eq!(m.dial("/dns4/only-a-host", 0), Err(AddressError::UnsupportedTransport));
    assert_eq!(m.dial("garbage", 0), Err(AddressError::Malformed));
    assert_eq!(m.len(), 0);
    assert!(!m.is_running());
}

#[test]
fn multiplex_before_handshake_is_rejected() {
    let mut m = manager();
    m.dial(KRAS, 0).unwrap();
    m.handle(Event::RawOpened { conn: 0 });
    assert!(matches!(
        m.handle(Event::MultiplexReady { conn: 0 }),
        Action::Release { conn: 0, failure: Some(Failure::Multiplex) }
    ));
    assert_eq!(m.state(0), ConnState::Failed(Failure::Multiplex));
    assert!(!m.connection(0).raw_open);
    m.handle(Event::HandshakeDone { conn: 0, remote: peer_bytes(2) });
    assert_eq!(m.state(0), ConnState::Failed(Failure::Multiplex));
}

#[test]
fn handshake_before_socket_fails() {
    let mut m = manager();
    m.dial(KRAS, 0).unwrap();
    assert!(matches!(
        m.handle(Event::HandshakeDone { conn: 0, remote: peer_bytes(2) }),
        Action::Release { conn: 0, failure: Some(Failure::Handshake) }
    ));
    assert_eq!(m.state(0), ConnState::Failed(Failure::Handshake));
}

#[test]
fn upgrade_failures_release() {
    let mut m = manager();
    m.dial(PLAIN, 0).unwrap();
    m.dial(PLAIN, 0).unwrap();
    m.dial(PLAIN, 0).unwrap();
    assert!(matches!(m.handle(Event::DialFailed { conn: 0 }), Action::Release { conn: 0, failure: Some(Failure::Dial) }));
    m.handle(Event::RawOpened { conn: 1 });
    assert!(matches!(m.handle(Event::HandshakeFailed { conn: 1 }), Action::Release { conn: 1, failure: Some(Failure::Handshake) }));
    m.handle(Event::RawOpened { conn: 2 });
    m.handle(Event::HandshakeDone { conn: 2, remote: peer_bytes(2) });
    assert_eq!(m.state(2), ConnState::Secured);
    assert!(matches!(m.handle(Event::MultiplexFailed { conn: 2 }), Action::Release { conn: 2, failure: Some(Failure::Multiplex) }));
    assert_eq!(m.state(0), ConnState::Failed(Failure::Dial));
    assert_eq!(m.state(1), ConnState::Failed(Failure::Handshake));
    assert_eq!(m.state(2), ConnState::Failed(Failure::Multiplex));
}

#[test]
fn slow_upgrade_times_out() {
    let mut m = manager();
    m.dial(KRAS, 1000).unwrap();
    m.handle(Event::RawOpened { conn: 0 });
    assert!(matches!(m.handle(Event::Timer { conn: 0, now_ms: 20999 }), Action::Absorb));
    assert_eq!(m.state(0), ConnState::Upgrading);
    assert!(m.connection(0).raw_open);
    assert!(matches!(
        m.handle(Event::Timer { conn: 0, now_ms: 21000 }),
        Action::Release { conn: 0, failure: Some(Failure::Timeout) }
    ));
    assert_eq!(m.state(0), ConnState::Failed(Failure::Timeout));
    assert!(!m.connection(0).raw_open);
}

#[test]
fn timer_does_not_touch_ready_connection() {
    let mut m = ready_manager(2);
    assert!(matches!(m.handle(Event::Timer { conn: 0, now_ms: 1_000_000 }), Action::Absorb));
    assert_eq!(m.state(0), ConnState::Ready);
}

#[test]
fn identify_failure_keeps_connection_ready() {
    let mut m = ready_manager(2);
    assert!(matches!(m.handle(Event::IdentifyFailed { conn: 0 }), Action::IdentifyAbandoned { conn: 0 }));
    assert_eq!(m.state(0), ConnState::Ready);
    assert!(m.connection(0).raw_open);
    let mut wrong = info_for(2);
    wrong.peer_id = peer_bytes(7);
    assert!(matches!(
        m.handle(Event::IdentifyReceived { conn: 0, info: wrong }),
        Action::IdentifyRejected { conn: 0, verdict: IdentifyVerdict::PeerMismatch }
    ));
    assert_eq!(m.state(0), ConnState::Ready);
    assert!(!m.connection(0).identified);
}

#[test]
fn dial_to_identify_scenario() {
    let mut m = ready_manager(2);
    assert_eq!(m.connection(0).remote, Some(peer_bytes(2)));
    match m.handle(Event::IdentifyReceived { conn: 0, info: info_for(2) }) {
        Action::Identified { conn, info } => {
            assert_eq!(conn, 0);
            assert_eq!(info.peer_id, peer_bytes(2));
            assert_eq!(info.protocol_version, "/fluence/particle/2.0.0");
        }
        other => panic!("unexpected action {:?}", other),
    }
    assert!(m.connection(0).identified);
    assert_eq!(m.state(0), ConnState::Ready);
}

#[test]
fn close_releases_and_listen_addresses_are_logged() {
    let mut m = ready_manager(2);
    assert!(matches!(m.handle(Event::Closed { conn: 0 }), Action::Release { conn: 0, failure: None }));
    assert_eq!(m.state(0), ConnState::Closed);
    assert!(!m.connection(0).raw_open);
    assert!(matches!(m.handle(Event::Closed { conn: 0 }), Action::Absorb));
    match m.handle(Event::NewListenAddr { address: "/ip4/0.0.0.0/tcp/1".to_string() }) {
        Action::LogListenAddr { address } => assert_eq!(address, "/ip4/0.0.0.0/tcp/1"),
        other => panic!("unexpected action {:?}", other),
    }
    assert!(matches!(m.handle(Event::Other), Action::Absorb));
    assert!(matches!(m.handle(Event::RawOpened { conn: 9 }), Action::Absorb));
}

#[test]
fn identify_before_ready_is_absorbed() {
    let mut m = manager();
    m.dial(KRAS, 0).unwrap();
    assert!(matches!(m.handle(Event::IdentifyReceived { conn: 0, info: info_for(2) }), Action::Absorb));
    assert_eq!(m.state(0), ConnState::Dialing);
}

#[test]
fn handshake_with_unexpected_peer_fails() {
    let mut m = manager();
    let target = format!("/dns4/example.test/tcp/1/wss/p2p/{}", peer_text(2));
    m.dial(&target, 0).unwrap();
    assert_eq!(m.connection(0).target.peer, Some(peer_bytes(2)));
    m.handle(Event::RawOpened { conn: 0 });
    assert!(matches!(
        m.handle(Event::HandshakeDone { conn: 0, remote: peer_bytes(3) }),
        Action::Release { conn: 0, failure: Some(Failure::Handshake) }
    ));
    assert_eq!(m.state(0), ConnState::Failed(Failure::Handshake));
    assert!(m.connection(0).remote.is_none());
}

#[test]
fn handshake_without_named_peer_accepts_any() {
    let mut m = manager();
    m.dial("/dns4/example.test/tcp/1/wss", 0).unwrap();
    m.handle(Event::RawOpened { conn: 0 });
    m.handle(Event::HandshakeDone { conn: 0, remote: peer_bytes(3) });
    assert_eq!(m.state(0), ConnState::Secured);
    assert_eq!(m.connection(0).remote, Some(peer_bytes(3)));
}
