use pasta_td::autotune::{clamp_target, current_target, flow_windows, DEFAULT_MAX_WINDOW, DEFAULT_MIN_WINDOW};
use pasta_td::identity::{
    fingerprint_peer_id, handshake_peer_id, peer_allowed, public_key_b64, verify_signature,
    handshake_read, identity_from_pkcs8, HandshakeError, HandshakeMsgKind, HandshakeStage, IdentityError,
};
use pasta_td::link::{frame_len, frame_prefix, Beat, FrameError, Heartbeat, NodeBook, NodeNotice, PeerBeat};
use pasta_td::mobility::MobilityConfig;
use pasta_td::netaddr::{is_global_ipv6, select_local_ips, IfIp, LocalIps};
use pasta_td::stun::SockAddr;

use ring::signature::{Ed25519KeyPair, KeyPair};

fn v4(a: u8, b: u8, c: u8, d: u8, port: u16) -> SockAddr {
    SockAddr::V4 { ip: u32::from_be_bytes([a, b, c, d]), port }
}

#[test]
fn peer_id_is_first_half_of_sha256_in_hex() {
    let id = fingerprint_peer_id(&[0u8; 32]);
    assert_eq!(id, "66687aadf862bd776c8fc18b8e9f8e20");
    assert_eq!(id.len(), 32);
}

#[test]
fn public_key_in_base64() {
    assert_eq!(public_key_b64(&[0u8; 32]), "AAAAAAAAAAAAAAAAAAAAAAAAAAAAAAAAAAAAAAAAAAA=");
    let mut key = [0u8; 32];
    key[0] = 0xff;
    assert_eq!(public_key_b64(&key), "/wAAAAAAAAAAAAAAAAAAAAAAAAAAAAAAAAAAAAAAAAA=");
}

#[test]
fn signature_of_challenge_verifies() {
    let pair = Ed25519KeyPair::from_seed_unchecked(&[7u8; 32]).unwrap();
    let challenge = [3u8; 32];
    let sig = pair.sign(&challenge);
    let pk = pair.public_key().as_ref().to_vec();
    assert!(verify_signature(&pk, &challenge, sig.as_ref()));
    let other = [4u8; 32];
    assert!(!verify_signature(&pk, &other, sig.as_ref()));
    assert!(!verify_signature(&pk[..31], &challenge, sig.as_ref()));
    assert!(!verify_signature(&pk, &challenge, &[0u8; 64]));
}

#[test]
fn handshake_names_peer_by_key() {
    let pair = Ed25519KeyPair::from_seed_unchecked(&[9u8; 32]).unwrap();
    let challenge = [1u8; 32];
    let sig = pair.sign(&challenge).as_ref().to_vec();
    let pk = pair.public_key().as_ref().to_vec();
    let mut key = [0u8; 32];
    key.copy_from_slice(&pk);
    let id = handshake_peer_id(&pk, &challenge, &sig, true).unwrap();
    assert_eq!(id, fingerprint_peer_id(&key));
    let bad = handshake_peer_id(&pk, &[2u8; 32], &sig, true);
    assert_eq!(bad, Err(HandshakeError::InvalidSignature { initiator: true }));
    assert_eq!(bad.unwrap_err().message(), "invalid signature from peer");
    let bad2 = handshake_peer_id(&pk, &[2u8; 32], &sig, false).unwrap_err();
    assert_eq!(bad2.message(), "invalid signature from initiator");
}

#[test]
fn whitelist_accepts_id_or_key() {
    let id = "66687aadf862bd776c8fc18b8e9f8e20".to_string();
    let key = public_key_b64(&[0u8; 32]);
    assert!(peer_allowed(&id, &key, &None));
    assert!(peer_allowed(&id, &key, &Some(String::new())));
    assert!(peer_allowed(&id, &key, &Some(id.clone())));
    assert!(peer_allowed(&id, &key, &Some(key.clone())));
    assert!(!peer_allowed(&id, &key, &Some("someone-else".to_string())));
}

#[test]
fn frame_prefix_reads_back() {
    for len in [0usize, 1, 255, 256, 70_000, 16 * 1024 * 1024] {
        let p = frame_prefix(len);
        assert_eq!(frame_len(p), Ok(len));
    }
    assert_eq!(frame_prefix(0x0102_0304), [1, 2, 3, 4]);
    assert_eq!(frame_len([0x01, 0, 0, 0x01]), Err(FrameError::TooLarge));
    assert_eq!(frame_len([0xff, 0xff, 0xff, 0xff]), Err(FrameError::TooLarge));
}

#[test]
fn heartbeat_gives_up_after_max_misses() {
    let mut h = Heartbeat::new(3);
    assert_eq!(h.on_tick(), Beat::Ping(1));
    assert_eq!(h.on_tick(), Beat::Ping(2));
    assert_eq!(h.on_tick(), Beat::Ping(3));
    assert_eq!(h.on_tick(), Beat::TimedOut);
    assert_eq!(h.on_tick(), Beat::TimedOut);
    h.on_pong();
    assert_eq!(h.pending_pings, 0);
    assert_eq!(h.on_tick(), Beat::Ping(4));
}

#[test]
fn heartbeat_nonce_wraps() {
    let mut h = Heartbeat { nonce: u64::MAX, pending_pings: 0, max_misses: 1 };
    assert_eq!(h.on_tick(), Beat::Ping(0));
}

#[test]
fn mobility_backoff_doubles_up_to_max() {
    let m = MobilityConfig::defaults();
    assert_eq!(m.reconnect_initial.nanos, 500_000_000);
    let a = m.next_backoff(m.reconnect_initial);
    assert_eq!(a.nanos, 1_000_000_000);
    let b = m.next_backoff(pasta_td::mobility::Span { nanos: 8_000_000_000 });
    assert_eq!(b.nanos, 10_000_000_000);
    // 0 means never rebind
    assert!(!m.should_rebind(0));
    assert!(!m.should_rebind(7));
    let n = MobilityConfig { rebind_after_failures: 3, ..m };
    assert!(!n.should_rebind(2));
    assert!(n.should_rebind(3));
}

#[test]
fn node_book_tracks_peers_and_retries() {
    let mut book = NodeBook::new();
    let a = v4(10, 0, 0, 2, 9000);
    assert!(book.should_connect(a));
    book.register(a);
    assert!(!book.should_connect(a));
    match book.on_peer_ready(a, "abc".to_string()) {
        NodeNotice::PeerVerified { peer, peer_id } => {
            assert_eq!(peer, a);
            assert_eq!(peer_id, "abc");
        }
        other => panic!("unexpected {other:?}"),
    }
    let m = MobilityConfig::defaults();
    let (notice, wake) = book.on_peer_gone(a, true, 1_000, &m, 10_000_000_000);
    assert!(matches!(notice, NodeNotice::PeerTimeout(p) if p == a));
    // the first attempt comes after the initial wait
    assert_eq!(wake, Some(1_000 + 500_000_000));
    assert_eq!(book.earliest_retry(), Some(1_000 + 500_000_000));
    assert!(book.due_reconnects(1_000).is_empty());
    assert_eq!(book.due_reconnects(500_001_000), vec![a]);
    assert!(book.should_connect(a));
    // that attempt fails: the wait doubles
    let (_, wake2) = book.on_peer_gone(a, false, 600_000_000, &m, 10_000_000_000);
    assert_eq!(wake2, Some(600_000_000 + 1_000_000_000));
}

#[test]
fn failed_auth_forgets_peer() {
    let mut book = NodeBook::new();
    let a = v4(10, 0, 0, 3, 9000);
    book.register(a);
    let n = book.on_peer_failed(a);
    assert!(matches!(n, NodeNotice::PeerAuthFailed { peer } if peer == a));
    assert!(book.should_connect(a));
}

#[test]
fn local_ips_prefer_usable_and_global() {
    let lo = u32::from_be_bytes([127, 0, 0, 1]);
    let link = u32::from_be_bytes([169, 254, 1, 1]);
    let lan = u32::from_be_bytes([192, 168, 1, 20]);
    let ula: u128 = 0xfd00_0000_0000_0000_0000_0000_0000_0001;
    let global: u128 = 0x2001_0db8_0000_0000_0000_0000_0000_0001;
    let ll: u128 = 0xfe80_0000_0000_0000_0000_0000_0000_0001;
    let ips = vec![
        IfIp::V4(lo),
        IfIp::V6(1),
        IfIp::V4(link),
        IfIp::V6(ll),
        IfIp::V6(ula),
        IfIp::V4(lan),
        IfIp::V6(global),
    ];
    let r = select_local_ips(&ips);
    assert_eq!(r, LocalIps { v4: Some(lan), v6: Some(global) });
    assert!(r.has_v4() && r.has_v6());
    let r2 = select_local_ips(&vec![IfIp::V6(ula), IfIp::V4(lo)]);
    assert_eq!(r2, LocalIps { v4: None, v6: Some(ula) });
    assert!(is_global_ipv6(global));
    assert!(!is_global_ipv6(ula));
    assert!(!is_global_ipv6(ll));
    assert!(!is_global_ipv6(0xff02_0000_0000_0000_0000_0000_0000_0001));
}

#[test]
fn window_refresh_beyond_a_tenth() {
    use_refresh_cases();
}

fn use_refresh_cases() {
    assert!(pasta_td::link::should_refresh_window(0, 5));
    assert!(!pasta_td::link::should_refresh_window(1000, 1000));
    assert!(!pasta_td::link::should_refresh_window(1000, 900));
    assert!(!pasta_td::link::should_refresh_window(1000, 1100));
    assert!(pasta_td::link::should_refresh_window(1000, 899));
    assert!(pasta_td::link::should_refresh_window(1000, 1101));
}

#[test]
fn broadcast_goes_to_verified_peers_only() {
    let mut book = NodeBook::new();
    let a = v4(10, 0, 0, 2, 9000);
    let b = v4(10, 0, 0, 3, 9000);
    book.register(a);
    book.register(b);
    assert!(book.broadcast_targets().is_empty());
    book.on_peer_ready(b, "b".to_string());
    assert_eq!(book.broadcast_targets(), vec![b]);
    book.on_peer_ready(a, "a".to_string());
    assert_eq!(book.broadcast_targets(), vec![a, b]);
}

#[test]
fn flow_windows_stay_within_their_bounds() {
    assert_eq!(clamp_target(DEFAULT_MIN_WINDOW, DEFAULT_MAX_WINDOW, 1), 262_144);
    assert_eq!(clamp_target(DEFAULT_MIN_WINDOW, DEFAULT_MAX_WINDOW, 1 << 40), 268_435_456);
    assert_eq!(clamp_target(DEFAULT_MIN_WINDOW, DEFAULT_MAX_WINDOW, 1_000_000), 1_000_000);
    assert_eq!(current_target(DEFAULT_MIN_WINDOW, DEFAULT_MIN_WINDOW, DEFAULT_MAX_WINDOW), 262_144);
    assert_eq!(current_target(5, 10, 3), 3);
    assert_eq!(flow_windows(10, u64::MAX, u64::MAX), ((1u64 << 62) - 1, u64::MAX));
    assert_eq!(flow_windows(DEFAULT_MIN_WINDOW, DEFAULT_MAX_WINDOW, 500_000), (500_000, 500_000));
}

#[test]
fn a_key_file_gives_its_public_key_and_name() {
    let rng = ring::rand::SystemRandom::new();
    let pkcs8 = Ed25519KeyPair::generate_pkcs8(&rng).unwrap();
    let kp = Ed25519KeyPair::from_pkcs8(pkcs8.as_ref()).unwrap();
    let (pk, id) = identity_from_pkcs8(pkcs8.as_ref()).unwrap();
    assert_eq!(&pk[..], kp.public_key().as_ref());
    assert_eq!(id, fingerprint_peer_id(&pk));
    assert_eq!(id.len(), 32);
}

#[test]
fn a_damaged_key_file_is_refused() {
    assert_eq!(identity_from_pkcs8(b"not a key"), Err(IdentityError::InvalidKey));
    assert_eq!(identity_from_pkcs8(&[]), Err(IdentityError::InvalidKey));
    assert_eq!(IdentityError::InvalidKey.message(), "invalid pkcs8 key");
}

#[test]
fn a_ping_is_answered_with_its_nonce_and_a_pong_clears_the_misses() {
    let mut h = Heartbeat::new(3);
    assert_eq!(h.on_tick(), Beat::Ping(1));
    assert_eq!(h.on_tick(), Beat::Ping(2));
    assert_eq!(h.on_message(PeerBeat::Ping(77)), Some(77));
    assert_eq!(h.pending_pings, 2);
    assert_eq!(h.on_message(PeerBeat::Pong(5)), None);
    assert_eq!(h.pending_pings, 0);
    assert_eq!(h.nonce, 2);
}

#[test]
fn handshake_messages_come_in_order() {
    let mut stage = HandshakeStage::AwaitHello;
    for kind in [HandshakeMsgKind::Hello, HandshakeMsgKind::IdentityInit, HandshakeMsgKind::IdentityAck] {
        stage = handshake_read(stage, kind).unwrap();
    }
    assert_eq!(stage, HandshakeStage::Done);
    assert_eq!(handshake_read(HandshakeStage::AwaitHello, HandshakeMsgKind::IdentityInit), Err("Hello"));
    assert_eq!(handshake_read(HandshakeStage::AwaitInit, HandshakeMsgKind::Other), Err("IdentityInit"));
    assert_eq!(handshake_read(HandshakeStage::AwaitAck, HandshakeMsgKind::Hello), Err("IdentityAck"));
    assert_eq!(handshake_read(HandshakeStage::Done, HandshakeMsgKind::IdentityAck), Err("nothing"));
}
