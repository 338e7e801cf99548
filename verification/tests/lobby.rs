use pasta_td::kinds::TowerKind;
use pasta_td::lobby::{
    ensure_cursor_slots, update_cursors, is_blank, mentions_error, LinkEvent, Lobby, LobbyAction, MsgRoute, Note, Notice,
};
use pasta_td::menus::{ConnectionStatus, MultiplayerFocus, MultiplayerRole};
use pasta_td::net_msg::{NetCmd, NetMsg};
use pasta_td::stun::SockAddr;

fn addr(port: u16) -> SockAddr {
    SockAddr::V4 { ip: u32::from_be_bytes([10, 0, 0, 9]), port }
}

fn connected_host() -> Lobby {
    let mut l = Lobby::new();
    l.active = true;
    l.status = ConnectionStatus::Connected;
    l.peer_addr = Some(addr(4000));
    l.peer_name = Some("Ana".to_string());
    l
}

#[test]
fn new_lobby_is_idle_host() {
    let l = Lobby::new();
    assert!(!l.active);
    assert_eq!(l.role, MultiplayerRole::Host);
    assert_eq!(l.status, ConnectionStatus::Idle);
    assert_eq!(l.focus, MultiplayerFocus::Role);
}

#[test]
fn public_endpoint_makes_code_ready() {
    let mut l = Lobby::new();
    l.status = ConnectionStatus::FetchingIp;
    let mut running = false;
    let acts = l.handle_link_event(LinkEvent::PublicEndpoint(addr(1)), false, false, &mut running);
    assert_eq!(l.status, ConnectionStatus::Ready);
    assert_eq!(l.local_endpoint, Some(addr(1)));
    assert!(matches!(acts.as_slice(), [LobbyAction::Info(Note::CodeReady)]));
    let acts = l.handle_link_event(LinkEvent::PublicEndpoint(addr(2)), true, false, &mut running);
    assert!(acts.is_empty());
    assert_eq!(l.local_endpoint, Some(addr(2)));
}

#[test]
fn bound_is_noted_only_for_developers() {
    let mut l = Lobby::new();
    let mut running = true;
    assert!(l.handle_link_event(LinkEvent::Bound(addr(5)), false, false, &mut running).is_empty());
    let acts = l.handle_link_event(LinkEvent::Bound(addr(5)), true, false, &mut running);
    assert!(matches!(acts.as_slice(), [LobbyAction::Info(Note::Listening(a))] if *a == addr(5)));
}

#[test]
fn host_greets_verified_peer() {
    let mut l = Lobby::new();
    let mut running = false;
    let acts = l.handle_link_event(
        LinkEvent::PeerVerified { peer: addr(7), peer_id: "id7".to_string() },
        false,
        false,
        &mut running,
    );
    assert_eq!(l.status, ConnectionStatus::Connected);
    assert!(l.active);
    assert_eq!(l.peer_id.as_deref(), Some("id7"));
    assert_eq!(l.peer_addr, Some(addr(7)));
    assert!(matches!(
        acts.as_slice(),
        [
            LobbyAction::ClearError,
            LobbyAction::Info(Note::Connected),
            LobbyAction::EnsureCursorSlots,
            LobbyAction::SendHello,
            LobbyAction::SendSetMap
        ]
    ));
}

#[test]
fn auth_failure_fails_lobby() {
    let mut l = Lobby::new();
    let mut running = false;
    let acts = l.handle_link_event(LinkEvent::PeerAuthFailed { peer: addr(8) }, true, false, &mut running);
    assert_eq!(l.status, ConnectionStatus::Failed);
    assert!(matches!(acts.as_slice(), [LobbyAction::Error(Note::AuthFailedWith(a))] if *a == addr(8)));
}

#[test]
fn host_reconnects_and_resumes_match() {
    let mut l = connected_host();
    let mut running = true;
    let acts = l.handle_link_event(LinkEvent::PeerTimeout(addr(4000)), false, true, &mut running);
    assert!(!running);
    assert!(l.reconnecting);
    assert_eq!(l.status, ConnectionStatus::Connecting);
    assert_eq!(l.peer_name, None);
    assert!(matches!(
        acts.as_slice(),
        [
            LobbyAction::ClearCursors,
            LobbyAction::ClearError,
            LobbyAction::StartReconnectClock,
            LobbyAction::ConnectPeer(a)
        ] if *a == addr(4000)
    ));
    let acts = l.handle_link_event(
        LinkEvent::PeerVerified { peer: addr(4000), peer_id: "x".to_string() },
        false,
        true,
        &mut running,
    );
    assert!(running);
    assert!(!l.reconnecting);
    assert_eq!(l.status, ConnectionStatus::Connected);
    assert_eq!(acts.len(), 6);
    assert!(matches!(&acts[3], LobbyAction::StopReconnectClock));
    assert!(matches!(&acts[4], LobbyAction::SendState));
    assert!(matches!(&acts[5], LobbyAction::ShowNotice(Notice::Reconnected(n)) if n == "Peer"));
}

#[test]
fn host_without_peer_address_reports_player_gone() {
    let mut l = connected_host();
    l.peer_addr = None;
    let mut running = true;
    let acts = l.handle_link_event(LinkEvent::PeerDisconnected(addr(4000)), false, true, &mut running);
    assert!(running);
    assert!(l.peer_disconnected_in_game);
    assert_eq!(l.status, ConnectionStatus::Ready);
    assert!(matches!(&acts[2], LobbyAction::Info(Note::PlayerLeftRoom)));
    assert!(matches!(&acts[3], LobbyAction::ShowNotice(Notice::Disconnected(n)) if n == "Ana"));
}

#[test]
fn peer_loses_host_outside_match() {
    let mut l = Lobby::new();
    l.role = MultiplayerRole::Peer;
    l.active = true;
    let mut running = false;
    let acts = l.handle_link_event(LinkEvent::PeerDisconnected(addr(1)), false, false, &mut running);
    assert_eq!(l.status, ConnectionStatus::Failed);
    assert_eq!(l.focus, MultiplayerFocus::Continue);
    assert_eq!(acts.len(), 3);
    assert!(matches!(&acts[1], LobbyAction::Error(Note::ConnectionLost)));
    assert!(matches!(&acts[2], LobbyAction::ShowNotice(Notice::WasDisconnected(n)) if n == "Host"));
}

#[test]
fn peer_loses_host_in_match_goes_to_menu() {
    let mut l = Lobby::new();
    l.role = MultiplayerRole::Peer;
    let mut running = true;
    let acts = l.handle_link_event(LinkEvent::PeerTimeout(addr(1)), true, true, &mut running);
    assert_eq!(acts.len(), 4);
    assert!(matches!(&acts[1], LobbyAction::Error(Note::TimedOutWith(a)) if *a == addr(1)));
    assert!(matches!(&acts[3], LobbyAction::EnterMainMenu));
}

#[test]
fn error_log_fails_ip_fetch() {
    let mut l = Lobby::new();
    l.status = ConnectionStatus::FetchingIp;
    let mut running = false;
    let line = "Erro ao abrir endpoint";
    let acts = l.handle_link_event(
        LinkEvent::Log { mentions_error: mentions_error(line) },
        false,
        false,
        &mut running,
    );
    assert_eq!(l.status, ConnectionStatus::Failed);
    assert!(matches!(acts.as_slice(), [LobbyAction::Error(Note::ConnectionFailed)]));
    let acts = l.handle_link_event(
        LinkEvent::Log { mentions_error: mentions_error("reconfigurando bind") },
        false,
        false,
        &mut running,
    );
    assert!(acts.is_empty());
}

#[test]
fn error_words_in_log_lines() {
    assert!(mentions_error("erro no envio x"));
    assert!(mentions_error("ERRO"));
    assert!(mentions_error("falha: ErRo"));
    assert!(!mentions_error("err"));
    assert!(!mentions_error(""));
    assert!(!mentions_error("cancelamento solicitado"));
    assert!(!mentions_error("e r r o"));
}

#[test]
fn blank_names() {
    assert!(is_blank(""));
    assert!(is_blank("  \t\n"));
    assert!(is_blank("\u{3000}"));
    assert!(!is_blank(" a "));
}

#[test]
fn hello_names_the_other_player() {
    let mut l = Lobby::new();
    l.role = MultiplayerRole::Peer;
    let r = l.route_msg(NetMsg::Hello { name: "Bia".to_string() }, " Caio ", false, 3);
    assert!(matches!(r, MsgRoute::Greet { reply: true }));
    assert_eq!(l.peer_name.as_deref(), Some("Bia"));
    let r = l.route_msg(NetMsg::Hello { name: "  ".to_string() }, "Caio", false, 3);
    assert!(matches!(r, MsgRoute::Ignore));
    assert_eq!(l.peer_name.as_deref(), Some("Bia"));
    let r = l.route_msg(NetMsg::Hello { name: "Bia".to_string() }, "Caio", true, 3);
    assert!(matches!(r, MsgRoute::Greet { reply: false }));
    let mut h = Lobby::new();
    let r = h.route_msg(NetMsg::Hello { name: "Bia".to_string() }, "Caio", false, 3);
    assert!(matches!(r, MsgRoute::Greet { reply: false }));
}

#[test]
fn kick_sends_peer_back() {
    let mut l = Lobby::new();
    l.role = MultiplayerRole::Peer;
    l.active = true;
    l.status = ConnectionStatus::Connected;
    let r = l.route_msg(NetMsg::Kick { reason: None }, "", false, 3);
    assert!(matches!(r, MsgRoute::Kicked { reason } if reason == "expulso do lobby"));
    assert!(!l.active);
    assert_eq!(l.status, ConnectionStatus::Failed);
    assert_eq!(l.focus, MultiplayerFocus::Continue);
    let mut h = Lobby::new();
    let r = h.route_msg(NetMsg::Kick { reason: Some("x".to_string()) }, "", false, 3);
    assert!(matches!(r, MsgRoute::Ignore));
}

#[test]
fn map_messages_are_clamped() {
    let mut l = Lobby::new();
    l.role = MultiplayerRole::Peer;
    l.active = true;
    l.status = ConnectionStatus::Connected;
    assert!(matches!(
        l.route_msg(NetMsg::EnterMapSelect { map_index: 9 }, "", false, 3),
        MsgRoute::MapSelect { map_index: 2 }
    ));
    assert!(matches!(
        l.route_msg(NetMsg::SetMap { map_index: 1 }, "", false, 3),
        MsgRoute::SetMap { map_index: 1 }
    ));
    assert!(matches!(l.route_msg(NetMsg::SetMap { map_index: 1 }, "", false, 0), MsgRoute::Ignore));
    l.status = ConnectionStatus::Connecting;
    assert!(matches!(
        l.route_msg(NetMsg::EnterMapSelect { map_index: 0 }, "", false, 3),
        MsgRoute::Ignore
    ));
    assert!(matches!(
        l.route_msg(NetMsg::StartGame { map_index: 7 }, "", false, 3),
        MsgRoute::StartGame { map_index: 7 }
    ));
}

#[test]
fn commands_go_to_host_results_to_peer() {
    let mut h = Lobby::new();
    let cmd = NetCmd::Build { x: 3, y: 4, kind: TowerKind::Frost };
    assert!(matches!(
        h.route_msg(NetMsg::Cmd { id: 5, cmd }, "", false, 1),
        MsgRoute::RunCommand { id: 5, cmd: c } if c == cmd
    ));
    assert!(matches!(
        h.route_msg(NetMsg::CmdResult { id: 5, ok: false, error: None }, "", false, 1),
        MsgRoute::Ignore
    ));
    let mut p = Lobby::new();
    p.role = MultiplayerRole::Peer;
    assert!(matches!(p.route_msg(NetMsg::Cmd { id: 5, cmd }, "", false, 1), MsgRoute::Ignore));
    assert!(matches!(
        p.route_msg(NetMsg::CmdResult { id: 5, ok: false, error: None }, "", false, 1),
        MsgRoute::CommandFailed { error } if error == "falha"
    ));
    assert!(matches!(
        p.route_msg(NetMsg::CmdResult { id: 5, ok: true, error: None }, "", false, 1),
        MsgRoute::Ignore
    ));
}

#[test]
fn cursor_moves_only_when_active() {
    let mut l = Lobby::new();
    let msg = || NetMsg::Cursor { name: "Ana".to_string(), x: 2, y: 3, pending_build: None };
    assert!(matches!(l.route_msg(msg(), "", false, 1), MsgRoute::Ignore));
    l.active = true;
    match l.route_msg(msg(), "", false, 1) {
        MsgRoute::MoveCursor { cursor } => {
            assert_eq!(cursor.name, "Ana");
            assert_eq!((cursor.x, cursor.y), (2, 3));
        }
        other => panic!("unexpected {other:?}"),
    }
}

#[test]
fn cursor_slots_follow_players() {
    let mut cursors = Vec::new();
    ensure_cursor_slots(&mut cursors, true, Some((4, 5)), &None, &Some("Bia".to_string()));
    assert_eq!(cursors.len(), 2);
    assert_eq!((cursors[0].name.as_str(), cursors[0].x, cursors[0].y), ("Player", 4, 5));
    assert_eq!(cursors[1].name, "Bia");
    ensure_cursor_slots(&mut cursors, true, None, &Some("  ".to_string()), &None);
    assert_eq!((cursors[0].name.as_str(), cursors[0].x, cursors[0].y), ("Player", 4, 5));
    update_cursors(&mut cursors, true, Some((1, 1)), &Some("Caio".to_string()), &None);
    assert_eq!((cursors[0].name.as_str(), cursors[0].x), ("Caio", 1));
    update_cursors(&mut cursors, false, Some((9, 9)), &None, &None);
    assert_eq!(cursors.len(), 2);
    ensure_cursor_slots(&mut cursors, false, None, &None, &None);
    assert!(cursors.is_empty());
}

#[test]
fn reconnect_window_closes() {
    let mut l = connected_host();
    let mut running = true;
    l.handle_link_event(LinkEvent::PeerTimeout(addr(4000)), false, true, &mut running);
    let acts = l.tick_reconnect(false, true, &mut running);
    assert!(matches!(acts.as_slice(), [LobbyAction::ConnectPeer(a)] if *a == addr(4000)));
    assert!(l.tick_reconnect(false, false, &mut running).is_empty());
    let acts = l.tick_reconnect(true, true, &mut running);
    assert!(running);
    assert!(!l.reconnecting);
    assert!(l.peer_disconnected_in_game);
    assert_eq!(l.status, ConnectionStatus::Ready);
    assert!(matches!(acts.as_slice(), [LobbyAction::StopReconnectClock, LobbyAction::ShowNotice(Notice::LinkLost)]));
    assert!(l.tick_reconnect(true, true, &mut running).is_empty());
}

#[test]
fn blank_means_what_is_whitespace_says() {
    let mut buf = [0u8; 4];
    for code in 0..=0x10FFFFu32 {
        if let Some(c) = char::from_u32(code) {
            assert_eq!(is_blank(c.encode_utf8(&mut buf)), c.is_whitespace(), "U+{code:04X}");
        }
    }
}
