//! The multiplayer lobby as a state machine: what each event of the network
//! link does to the lobby and what it asks of the rest of the program.
use vstd::prelude::*;

use crate::kinds::TowerKind;
use crate::menus::{ConnectionStatus, MultiplayerFocus, MultiplayerRole, IpMode, PlayerCursor};
use crate::net_msg::{FxEvent, GameSnapshot, NetCmd, NetMsg};
use crate::save::chars_of;
use crate::stun::SockAddr;

verus! {

/// What the lobby knows of the link with the other player.
#[derive(Debug, Clone)]
pub struct Lobby {
    pub active: bool,
    pub role: MultiplayerRole,
    pub ip_mode: IpMode,
    pub status: ConnectionStatus,
    pub focus: MultiplayerFocus,
    pub local_endpoint: Option<SockAddr>,
    pub peer_id: Option<String>,
    pub peer_name: Option<String>,
    /// The peer the network is linked with.
    pub peer_addr: Option<SockAddr>,
    pub peer_disconnected_in_game: bool,
    pub reconnecting: bool,
    pub reconnect_peer_addr: Option<SockAddr>,
    pub reconnect_was_running: bool,
}

/// An event of the network link.
#[derive(Debug, Clone)]
pub enum LinkEvent {
    Bound(SockAddr),
    PublicEndpoint(SockAddr),
    ObservedEndpoint(SockAddr),
    PeerConnecting(SockAddr),
    PeerConnected(SockAddr),
    PeerVerified { peer: SockAddr, peer_id: String },
    PeerAuthFailed { peer: SockAddr },
    PeerDisconnected(SockAddr),
    PeerTimeout(SockAddr),
    /// A log line of the link; `mentions_error` when it speaks of an error.
    Log { mentions_error: bool },
}

/// A line of information or error shown in the lobby. The variants with
/// an address are the developer-mode forms.
#[derive(Debug, Clone, Copy, PartialEq, Eq, Structural)]
pub enum Note {
    Listening(SockAddr),
    CodeReadyAt(SockAddr),
    CodeReady,
    Observed(SockAddr),
    ConnectingTo(SockAddr),
    Connecting,
    AwaitingAuth(SockAddr),
    Authenticating,
    VerifiedPeer(SockAddr),
    Connected,
    AuthFailedWith(SockAddr),
    AuthFailed,
    PlayerLeft(SockAddr),
    PlayerLeftRoom,
    PeerLost(SockAddr),
    ConnectionLost,
    TimedOutWith(SockAddr),
    TimedOut,
    /// The log line itself.
    LogLine,
    ConnectionFailed,
}

/// A notice shown on top of the screen, naming the other player.
#[derive(Debug, Clone)]
pub enum Notice {
    Reconnected(String),
    Disconnected(String),
    DisconnectedTimeout(String),
    WasDisconnected(String),
    /// The reconnect window closed without the other player.
    LinkLost,
}

/// What the lobby asks of the rest of the program, in order.
#[derive(Debug, Clone)]
pub enum LobbyAction {
    Info(Note),
    Error(Note),
    ClearError,
    ShowNotice(Notice),
    EnsureCursorSlots,
    ClearCursors,
    /// Greet the peer with the player's name.
    SendHello,
    /// Tell the peer which map is selected.
    SendSetMap,
    /// Ask the network to connect to the peer again.
    ConnectPeer(SockAddr),
    /// Start the reconnect window (30 s) and note the attempt.
    StartReconnectClock,
    /// Stop the reconnect window.
    StopReconnectClock,
    /// Share the match with the peer.
    SendState,
    /// Leave for the main menu.
    EnterMainMenu,
}

/// The note for a developer (with the address) or a player.
pub open spec fn pick_note(dev_mode: bool, dev: Note, plain: Note) -> Note {
    if dev_mode {
        dev
    } else {
        plain
    }
}

fn pick(dev_mode: bool, dev: Note, plain: Note) -> (n: Note)
    ensures
        n == pick_note(dev_mode, dev, plain),
{
    if dev_mode {
        dev
    } else {
        plain
    }
}

/// The name a notice gives the other player: its name, else "Host" for a
/// peer's host and "Player" for a host's player.
pub open spec fn other_name(peer_name: Option<String>, role: MultiplayerRole) -> Seq<char> {
    match peer_name {
        Some(n) => n@,
        None => if role == MultiplayerRole::Peer {
            "Host"@
        } else {
            "Player"@
        },
    }
}

fn other_name_exec(peer_name: &Option<String>, role: MultiplayerRole) -> (s: String)
    ensures
        s@ == other_name(*peer_name, role),
{
    match peer_name {
        Some(n) => n.clone(),
        None => if role == MultiplayerRole::Peer {
            proof {
                reveal_strlit("Host");
            }
            "Host".to_owned()
        } else {
            proof {
                reveal_strlit("Player");
            }
            "Player".to_owned()
        },
    }
}

/// The lobby's fields other than those named are as before.
pub open spec fn same_link(a: &Lobby, b: &Lobby) -> bool {
    &&& a.role == b.role
    &&& a.ip_mode == b.ip_mode
}

impl Lobby {
    /// A fresh lobby: host, IPv4, idle, the role field focused.
    pub fn new() -> (l: Lobby)
        ensures
            !l.active,
            l.role == MultiplayerRole::Host,
            l.ip_mode == IpMode::Ipv4,
            l.status == ConnectionStatus::Idle,
            l.focus == MultiplayerFocus::Role,
            l.local_endpoint is None,
            l.peer_id is None,
            l.peer_name is None,
            l.peer_addr is None,
            !l.peer_disconnected_in_game,
            !l.reconnecting,
            l.reconnect_peer_addr is None,
            !l.reconnect_was_running,
    {
        Lobby {
            active: false,
            role: MultiplayerRole::Host,
            ip_mode: IpMode::Ipv4,
            status: ConnectionStatus::Idle,
            focus: MultiplayerFocus::Role,
            local_endpoint: None,
            peer_id: None,
            peer_name: None,
            peer_addr: None,
            peer_disconnected_in_game: false,
            reconnecting: false,
            reconnect_peer_addr: None,
            reconnect_was_running: false,
        }
    }

    /// What an event of the link does. `in_game` says whether the match
    /// screen is shown; `running` is whether the match runs (a lost host
    /// link pauses it while reconnecting, a regained one resumes it).
    pub fn handle_link_event(&mut self, ev: LinkEvent, dev_mode: bool, in_game: bool, running: &mut bool) -> (actions: Vec<LobbyAction>)
        ensures
            same_link(old(self), final(self)),
            match ev {
                LinkEvent::Bound(addr) => {
                    &&& *final(self) == *old(self)
                    &&& *final(running) == *old(running)
                    &&& actions@.len() == (if dev_mode { 1int } else { 0 })
                    &&& (dev_mode ==> (actions@[0] matches LobbyAction::Info(n) && n == Note::Listening(addr)))
                },
                LinkEvent::PublicEndpoint(addr) => {
                    &&& final(self).local_endpoint == Some(addr)
                    &&& *final(running) == *old(running)
                    &&& if old(self).status == ConnectionStatus::FetchingIp {
                        &&& *final(self) == Lobby {
                            status: ConnectionStatus::Ready,
                            local_endpoint: Some(addr),
                            ..*old(self)
                        }
                        &&& actions@.len() == 1
                        &&& (actions@[0] matches LobbyAction::Info(n) && n == pick_note(
                            dev_mode,
                            Note::CodeReadyAt(addr),
                            Note::CodeReady,
                        ))
                    } else {
                        *final(self) == Lobby { local_endpoint: Some(addr), ..*old(self) } && actions@.len() == 0
                    }
                },
                LinkEvent::ObservedEndpoint(addr) => {
                    &&& *final(self) == *old(self)
                    &&& *final(running) == *old(running)
                    &&& actions@.len() == (if dev_mode { 1int } else { 0 })
                    &&& (dev_mode ==> (actions@[0] matches LobbyAction::Info(n) && n == Note::Observed(addr)))
                },
                LinkEvent::PeerConnecting(addr) => {
                    &&& *final(self) == *old(self)
                    &&& *final(running) == *old(running)
                    &&& actions@.len() == 1
                    &&& (actions@[0] matches LobbyAction::Info(n) && n == pick_note(
                        dev_mode,
                        Note::ConnectingTo(addr),
                        Note::Connecting,
                    ))
                },
                LinkEvent::PeerConnected(addr) => {
                    &&& *final(self) == *old(self)
                    &&& *final(running) == *old(running)
                    &&& actions@.len() == 1
                    &&& (actions@[0] matches LobbyAction::Info(n) && n == pick_note(
                        dev_mode,
                        Note::AwaitingAuth(addr),
                        Note::Authenticating,
                    ))
                },
                LinkEvent::PeerVerified { peer, peer_id } => verified_outcome(
                    old(self),
                    final(self),
                    peer,
                    peer_id@,
                    dev_mode,
                    in_game,
                    *old(running),
                    *final(running),
                    actions@,
                ),
                LinkEvent::PeerAuthFailed { peer } => {
                    &&& *final(self) == Lobby { status: ConnectionStatus::Failed, ..*old(self) }
                    &&& *final(running) == *old(running)
                    &&& actions@.len() == 1
                    &&& (actions@[0] matches LobbyAction::Error(n) && n == pick_note(
                        dev_mode,
                        Note::AuthFailedWith(peer),
                        Note::AuthFailed,
                    ))
                },
                LinkEvent::PeerDisconnected(peer) => lost_outcome(
                    old(self),
                    final(self),
                    peer,
                    false,
                    dev_mode,
                    in_game,
                    *old(running),
                    *final(running),
                    actions@,
                ),
                LinkEvent::PeerTimeout(peer) => lost_outcome(
                    old(self),
                    final(self),
                    peer,
                    true,
                    dev_mode,
                    in_game,
                    *old(running),
                    *final(running),
                    actions@,
                ),
                LinkEvent::Log { mentions_error } => {
                    &&& *final(running) == *old(running)
                    &&& if mentions_error {
                        &&& actions@.len() == 1
                        &&& (actions@[0] matches LobbyAction::Error(n) && n == pick_note(
                            dev_mode,
                            Note::LogLine,
                            Note::ConnectionFailed,
                        ))
                        &&& *final(self) == Lobby {
                            status: if old(self).status == ConnectionStatus::FetchingIp {
                                ConnectionStatus::Failed
                            } else {
                                old(self).status
                            },
                            ..*old(self)
                        }
                    } else {
                        &&& *final(self) == *old(self)
                        &&& actions@.len() == (if dev_mode { 1int } else { 0 })
                        &&& (dev_mode ==> (actions@[0] matches LobbyAction::Info(n) && n == Note::LogLine))
                    }
                },
            },
    {
        let mut actions: Vec<LobbyAction> = Vec::new();
        match ev {
            LinkEvent::Bound(addr) => {
                if dev_mode {
                    actions.push(LobbyAction::Info(Note::Listening(addr)));
                }
            },
            LinkEvent::PublicEndpoint(addr) => {
                self.local_endpoint = Some(addr);
                if self.status == ConnectionStatus::FetchingIp {
                    self.status = ConnectionStatus::Ready;
                    actions.push(LobbyAction::Info(pick(dev_mode, Note::CodeReadyAt(addr), Note::CodeReady)));
                }
            },
            LinkEvent::ObservedEndpoint(addr) => {
                if dev_mode {
                    actions.push(LobbyAction::Info(Note::Observed(addr)));
                }
            },
            LinkEvent::PeerConnecting(addr) => {
                actions.push(LobbyAction::Info(pick(dev_mode, Note::ConnectingTo(addr), Note::Connecting)));
            },
            LinkEvent::PeerConnected(addr) => {
                actions.push(
                    LobbyAction::Info(pick(dev_mode, Note::AwaitingAuth(addr), Note::Authenticating)),
                );
            },
            LinkEvent::PeerVerified { peer, peer_id } => {
                self.peer_addr = Some(peer);
                self.peer_id = Some(peer_id);
                self.status = ConnectionStatus::Connected;
                self.active = true;
                self.peer_disconnected_in_game = false;
                actions.push(LobbyAction::ClearError);
                actions.push(LobbyAction::Info(pick(dev_mode, Note::VerifiedPeer(peer), Note::Connected)));
                actions.push(LobbyAction::EnsureCursorSlots);
                if self.reconnecting {
                    self.reconnecting = false;
                    self.reconnect_peer_addr = None;
                    actions.push(LobbyAction::StopReconnectClock);
                    if in_game {
                        *running = self.reconnect_was_running;
                        actions.push(LobbyAction::SendState);
                        let name = match &self.peer_name {
                            Some(n) => n.clone(),
                            None => {
                                proof {
                                    reveal_strlit("Peer");
                                }
                                "Peer".to_owned()
                            },
                        };
                        actions.push(LobbyAction::ShowNotice(Notice::Reconnected(name)));
                    }
                    self.reconnect_was_running = false;
                } else if self.role == MultiplayerRole::Host {
                    actions.push(LobbyAction::SendHello);
                    actions.push(LobbyAction::SendSetMap);
                }
            },
            LinkEvent::PeerAuthFailed { peer } => {
                self.status = ConnectionStatus::Failed;
                actions.push(LobbyAction::Error(pick(dev_mode, Note::AuthFailedWith(peer), Note::AuthFailed)));
            },
            LinkEvent::PeerDisconnected(peer) => {
                self.on_lost(peer, false, dev_mode, in_game, running, &mut actions);
            },
            LinkEvent::PeerTimeout(peer) => {
                self.on_lost(peer, true, dev_mode, in_game, running, &mut actions);
            },
            LinkEvent::Log { mentions_error } => {
                if mentions_error {
                    actions.push(LobbyAction::Error(pick(dev_mode, Note::LogLine, Note::ConnectionFailed)));
                    if self.status == ConnectionStatus::FetchingIp {
                        self.status = ConnectionStatus::Failed;
                    }
                } else if dev_mode {
                    actions.push(LobbyAction::Info(Note::LogLine));
                }
            },
        }
        actions
    }

    fn on_lost(
        &mut self,
        peer: SockAddr,
        timed_out: bool,
        dev_mode: bool,
        in_game: bool,
        running: &mut bool,
        actions: &mut Vec<LobbyAction>,
    )
        requires
            old(actions)@.len() == 0,
        ensures
            same_link(old(self), final(self)),
            lost_outcome(
                old(self),
                final(self),
                peer,
                timed_out,
                dev_mode,
                in_game,
                *old(running),
                *final(running),
                final(actions)@,
            ),
    {
        let name = other_name_exec(&self.peer_name, self.role);
        self.peer_id = None;
        let saved = self.peer_addr;
        self.peer_addr = None;
        self.active = false;
        self.peer_name = None;
        actions.push(LobbyAction::ClearCursors);
        if self.role == MultiplayerRole::Host && in_game {
            actions.push(LobbyAction::ClearError);
            match saved {
                Some(addr) => {
                    self.reconnecting = true;
                    self.reconnect_peer_addr = Some(addr);
                    self.reconnect_was_running = *running;
                    self.status = ConnectionStatus::Connecting;
                    *running = false;
                    actions.push(LobbyAction::StartReconnectClock);
                    actions.push(LobbyAction::ConnectPeer(addr));
                },
                None => {
                    self.peer_disconnected_in_game = true;
                    self.status = ConnectionStatus::Ready;
                    let note = if timed_out {
                        pick(dev_mode, Note::TimedOutWith(peer), Note::TimedOut)
                    } else {
                        pick(dev_mode, Note::PlayerLeft(peer), Note::PlayerLeftRoom)
                    };
                    actions.push(LobbyAction::Info(note));
                    let notice = if timed_out {
                        Notice::DisconnectedTimeout(name)
                    } else {
                        Notice::Disconnected(name)
                    };
                    actions.push(LobbyAction::ShowNotice(notice));
                },
            }
        } else {
            if self.role == MultiplayerRole::Host {
                self.status = ConnectionStatus::Ready;
                let note = if timed_out {
                    pick(dev_mode, Note::TimedOutWith(peer), Note::TimedOut)
                } else {
                    pick(dev_mode, Note::PlayerLeft(peer), Note::PlayerLeftRoom)
                };
                actions.push(LobbyAction::Info(note));
                actions.push(LobbyAction::ClearError);
            } else {
                self.status = ConnectionStatus::Failed;
                let note = if timed_out {
                    pick(dev_mode, Note::TimedOutWith(peer), Note::TimedOut)
                } else {
                    pick(dev_mode, Note::PeerLost(peer), Note::ConnectionLost)
                };
                actions.push(LobbyAction::Error(note));
            }
            actions.push(LobbyAction::ShowNotice(Notice::WasDisconnected(name)));
            if self.role == MultiplayerRole::Peer {
                if in_game {
                    actions.push(LobbyAction::EnterMainMenu);
                } else {
                    self.focus = MultiplayerFocus::Continue;
                }
            }
        }
    }
}

/// What a verified peer does to the lobby: connected and active, with the
/// peer's id and address; a link regained while reconnecting stops the
/// reconnect clock and, in a match, resumes it as it ran before and shares
/// it again; a host greets a new peer and tells it the map.
pub open spec fn verified_outcome(
    a: &Lobby,
    b: &Lobby,
    peer: SockAddr,
    peer_id: Seq<char>,
    dev_mode: bool,
    in_game: bool,
    running0: bool,
    running1: bool,
    acts: Seq<LobbyAction>,
) -> bool {
    &&& b.status == ConnectionStatus::Connected
    &&& b.active
    &&& (b.peer_id matches Some(id) && id@ == peer_id)
    &&& b.peer_addr == Some(peer)
    &&& !b.peer_disconnected_in_game
    &&& !b.reconnecting
    &&& acts.len() >= 3
    &&& (acts[0] matches LobbyAction::ClearError)
    &&& (acts[1] matches LobbyAction::Info(n) && n == pick_note(
        dev_mode,
        Note::VerifiedPeer(peer),
        Note::Connected,
    ))
    &&& (acts[2] matches LobbyAction::EnsureCursorSlots)
    &&& if a.reconnecting {
        &&& b.reconnect_peer_addr is None
        &&& !b.reconnect_was_running
        &&& (acts[3] matches LobbyAction::StopReconnectClock)
        &&& if in_game {
            &&& running1 == a.reconnect_was_running
            &&& acts.len() == 6
            &&& (acts[4] matches LobbyAction::SendState)
            &&& (acts[5] matches LobbyAction::ShowNotice(Notice::Reconnected(name))
                && name@ == match a.peer_name {
                Some(n) => n@,
                None => "Peer"@,
            })
        } else {
            running1 == running0 && acts.len() == 4
        }
    } else if a.role == MultiplayerRole::Host {
        &&& running1 == running0
        &&& acts.len() == 5
        &&& (acts[3] matches LobbyAction::SendHello)
        &&& (acts[4] matches LobbyAction::SendSetMap)
    } else {
        running1 == running0 && acts.len() == 3
    }
}

/// What losing the link with `peer` does. A host in a match pauses it and
/// starts reconnecting when the network knew the peer's address, else
/// reports the player gone; elsewhere the link is simply down: a host
/// waits for a new player, a peer fails and goes back (to the main menu
/// from a match, else to the lobby's continue button). Every case clears
/// the other player's cursor and name.
pub open spec fn lost_outcome(
    a: &Lobby,
    b: &Lobby,
    peer: SockAddr,
    timed_out: bool,
    dev_mode: bool,
    in_game: bool,
    running0: bool,
    running1: bool,
    acts: Seq<LobbyAction>,
) -> bool {
    let name = other_name(a.peer_name, a.role);
    &&& !b.active
    &&& b.peer_id is None
    &&& b.peer_name is None
    &&& b.peer_addr is None
    &&& acts.len() >= 1
    &&& (acts[0] matches LobbyAction::ClearCursors)
    &&& if a.role == MultiplayerRole::Host && in_game {
        &&& (acts[1] matches LobbyAction::ClearError)
        &&& match a.peer_addr {
            Some(addr) => {
                &&& b.reconnecting
                &&& b.reconnect_peer_addr == Some(addr)
                &&& b.reconnect_was_running == running0
                &&& b.status == ConnectionStatus::Connecting
                &&& !running1
                &&& acts.len() == 4
                &&& (acts[2] matches LobbyAction::StartReconnectClock)
                &&& (acts[3] matches LobbyAction::ConnectPeer(p) && p == addr)
            },
            None => {
                &&& b.peer_disconnected_in_game
                &&& b.status == ConnectionStatus::Ready
                &&& running1 == running0
                &&& acts.len() == 4
                &&& (acts[2] matches LobbyAction::Info(n) && n == if timed_out {
                    pick_note(dev_mode, Note::TimedOutWith(peer), Note::TimedOut)
                } else {
                    pick_note(dev_mode, Note::PlayerLeft(peer), Note::PlayerLeftRoom)
                })
                &&& if timed_out {
                    acts[3] matches LobbyAction::ShowNotice(Notice::DisconnectedTimeout(s)) && s@ == name
                } else {
                    acts[3] matches LobbyAction::ShowNotice(Notice::Disconnected(s)) && s@ == name
                }
            },
        }
    } else if a.role == MultiplayerRole::Host {
        &&& b.status == ConnectionStatus::Ready
        &&& running1 == running0
        &&& acts.len() == 4
        &&& (acts[1] matches LobbyAction::Info(n) && n == if timed_out {
            pick_note(dev_mode, Note::TimedOutWith(peer), Note::TimedOut)
        } else {
            pick_note(dev_mode, Note::PlayerLeft(peer), Note::PlayerLeftRoom)
        })
        &&& (acts[2] matches LobbyAction::ClearError)
        &&& (acts[3] matches LobbyAction::ShowNotice(Notice::WasDisconnected(s)) && s@ == name)
    } else {
        &&& b.status == ConnectionStatus::Failed
        &&& running1 == running0
        &&& (acts[1] matches LobbyAction::Error(n) && n == if timed_out {
            pick_note(dev_mode, Note::TimedOutWith(peer), Note::TimedOut)
        } else {
            pick_note(dev_mode, Note::PeerLost(peer), Note::ConnectionLost)
        })
        &&& (acts[2] matches LobbyAction::ShowNotice(Notice::WasDisconnected(s)) && s@ == name)
        &&& if in_game {
            acts.len() == 4 && (acts[3] matches LobbyAction::EnterMainMenu) && b.focus == a.focus
        } else {
            acts.len() == 3 && b.focus == MultiplayerFocus::Continue
        }
    }
}

/// Whether the character, lower-cased, is the ASCII letter `l`.
pub open spec fn lower_is(c: char, l: char) -> bool {
    c == l || (c as u32) + 32 == (l as u32) && 'A' <= c && c <= 'Z'
}

/// Whether `erro` starts at `i` in `s`, ignoring case.
pub open spec fn erro_at(s: Seq<char>, i: int) -> bool {
    &&& 0 <= i
    &&& i + 4 <= s.len()
    &&& lower_is(s[i], 'e')
    &&& lower_is(s[i + 1], 'r')
    &&& lower_is(s[i + 2], 'r')
    &&& lower_is(s[i + 3], 'o')
}

/// Whether a log line of the link speaks of an error: it holds `erro` in
/// any case. (Only ASCII capitals lower-case to these four letters, so
/// comparing letter by letter is the same as lower-casing the line first.)
pub fn mentions_error(line: &str) -> (r: bool)
    ensures
        r == exists|i: int| erro_at(line@, i),
{
    let v = chars_of(line);
    let n = v.len();
    if n < 4 {
        assert forall|i: int| !erro_at(line@, i) by {}
        return false;
    }
    let mut i: usize = 0;
    while i < n - 3
        invariant
            v@ == line@,
            n == v@.len(),
            4 <= n,
            i <= n - 3,
            forall|j: int| 0 <= j < i ==> !erro_at(line@, j),
        decreases n - i,
    {
        if lower_eq(v[i], 'e') && lower_eq(v[i + 1], 'r') && lower_eq(v[i + 2], 'r') && lower_eq(
            v[i + 3],
            'o',
        ) {
            assert(erro_at(line@, i as int));
            return true;
        }
        i = i + 1;
    }
    assert forall|j: int| !erro_at(line@, j) by {
        if 0 <= j < i {
        }
    }
    false
}

fn lower_eq(c: char, l: char) -> (r: bool)
    requires
        'a' <= l <= 'z',
    ensures
        r == lower_is(c, l),
{
    if c == l {
        true
    } else if 'A' <= c && c <= 'Z' {
        (c as u32) + 32 == (l as u32)
    } else {
        false
    }
}

/// Whether a character has the Unicode `White_Space` property: the
/// controls tab to carriage return, space, next line, no-break space, ogham
/// space mark, the spaces en quad to hair space, line and paragraph
/// separator, narrow no-break space, medium mathematical space and
/// ideographic space.
pub open spec fn unicode_white(c: char) -> bool {
    let v = c as u32;
    ||| 0x09 <= v <= 0x0D
    ||| v == 0x20
    ||| v == 0x85
    ||| v == 0xA0
    ||| v == 0x1680
    ||| 0x2000 <= v <= 0x200A
    ||| v == 0x2028
    ||| v == 0x2029
    ||| v == 0x202F
    ||| v == 0x205F
    ||| v == 0x3000
}

/// Whether `c` has the `White_Space` property (what `char::is_whitespace`
/// answers).
pub(crate) fn char_is_whitespace(c: char) -> (r: bool)
    ensures
        r == unicode_white(c),
{
    let v = c as u32;
    (0x09 <= v && v <= 0x0D) || v == 0x20 || v == 0x85 || v == 0xA0 || v == 0x1680 || (0x2000 <= v
        && v <= 0x200A) || v == 0x2028 || v == 0x2029 || v == 0x202F || v == 0x205F || v == 0x3000
}

/// Whether `s` is empty once trimmed: every character is white space.
pub fn is_blank(s: &str) -> (r: bool)
    ensures
        r == forall|i: int| 0 <= i < s@.len() ==> unicode_white(#[trigger] s@[i]),
{
    let v = chars_of(s);
    let mut i: usize = 0;
    while i < v.len()
        invariant
            v@ == s@,
            i <= v@.len(),
            forall|j: int| 0 <= j < i ==> unicode_white(#[trigger] s@[j]),
        decreases v@.len() - i,
    {
        if !char_is_whitespace(v[i]) {
            return false;
        }
        i = i + 1;
    }
    true
}

/// What a message from the other player leads to, once the lobby has
/// taken its part.
#[derive(Debug, Clone)]
pub enum MsgRoute {
    /// The message is not for this side, or not now.
    Ignore,
    /// The other player's name; `reply` says to greet back with the
    /// player's own name.
    Greet { reply: bool },
    /// The host sent this player away: leave for the lobby and show why.
    Kicked { reason: String },
    /// Show the map selection at this map.
    MapSelect { map_index: usize },
    /// Select this map.
    SetMap { map_index: usize },
    /// Start the host's match on this map.
    StartGame { map_index: usize },
    /// Place the other player's cursor.
    MoveCursor { cursor: PlayerCursor },
    /// Carry out a peer's command and answer with its result.
    RunCommand { id: u32, cmd: NetCmd },
    /// The host refused this player's command.
    CommandFailed { error: String },
    /// Take over the host's match.
    ApplyState { state: GameSnapshot },
    /// Replay the host's effects.
    ReplayFx { events: Vec<FxEvent> },
}

/// The last index of a list of `len` maps at most, at or before `index`.
pub open spec fn clamped_index(index: usize, len: usize) -> usize {
    if index < len {
        index
    } else {
        (len - 1) as usize
    }
}

impl Lobby {
    /// Routes a message of the other player. `own_name` is what the player
    /// typed as their name and `named` whether they already sent it;
    /// `maps` is how many maps there are. A host answers a peer's name
    /// with nothing, a peer greets back when it has a name and has not sent
    /// it. Map, state and effect messages are for peers only, commands for
    /// hosts only.
    pub fn route_msg(&mut self, msg: NetMsg, own_name: &str, named: bool, maps: usize) -> (r: MsgRoute)
        ensures
            same_link(old(self), final(self)),
            match msg {
                NetMsg::Hello { name } => if forall|i: int|
                    0 <= i < name@.len() ==> unicode_white(#[trigger] name@[i]) {
                    *final(self) == *old(self) && r is Ignore
                } else {
                    &&& (final(self).peer_name matches Some(n) && n@ == name@)
                    &&& final(self).status == old(self).status
                    &&& final(self).active == old(self).active
                    &&& (r matches MsgRoute::Greet { reply } && reply == (old(self).role
                        == MultiplayerRole::Peer && !named && !(forall|i: int|
                        0 <= i < own_name@.len() ==> unicode_white(#[trigger] own_name@[i]))))
                },
                NetMsg::Kick { reason } => if old(self).role != MultiplayerRole::Peer {
                    *final(self) == *old(self) && r is Ignore
                } else {
                    &&& !final(self).active
                    &&& final(self).status == ConnectionStatus::Failed
                    &&& final(self).focus == MultiplayerFocus::Continue
                    &&& (r matches MsgRoute::Kicked { reason: text } && text@ == match reason {
                        Some(t) => t@,
                        None => "expulso do lobby"@,
                    })
                },
                NetMsg::EnterMapSelect { map_index } => {
                    &&& *final(self) == *old(self)
                    &&& if old(self).role == MultiplayerRole::Peer && old(self).active
                        && old(self).status == ConnectionStatus::Connected && maps > 0 {
                        r == MsgRoute::MapSelect { map_index: clamped_index(map_index, maps) }
                    } else {
                        r is Ignore
                    }
                },
                NetMsg::SetMap { map_index } => {
                    &&& *final(self) == *old(self)
                    &&& if old(self).role == MultiplayerRole::Peer && maps > 0 {
                        r == MsgRoute::SetMap { map_index: clamped_index(map_index, maps) }
                    } else {
                        r is Ignore
                    }
                },
                NetMsg::StartGame { map_index } => {
                    &&& *final(self) == *old(self)
                    &&& if old(self).role == MultiplayerRole::Peer {
                        r == MsgRoute::StartGame { map_index }
                    } else {
                        r is Ignore
                    }
                },
                NetMsg::Cursor { name, x, y, pending_build } => {
                    &&& *final(self) == *old(self)
                    &&& if old(self).active {
                        &&& r matches MsgRoute::MoveCursor { cursor }
                        &&& cursor.name@ == name@
                        &&& cursor.x == x
                        &&& cursor.y == y
                        &&& cursor.pending_build == pending_build
                    } else {
                        r is Ignore
                    }
                },
                NetMsg::Cmd { id, cmd } => {
                    &&& *final(self) == *old(self)
                    &&& if old(self).role == MultiplayerRole::Host {
                        r == MsgRoute::RunCommand { id, cmd }
                    } else {
                        r is Ignore
                    }
                },
                NetMsg::CmdResult { id, ok, error } => {
                    &&& *final(self) == *old(self)
                    &&& if old(self).role == MultiplayerRole::Peer && !ok {
                        r matches MsgRoute::CommandFailed { error: text } && text@ == match error {
                            Some(t) => t@,
                            None => "falha"@,
                        }
                    } else {
                        r is Ignore
                    }
                },
                NetMsg::State { state } => {
                    &&& *final(self) == *old(self)
                    &&& if old(self).role == MultiplayerRole::Peer {
                        r matches MsgRoute::ApplyState { state: s } && s == state
                    } else {
                        r is Ignore
                    }
                },
                NetMsg::Fx { events } => {
                    &&& *final(self) == *old(self)
                    &&& if old(self).role == MultiplayerRole::Peer {
                        r matches MsgRoute::ReplayFx { events: e } && e == events
                    } else {
                        r is Ignore
                    }
                },
            },
    {
        let peer_side = self.role == MultiplayerRole::Peer;
        match msg {
            NetMsg::Hello { name } => {
                if is_blank(name.as_str()) {
                    return MsgRoute::Ignore;
                }
                self.peer_name = Some(name);
                let reply = peer_side && !named && !is_blank(own_name);
                MsgRoute::Greet { reply }
            },
            NetMsg::Kick { reason } => {
                if !peer_side {
                    return MsgRoute::Ignore;
                }
                self.active = false;
                self.status = ConnectionStatus::Failed;
                self.focus = MultiplayerFocus::Continue;
                let text = match reason {
                    Some(t) => t,
                    None => {
                        proof {
                            reveal_strlit("expulso do lobby");
                        }
                        "expulso do lobby".to_owned()
                    },
                };
                MsgRoute::Kicked { reason: text }
            },
            NetMsg::EnterMapSelect { map_index } => {
                if peer_side && self.active && self.status == ConnectionStatus::Connected && maps
                    > 0 {
                    MsgRoute::MapSelect { map_index: clamp_index(map_index, maps) }
                } else {
                    MsgRoute::Ignore
                }
            },
            NetMsg::SetMap { map_index } => {
                if peer_side && maps > 0 {
                    MsgRoute::SetMap { map_index: clamp_index(map_index, maps) }
                } else {
                    MsgRoute::Ignore
                }
            },
            NetMsg::StartGame { map_index } => {
                if peer_side {
                    MsgRoute::StartGame { map_index }
                } else {
                    MsgRoute::Ignore
                }
            },
            NetMsg::Cursor { name, x, y, pending_build } => {
                if self.active {
                    MsgRoute::MoveCursor { cursor: PlayerCursor { name, x, y, pending_build } }
                } else {
                    MsgRoute::Ignore
                }
            },
            NetMsg::Cmd { id, cmd } => {
                if self.role == MultiplayerRole::Host {
                    MsgRoute::RunCommand { id, cmd }
                } else {
                    MsgRoute::Ignore
                }
            },
            NetMsg::CmdResult { id, ok, error } => {
                if peer_side && !ok {
                    let text = match error {
                        Some(t) => t,
                        None => {
                            proof {
                                reveal_strlit("falha");
                            }
                            "falha".to_owned()
                        },
                    };
                    MsgRoute::CommandFailed { error: text }
                } else {
                    MsgRoute::Ignore
                }
            },
            NetMsg::State { state } => {
                if peer_side {
                    MsgRoute::ApplyState { state }
                } else {
                    MsgRoute::Ignore
                }
            },
            NetMsg::Fx { events } => {
                if peer_side {
                    MsgRoute::ReplayFx { events }
                } else {
                    MsgRoute::Ignore
                }
            },
        }
    }
}

fn clamp_index(index: usize, len: usize) -> (r: usize)
    requires
        len > 0,
    ensures
        r == clamped_index(index, len),
{
    if index < len {
        index
    } else {
        len - 1
    }
}


/// A host whose peer drops during a match pauses it and dials the peer's
/// address again; when the peer is verified again the match runs exactly
/// as it did before the drop, the lobby connected and no longer
/// reconnecting, and the match is shared with the peer again.
pub proof fn lemma_reconnect_resumes(
    a: &Lobby,
    b: &Lobby,
    c: &Lobby,
    lost: SockAddr,
    timed_out: bool,
    dev_mode: bool,
    peer: SockAddr,
    peer_id: Seq<char>,
    running0: bool,
    running1: bool,
    running2: bool,
    acts1: Seq<LobbyAction>,
    acts2: Seq<LobbyAction>,
)
    requires
        a.role == MultiplayerRole::Host,
        a.peer_addr is Some,
        lost_outcome(a, b, lost, timed_out, dev_mode, true, running0, running1, acts1),
        verified_outcome(b, c, peer, peer_id, dev_mode, true, running1, running2, acts2),
    ensures
        !running1,
        acts1[acts1.len() - 1] == LobbyAction::ConnectPeer(a.peer_addr->0),
        running2 == running0,
        c.status == ConnectionStatus::Connected,
        c.active,
        !c.reconnecting,
        acts2[4] matches LobbyAction::SendState,
{
}


/// A name that is not blank.
pub open spec fn named(name: Option<String>) -> bool {
    name matches Some(n) && !(forall|i: int| 0 <= i < n@.len() ==> unicode_white(#[trigger] n@[i]))
}

/// The cursor shown for a player: at the selected cell when there is one,
/// else where it was; named after the player when the name is not blank,
/// else as it was.
pub open spec fn placed_cursor(
    old_cursor: (Seq<char>, u16, u16, Option<(u16, u16, TowerKind)>),
    selected: Option<(u16, u16)>,
    name: Option<String>,
) -> (Seq<char>, u16, u16, Option<(u16, u16, TowerKind)>) {
    let (x, y) = match selected {
        Some(c) => c,
        None => (old_cursor.1, old_cursor.2),
    };
    (
        if named(name) {
            name->0@
        } else {
            old_cursor.0
        },
        x,
        y,
        old_cursor.3,
    )
}

/// The spec view of a cursor.
pub open spec fn cursor_view(c: PlayerCursor) -> (Seq<char>, u16, u16, Option<(u16, u16, TowerKind)>) {
    (c.name@, c.x, c.y, c.pending_build)
}

fn name_if_named(current: String, name: &Option<String>) -> (r: String)
    ensures
        r@ == if named(*name) {
            name->0@
        } else {
            current@
        },
{
    match name {
        Some(n) => if is_blank(n.as_str()) {
            current
        } else {
            n.clone()
        },
        None => current,
    }
}

/// Keeps the cursors of a linked lobby: none without a link; else at least
/// the player's (first, "Player" until named) and the other player's
/// (second, "Peer" until named). The player's cursor follows the selected
/// cell.
pub fn ensure_cursor_slots(
    cursors: &mut Vec<PlayerCursor>,
    active: bool,
    selected: Option<(u16, u16)>,
    player_name: &Option<String>,
    peer_name: &Option<String>,
)
    ensures
        !active ==> final(cursors)@.len() == 0,
        active ==> {
            let n = old(cursors)@.len();
            let first = if n >= 1 {
                cursor_view(old(cursors)@[0])
            } else {
                (
                    "Player"@,
                    match selected {
                        Some(c) => c.0,
                        None => 0u16,
                    },
                    match selected {
                        Some(c) => c.1,
                        None => 0u16,
                    },
                    None::<(u16, u16, TowerKind)>,
                )
            };
            &&& final(cursors)@.len() == if n >= 2 {
                n as int
            } else {
                2
            }
            &&& cursor_view(final(cursors)@[0]) == placed_cursor(first, selected, *player_name)
            &&& if n >= 2 {
                cursor_view(final(cursors)@[1]) == placed_cursor(cursor_view(old(cursors)@[1]), None, *peer_name)
            } else {
                cursor_view(final(cursors)@[1]) == (
                    if named(*peer_name) {
                        peer_name->0@
                    } else {
                        "Peer"@
                    },
                    0u16,
                    0u16,
                    None::<(u16, u16, TowerKind)>,
                )
            }
            &&& forall|i: int| 2 <= i < n ==> final(cursors)@[i] == old(cursors)@[i]
        },
{
    if !active {
        cursors.clear();
        return;
    }
    proof {
        reveal_strlit("Player");
        reveal_strlit("Peer");
    }
    if cursors.len() == 0 {
        let (x, y) = match selected {
            Some(c) => c,
            None => (0, 0),
        };
        cursors.push(PlayerCursor { name: "Player".to_owned(), x, y, pending_build: None });
    }
    if cursors.len() == 1 {
        cursors.push(PlayerCursor { name: "Peer".to_owned(), x: 0, y: 0, pending_build: None });
    }
    let ghost mid = cursors@;
    let local = cursors[0].clone_cursor();
    let (x, y) = match selected {
        Some(c) => c,
        None => (local.x, local.y),
    };
    let name = name_if_named(local.name, player_name);
    cursors.set(0, PlayerCursor { name, x, y, pending_build: local.pending_build });
    let other = cursors[1].clone_cursor();
    let other_name = name_if_named(other.name, peer_name);
    cursors.set(1, PlayerCursor { name: other_name, x: other.x, y: other.y, pending_build: other.pending_build });
    proof {
        assert(forall|i: int| 2 <= i < mid.len() ==> cursors@[i] == mid[i]);
    }
}

impl PlayerCursor {
    /// A copy of the cursor.
    pub fn clone_cursor(&self) -> (c: PlayerCursor)
        ensures
            cursor_view(c) == cursor_view(*self),
    {
        PlayerCursor { name: self.name.clone(), x: self.x, y: self.y, pending_build: self.pending_build }
    }
}


/// The cursors each frame of a linked match: kept as `ensure_cursor_slots`
/// keeps them, the player's cursor then taking the player's name as sent,
/// blank or not. Without a link they are left alone.
pub fn update_cursors(
    cursors: &mut Vec<PlayerCursor>,
    active: bool,
    selected: Option<(u16, u16)>,
    player_name: &Option<String>,
    peer_name: &Option<String>,
)
    ensures
        !active ==> final(cursors)@ == old(cursors)@,
        active ==> final(cursors)@.len() >= 2,
        active ==> {
            let v = placed_cursor(
                if old(cursors)@.len() >= 1 {
                    cursor_view(old(cursors)@[0])
                } else {
                    (
                        "Player"@,
                        match selected {
                            Some(c) => c.0,
                            None => 0u16,
                        },
                        match selected {
                            Some(c) => c.1,
                            None => 0u16,
                        },
                        None::<(u16, u16, TowerKind)>,
                    )
                },
                selected,
                *player_name,
            );
            cursor_view(final(cursors)@[0]) == (
                match player_name {
                    Some(n) => n@,
                    None => v.0,
                },
                v.1,
                v.2,
                v.3,
            )
        },
{
    if !active {
        return;
    }
    ensure_cursor_slots(cursors, active, selected, player_name, peer_name);
    match player_name {
        Some(n) => {
            let c = cursors[0].clone_cursor();
            cursors.set(0, PlayerCursor { name: n.clone(), x: c.x, y: c.y, pending_build: c.pending_build });
        },
        None => {},
    }
}


impl Lobby {
    /// A tick while reconnecting. When the window has closed (`expired`)
    /// the attempt is given up: the match goes on alone, running, and the
    /// loss is shown. Else, when a new attempt is due (`retry_due`, three
    /// seconds after the last), the peer's address is dialled again.
    pub fn tick_reconnect(&mut self, expired: bool, retry_due: bool, running: &mut bool) -> (actions:
        Vec<LobbyAction>)
        ensures
            same_link(old(self), final(self)),
            !old(self).reconnecting ==> *final(self) == *old(self) && *final(running) == *old(running)
                && actions@.len() == 0,
            old(self).reconnecting && expired ==> {
                &&& !final(self).reconnecting
                &&& final(self).reconnect_peer_addr is None
                &&& final(self).peer_disconnected_in_game
                &&& !final(self).active
                &&& final(self).status == ConnectionStatus::Ready
                &&& *final(running)
                &&& actions@.len() == 2
                &&& (actions@[0] matches LobbyAction::StopReconnectClock)
                &&& (actions@[1] matches LobbyAction::ShowNotice(Notice::LinkLost))
            },
            old(self).reconnecting && !expired ==> {
                &&& *final(self) == *old(self)
                &&& *final(running) == *old(running)
                &&& if retry_due && old(self).reconnect_peer_addr is Some {
                    actions@.len() == 1 && actions@[0] == LobbyAction::ConnectPeer(
                        old(self).reconnect_peer_addr->0,
                    )
                } else {
                    actions@.len() == 0
                }
            },
    {
        let mut actions: Vec<LobbyAction> = Vec::new();
        if !self.reconnecting {
            return actions;
        }
        if expired {
            self.reconnecting = false;
            self.reconnect_peer_addr = None;
            self.peer_disconnected_in_game = true;
            self.active = false;
            self.status = ConnectionStatus::Ready;
            *running = true;
            actions.push(LobbyAction::StopReconnectClock);
            actions.push(LobbyAction::ShowNotice(Notice::LinkLost));
            return actions;
        }
        if retry_due {
            match self.reconnect_peer_addr {
                Some(addr) => actions.push(LobbyAction::ConnectPeer(addr)),
                None => {},
            }
        }
        actions
    }
}

} // verus!
