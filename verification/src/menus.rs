//! The menus around a match: the main menu, the load menu, the map list
//! and the multiplayer lobby, and the notices shown on top.
use vstd::prelude::*;

use crate::kinds::TowerKind;
use crate::save::SaveSlotSummary;

verus! {

/// The screens of the game.
#[derive(Debug, Clone, Copy, PartialEq, Eq, Structural)]
pub enum Screen {
    MainMenu,
    Multiplayer,
    MapSelect,
    LoadGame,
    Game,
}

/// The player's part in a multiplayer match.
#[derive(Debug, Clone, Copy, PartialEq, Eq, Structural)]
pub enum MultiplayerRole {
    Host,
    Peer,
}

/// The address family the lobby uses.
#[derive(Debug, Clone, Copy, PartialEq, Eq, Structural)]
pub enum IpMode {
    Ipv4,
    Ipv6,
}

/// The lobby field that has the focus.
#[derive(Debug, Clone, Copy, PartialEq, Eq, Structural)]
pub enum MultiplayerFocus {
    Role,
    IpMode,
    PublicIp,
    PeerIp,
    Connect,
    Name,
    Continue,
}

/// Where the connection to the other player stands.
#[derive(Debug, Clone, Copy, PartialEq, Eq, Structural)]
pub enum ConnectionStatus {
    Idle,
    FetchingIp,
    Ready,
    Connecting,
    Connected,
    Failed,
}

/// Another player's cursor on the map, with the build they are placing.
#[derive(Debug, Clone)]
pub struct PlayerCursor {
    pub name: String,
    pub x: u16,
    pub y: u16,
    pub pending_build: Option<(u16, u16, TowerKind)>,
}

/// The buttons of the match screen.
#[derive(Debug, Clone, Copy, PartialEq, Eq, Structural)]
pub enum ButtonId {
    StartPause,
    StartWave,
    Build,
    Upgrade,
    Sell,
    Speed,
    Quit,
}

/// The controls of the map list.
#[derive(Debug, Clone, Copy, PartialEq, Eq, Structural)]
pub enum MapSelectAction {
    Prev,
    Next,
    Start,
}

/// The column of the load menu that has the focus.
#[derive(Debug, Clone, Copy, PartialEq, Eq, Structural)]
pub enum LoadMenuFocus {
    Slots,
    Waves,
}

/// What the pointer hovers that shows a preview.
#[derive(Debug, Clone, Copy, PartialEq, Eq, Structural)]
pub enum HoverAction {
    UpgradePreview,
}

/// The controls of the lobby.
#[derive(Debug, Clone, Copy, PartialEq, Eq, Structural)]
pub enum MultiplayerAction {
    CreateLobby,
    JoinLobby,
    ToggleIpMode,
    CopyStunIp,
    RefreshStun,
    Connect,
    Continue,
    FocusPeerIp,
    FocusName,
    KickPlayer(usize),
}

/// A notice shown on top of the screen for a while.
#[derive(Debug, Clone)]
pub struct TopNotice {
    pub text: String,
    pub ttl_ticks: u16,
}

/// Ticks a notice stays.
pub const NOTICE_TICKS: u16 = 60;

/// The entries of the main menu: new game, load game, multiplayer.
pub const MAIN_MENU_OPTION_COUNT: usize = 3;

impl TopNotice {
    /// A notice with `text`, shown for 60 ticks.
    pub fn show(text: String) -> (n: TopNotice)
        ensures
            n.text@ == text@,
            n.ttl_ticks == NOTICE_TICKS,
    {
        TopNotice { text, ttl_ticks: NOTICE_TICKS }
    }
}

/// A notice one tick later: its time runs down, and it is gone at 0.
pub fn tick_notice(notice: Option<TopNotice>) -> (r: Option<TopNotice>)
    ensures
        match notice {
            None => r is None,
            Some(n) => if n.ttl_ticks <= 1 {
                r is None
            } else {
                r matches Some(m) && m.text@ == n.text@ && m.ttl_ticks == n.ttl_ticks - 1
            },
        },
{
    match notice {
        None => None,
        Some(n) => {
            let ttl = n.ttl_ticks.saturating_sub(1);
            if ttl == 0 {
                None
            } else {
                Some(TopNotice { text: n.text, ttl_ticks: ttl })
            }
        },
    }
}

/// The entry before `i` in a list of `count`, wrapping to the last.
pub open spec fn spec_wrap_prev(i: int, count: int) -> int {
    if i == 0 {
        count - 1
    } else {
        i - 1
    }
}

/// The entry before `i` in a list of `count` (the first wraps to the last).
pub fn wrap_prev(i: usize, count: usize) -> (r: usize)
    requires
        count > 0,
        i < count,
    ensures
        r == spec_wrap_prev(i as int, count as int),
        r < count,
{
    if i == 0 {
        count - 1
    } else {
        i - 1
    }
}

/// The entry after `i` in a list of `count` (the last wraps to the first).
pub fn wrap_next(i: usize, count: usize) -> (r: usize)
    requires
        count > 0,
        i < count,
    ensures
        r == (i + 1) % (count as int),
        r < count,
{
    (i + 1) % count
}

/// The position of a lobby field in the focus cycle.
pub open spec fn focus_rank(f: MultiplayerFocus) -> int {
    match f {
        MultiplayerFocus::Role => 0,
        MultiplayerFocus::IpMode => 1,
        MultiplayerFocus::PublicIp => 2,
        MultiplayerFocus::PeerIp => 3,
        MultiplayerFocus::Connect => 4,
        MultiplayerFocus::Name => 5,
        MultiplayerFocus::Continue => 6,
    }
}

impl MultiplayerFocus {
    /// The next field in the cycle of seven.
    pub fn next(self) -> (r: MultiplayerFocus)
        ensures
            focus_rank(r) == (focus_rank(self) + 1) % 7,
    {
        match self {
            MultiplayerFocus::Role => MultiplayerFocus::IpMode,
            MultiplayerFocus::IpMode => MultiplayerFocus::PublicIp,
            MultiplayerFocus::PublicIp => MultiplayerFocus::PeerIp,
            MultiplayerFocus::PeerIp => MultiplayerFocus::Connect,
            MultiplayerFocus::Connect => MultiplayerFocus::Name,
            MultiplayerFocus::Name => MultiplayerFocus::Continue,
            MultiplayerFocus::Continue => MultiplayerFocus::Role,
        }
    }

    /// The previous field in the cycle of seven.
    pub fn prev(self) -> (r: MultiplayerFocus)
        ensures
            focus_rank(r) == (focus_rank(self) + 6) % 7,
    {
        match self {
            MultiplayerFocus::Role => MultiplayerFocus::Continue,
            MultiplayerFocus::IpMode => MultiplayerFocus::Role,
            MultiplayerFocus::PublicIp => MultiplayerFocus::IpMode,
            MultiplayerFocus::PeerIp => MultiplayerFocus::PublicIp,
            MultiplayerFocus::Connect => MultiplayerFocus::PeerIp,
            MultiplayerFocus::Name => MultiplayerFocus::Connect,
            MultiplayerFocus::Continue => MultiplayerFocus::Name,
        }
    }
}

/// Moving the lobby focus forward and then back (or back and then
/// forward) returns to the field it started on.
pub proof fn lemma_focus_next_prev(f: MultiplayerFocus, a: MultiplayerFocus, b: MultiplayerFocus)
    ensures
        focus_rank(a) == (focus_rank(f) + 1) % 7 && focus_rank(b) == (focus_rank(a) + 6) % 7 ==> b == f,
        focus_rank(a) == (focus_rank(f) + 6) % 7 && focus_rank(b) == (focus_rank(a) + 1) % 7 ==> b == f,
{
}

/// The other role.
pub fn toggled_role(role: MultiplayerRole) -> (r: MultiplayerRole)
    ensures
        r != role,
{
    match role {
        MultiplayerRole::Host => MultiplayerRole::Peer,
        MultiplayerRole::Peer => MultiplayerRole::Host,
    }
}

/// The field a role starts on: the host's public code, the peer's field
/// for the host's code.
pub fn role_focus(role: MultiplayerRole) -> (f: MultiplayerFocus)
    ensures
        f == match role {
            MultiplayerRole::Host => MultiplayerFocus::PublicIp,
            MultiplayerRole::Peer => MultiplayerFocus::PeerIp,
        },
{
    match role {
        MultiplayerRole::Host => MultiplayerFocus::PublicIp,
        MultiplayerRole::Peer => MultiplayerFocus::PeerIp,
    }
}

/// The other address family.
pub fn toggled_ip_mode(mode: IpMode) -> (r: IpMode)
    ensures
        r != mode,
{
    match mode {
        IpMode::Ipv4 => IpMode::Ipv6,
        IpMode::Ipv6 => IpMode::Ipv4,
    }
}

/// A character the field for the other player's code accepts: digits and
/// `.`, `:`, `[`, `]`.
pub open spec fn spec_peer_ip_char(ch: char) -> bool {
    ('0' <= ch && ch <= '9') || ch == '.' || ch == ':' || ch == '[' || ch == ']'
}

/// Whether the code field accepts `ch`.
pub fn peer_ip_char_allowed(ch: char) -> (b: bool)
    ensures
        b == spec_peer_ip_char(ch),
{
    ('0' <= ch && ch <= '9') || ch == '.' || ch == ':' || ch == '[' || ch == ']'
}

/// A control character (Unicode category Cc).
pub open spec fn is_control(ch: char) -> bool {
    (ch as u32) <= 0x1f || (0x7f <= (ch as u32) && (ch as u32) <= 0x9f)
}

/// Whether the name field accepts `ch`: any character but a control, and
/// only once connected.
pub fn name_char_allowed(ch: char, status: ConnectionStatus) -> (b: bool)
    ensures
        b == (status == ConnectionStatus::Connected && !is_control(ch)),
{
    let code = ch as u32;
    let control = code <= 0x1f || (0x7f <= code && code <= 0x9f);
    status == ConnectionStatus::Connected && !control
}

/// The load menu: the slots found, the selected slot and wave, and which
/// column has the focus.
#[derive(Debug, Clone)]
pub struct LoadMenuState {
    pub slots: Vec<SaveSlotSummary>,
    pub selected_slot: usize,
    pub selected_wave: usize,
    pub focus: LoadMenuFocus,
    pub error: Option<String>,
}

/// How many waves the selected slot has (0 when no slot is selected).
pub open spec fn spec_waves_len(m: &LoadMenuState) -> int {
    if m.selected_slot < m.slots@.len() {
        m.slots@[m.selected_slot as int].waves@.len() as int
    } else {
        0
    }
}

/// The index of the selected slot's last wave (0 when it has none).
pub open spec fn spec_last_wave(m: &LoadMenuState) -> int {
    if spec_waves_len(m) >= 1 {
        spec_waves_len(m) - 1
    } else {
        0
    }
}

impl LoadMenuState {
    /// How many waves the selected slot has.
    pub fn selected_slot_waves_len(&self) -> (n: usize)
        ensures
            n == spec_waves_len(self),
    {
        if self.selected_slot < self.slots.len() {
            self.slots[self.selected_slot].waves.len()
        } else {
            0
        }
    }

    /// The index of the selected slot's last wave.
    pub fn selected_slot_last_wave_index(&self) -> (n: usize)
        ensures
            n == spec_last_wave(self),
    {
        let n = self.selected_slot_waves_len();
        if n >= 1 {
            n - 1
        } else {
            0
        }
    }

    /// Moves the selection up: in the slot column to the slot before
    /// (wrapping), selecting its last wave; in the wave column to the wave
    /// before (wrapping). Nothing happens on an empty column.
    pub fn prev(&mut self)
        requires
            old(self).selected_slot < old(self).slots@.len() || old(self).slots@.len() == 0,
        ensures
            final(self).slots@ == old(self).slots@,
            final(self).focus == old(self).focus,
            old(self).focus == LoadMenuFocus::Slots ==> if old(self).slots@.len() == 0 {
                final(self).selected_slot == old(self).selected_slot && final(self).selected_wave
                    == old(self).selected_wave
            } else {
                final(self).selected_slot == spec_wrap_prev(
                    old(self).selected_slot as int,
                    old(self).slots@.len() as int,
                ) && final(self).selected_wave == spec_last_wave(final(self))
            },
            old(self).focus == LoadMenuFocus::Waves ==> final(self).selected_slot == old(
                self,
            ).selected_slot && if spec_waves_len(old(self)) == 0 {
                final(self).selected_wave == old(self).selected_wave
            } else {
                final(self).selected_wave == if old(self).selected_wave == 0 {
                    spec_waves_len(old(self)) - 1
                } else {
                    old(self).selected_wave - 1
                }
            },
    {
        match self.focus {
            LoadMenuFocus::Slots => {
                let len = self.slots.len();
                if len == 0 {
                    return;
                }
                self.selected_slot = wrap_prev(self.selected_slot, len);
                self.selected_wave = self.selected_slot_last_wave_index();
            },
            LoadMenuFocus::Waves => {
                let waves_len = self.selected_slot_waves_len();
                if waves_len == 0 {
                    return;
                }
                if self.selected_wave == 0 {
                    self.selected_wave = waves_len - 1;
                } else {
                    self.selected_wave = self.selected_wave - 1;
                }
            },
        }
    }

    /// Moves the selection down: in the slot column to the next slot
    /// (wrapping), selecting its last wave; in the wave column to the next
    /// wave (wrapping). Nothing happens on an empty column.
    pub fn next(&mut self)
        requires
            old(self).selected_slot < old(self).slots@.len() || old(self).slots@.len() == 0,
        ensures
            final(self).slots@ == old(self).slots@,
            final(self).focus == old(self).focus,
            old(self).focus == LoadMenuFocus::Slots ==> if old(self).slots@.len() == 0 {
                final(self).selected_slot == old(self).selected_slot && final(self).selected_wave
                    == old(self).selected_wave
            } else {
                final(self).selected_slot == (old(self).selected_slot + 1) % (old(
                    self,
                ).slots@.len() as int) && final(self).selected_wave == spec_last_wave(final(self))
            },
            old(self).focus == LoadMenuFocus::Waves ==> final(self).selected_slot == old(
                self,
            ).selected_slot && if spec_waves_len(old(self)) == 0 {
                final(self).selected_wave == old(self).selected_wave
            } else {
                final(self).selected_wave == (old(self).selected_wave + 1) % spec_waves_len(old(self))
            },
    {
        match self.focus {
            LoadMenuFocus::Slots => {
                let len = self.slots.len();
                if len == 0 {
                    return;
                }
                self.selected_slot = wrap_next(self.selected_slot, len);
                self.selected_wave = self.selected_slot_last_wave_index();
            },
            LoadMenuFocus::Waves => {
                let waves_len = self.selected_slot_waves_len();
                if waves_len == 0 {
                    return;
                }
                self.selected_wave = ((self.selected_wave as u128 + 1) % (waves_len as u128)) as usize;
            },
        }
    }

    /// Keeps the selection on an existing slot (the last one when it was
    /// past the end) and selects that slot's last wave; with no slots both
    /// selections are 0.
    pub fn clamp_selection(&mut self)
        ensures
            final(self).slots@ == old(self).slots@,
            final(self).focus == old(self).focus,
            old(self).slots@.len() == 0 ==> final(self).selected_slot == 0 && final(self).selected_wave
                == 0,
            old(self).slots@.len() > 0 ==> final(self).selected_slot == if old(self).selected_slot
                >= old(self).slots@.len() {
                old(self).slots@.len() - 1
            } else {
                old(self).selected_slot as int
            } && final(self).selected_wave == spec_last_wave(final(self)),
    {
        if self.slots.len() == 0 {
            self.selected_slot = 0;
            self.selected_wave = 0;
            return;
        }
        if self.selected_slot >= self.slots.len() {
            self.selected_slot = self.slots.len() - 1;
        }
        self.selected_wave = self.selected_slot_last_wave_index();
    }
}

} // verus!
