//! What the player's keys and clicks do: the key bindings of each screen,
//! the match buttons, a click on a map cell, and a click in the load menu.
use vstd::prelude::*;

use crate::commands::{sell_outcome, tower_at, upgrade_outcome, CmdError};
use crate::game::{new_tower, spec_can_build_at, spec_footprint_fits, GameState};
use crate::kinds::TowerKind;
use crate::menus::{spec_last_wave, ButtonId, LoadMenuFocus, LoadMenuState, MultiplayerFocus, Screen};
use crate::net_msg::NetCmd;
use crate::rules::{spec_tower_cost, MAX_PRICED_WAVE};
use crate::sim::{MAX_FIELD_ENEMIES, spec_next_speed, start_wave_outcome};

verus! {

/// A key as the screens tell keys apart.
#[derive(Debug, Clone, Copy, PartialEq, Eq, Structural)]
pub enum Key {
    Esc,
    Enter,
    Backspace,
    Tab,
    Up,
    Down,
    Left,
    Right,
    F12,
    Char(char),
    /// Any other key.
    Other,
}

/// What a key asks for.
#[derive(Debug, Clone, Copy, PartialEq, Eq, Structural)]
pub enum KeyAction {
    Ignore,
    Quit,
    MainMenuPrev,
    MainMenuNext,
    MainMenuActivate,
    EnterMainMenu,
    /// Erase the last character of the focused lobby field.
    Backspace,
    /// Leave the focused field for the continue button.
    FocusContinue,
    /// Type into the focused lobby field.
    InputChar(char),
    SelectPrevMap,
    SelectNextMap,
    StartSelectedMap,
    LoadMenuPrev,
    LoadMenuNext,
    LoadFocusSlots,
    LoadFocusWaves,
    LoadMenuActivate,
    RefreshLoadMenu,
    Button(ButtonId),
    ToggleDevMode,
    ToggleBuildKind(TowerKind),
    /// Zoom in (1) or out (-1).
    Zoom(i16),
}

/// A lobby text field has the focus.
pub open spec fn typing(focus: MultiplayerFocus) -> bool {
    focus == MultiplayerFocus::PeerIp || focus == MultiplayerFocus::Name
}

/// The match keys, whatever has the focus elsewhere: Esc and q quit, space
/// starts or pauses, r sends the next wave, b builds, u upgrades the
/// selected tower and s sells it, f changes the speed, F12 toggles developer
/// mode, 1 to 6 pick Basic, Sniper, Rapid, Cannon, Tesla and Frost, + and =
/// zoom in, - zooms out, and other keys do nothing.
pub proof fn lemma_match_keys(focus: MultiplayerFocus, load_focus: LoadMenuFocus, c: char)
    ensures
        spec_key_action(Screen::Game, focus, load_focus, Key::Esc) == KeyAction::Quit,
        spec_key_action(Screen::Game, focus, load_focus, Key::Char('q')) == KeyAction::Quit,
        spec_key_action(Screen::Game, focus, load_focus, Key::Char(' ')) == KeyAction::Button(ButtonId::StartPause),
        spec_key_action(Screen::Game, focus, load_focus, Key::Char('r')) == KeyAction::Button(ButtonId::StartWave),
        spec_key_action(Screen::Game, focus, load_focus, Key::Char('b')) == KeyAction::Button(ButtonId::Build),
        spec_key_action(Screen::Game, focus, load_focus, Key::Char('u')) == KeyAction::Button(ButtonId::Upgrade),
        spec_key_action(Screen::Game, focus, load_focus, Key::Char('s')) == KeyAction::Button(ButtonId::Sell),
        spec_key_action(Screen::Game, focus, load_focus, Key::Char('f')) == KeyAction::Button(ButtonId::Speed),
        spec_key_action(Screen::Game, focus, load_focus, Key::F12) == KeyAction::ToggleDevMode,
        spec_key_action(Screen::Game, focus, load_focus, Key::Char('1')) == KeyAction::ToggleBuildKind(TowerKind::Basic),
        spec_key_action(Screen::Game, focus, load_focus, Key::Char('2')) == KeyAction::ToggleBuildKind(TowerKind::Sniper),
        spec_key_action(Screen::Game, focus, load_focus, Key::Char('3')) == KeyAction::ToggleBuildKind(TowerKind::Rapid),
        spec_key_action(Screen::Game, focus, load_focus, Key::Char('4')) == KeyAction::ToggleBuildKind(TowerKind::Cannon),
        spec_key_action(Screen::Game, focus, load_focus, Key::Char('5')) == KeyAction::ToggleBuildKind(TowerKind::Tesla),
        spec_key_action(Screen::Game, focus, load_focus, Key::Char('6')) == KeyAction::ToggleBuildKind(TowerKind::Frost),
        spec_key_action(Screen::Game, focus, load_focus, Key::Char('+')) == KeyAction::Zoom(1i16),
        spec_key_action(Screen::Game, focus, load_focus, Key::Char('=')) == KeyAction::Zoom(1i16),
        spec_key_action(Screen::Game, focus, load_focus, Key::Char('-')) == KeyAction::Zoom(-1i16),
        !(c == 'q' || c == ' ' || c == 'r' || c == 'b' || c == 'u' || c == 's' || c == 'f' || ('1' <= c
            && c <= '6') || c == '+' || c == '=' || c == '-') ==> spec_key_action(
            Screen::Game,
            focus,
            load_focus,
            Key::Char(c),
        ) == KeyAction::Ignore,
{
}

/// The menu keys. Main menu: Esc and q quit, Up and w move up, Down and s
/// move down, Enter and space choose. Map list: Esc goes back, q quits, Left
/// and a, Right and d browse, Enter and space start. Load menu: Esc goes
/// back, q quits, Up and w, Down and s move, Left picks the slots and Right
/// the waves, Tab switches column, Enter loads, r refreshes. Lobby: Esc goes
/// back; in a text field characters are typed, Backspace erases and Enter
/// leaves the field; elsewhere those keys do nothing.
pub proof fn lemma_menu_keys(focus: MultiplayerFocus, load_focus: LoadMenuFocus, c: char)
    ensures
        spec_key_action(Screen::MainMenu, focus, load_focus, Key::Esc) == KeyAction::Quit,
        spec_key_action(Screen::MainMenu, focus, load_focus, Key::Char('q')) == KeyAction::Quit,
        spec_key_action(Screen::MainMenu, focus, load_focus, Key::Up) == KeyAction::MainMenuPrev,
        spec_key_action(Screen::MainMenu, focus, load_focus, Key::Char('w')) == KeyAction::MainMenuPrev,
        spec_key_action(Screen::MainMenu, focus, load_focus, Key::Down) == KeyAction::MainMenuNext,
        spec_key_action(Screen::MainMenu, focus, load_focus, Key::Char('s')) == KeyAction::MainMenuNext,
        spec_key_action(Screen::MainMenu, focus, load_focus, Key::Enter) == KeyAction::MainMenuActivate,
        spec_key_action(Screen::MainMenu, focus, load_focus, Key::Char(' ')) == KeyAction::MainMenuActivate,
        spec_key_action(Screen::MapSelect, focus, load_focus, Key::Esc) == KeyAction::EnterMainMenu,
        spec_key_action(Screen::MapSelect, focus, load_focus, Key::Char('q')) == KeyAction::Quit,
        spec_key_action(Screen::MapSelect, focus, load_focus, Key::Left) == KeyAction::SelectPrevMap,
        spec_key_action(Screen::MapSelect, focus, load_focus, Key::Char('a')) == KeyAction::SelectPrevMap,
        spec_key_action(Screen::MapSelect, focus, load_focus, Key::Right) == KeyAction::SelectNextMap,
        spec_key_action(Screen::MapSelect, focus, load_focus, Key::Char('d')) == KeyAction::SelectNextMap,
        spec_key_action(Screen::MapSelect, focus, load_focus, Key::Enter) == KeyAction::StartSelectedMap,
        spec_key_action(Screen::MapSelect, focus, load_focus, Key::Char(' ')) == KeyAction::StartSelectedMap,
        spec_key_action(Screen::LoadGame, focus, load_focus, Key::Esc) == KeyAction::EnterMainMenu,
        spec_key_action(Screen::LoadGame, focus, load_focus, Key::Char('q')) == KeyAction::Quit,
        spec_key_action(Screen::LoadGame, focus, load_focus, Key::Up) == KeyAction::LoadMenuPrev,
        spec_key_action(Screen::LoadGame, focus, load_focus, Key::Char('w')) == KeyAction::LoadMenuPrev,
        spec_key_action(Screen::LoadGame, focus, load_focus, Key::Down) == KeyAction::LoadMenuNext,
        spec_key_action(Screen::LoadGame, focus, load_focus, Key::Char('s')) == KeyAction::LoadMenuNext,
        spec_key_action(Screen::LoadGame, focus, load_focus, Key::Left) == KeyAction::LoadFocusSlots,
        spec_key_action(Screen::LoadGame, focus, load_focus, Key::Right) == KeyAction::LoadFocusWaves,
        spec_key_action(Screen::LoadGame, focus, LoadMenuFocus::Slots, Key::Tab) == KeyAction::LoadFocusWaves,
        spec_key_action(Screen::LoadGame, focus, LoadMenuFocus::Waves, Key::Tab) == KeyAction::LoadFocusSlots,
        spec_key_action(Screen::LoadGame, focus, load_focus, Key::Enter) == KeyAction::LoadMenuActivate,
        spec_key_action(Screen::LoadGame, focus, load_focus, Key::Char('r')) == KeyAction::RefreshLoadMenu,
        spec_key_action(Screen::Multiplayer, focus, load_focus, Key::Esc) == KeyAction::EnterMainMenu,
        (focus == MultiplayerFocus::PeerIp || focus == MultiplayerFocus::Name) ==> {
            &&& spec_key_action(Screen::Multiplayer, focus, load_focus, Key::Char(c)) == KeyAction::InputChar(c)
            &&& spec_key_action(Screen::Multiplayer, focus, load_focus, Key::Backspace) == KeyAction::Backspace
            &&& spec_key_action(Screen::Multiplayer, focus, load_focus, Key::Enter) == KeyAction::FocusContinue
        },
        !(focus == MultiplayerFocus::PeerIp || focus == MultiplayerFocus::Name) ==> {
            &&& spec_key_action(Screen::Multiplayer, focus, load_focus, Key::Char(c)) == KeyAction::Ignore
            &&& spec_key_action(Screen::Multiplayer, focus, load_focus, Key::Backspace) == KeyAction::Ignore
            &&& spec_key_action(Screen::Multiplayer, focus, load_focus, Key::Enter) == KeyAction::Ignore
        },
{
}

/// The key bindings. Main menu: Esc/q quit, Up/w and Down/s move, Enter and
/// space choose. Lobby: Esc back, and in a text field Backspace erases,
/// Enter leaves the field and characters are typed. Map list: Esc back,
/// q quit, Left/a and Right/d browse, Enter and space start. Load menu:
/// Esc back, q quit, Up/w and Down/s move, Left and Right (and Tab, to the
/// other column) change column, Enter loads, r refreshes. Match: Esc/q
/// quit, space start/pause, r next wave, b build, u upgrade, s sell, f
/// speed, F12 developer mode, 1 to 6 pick a tower kind, + and = zoom in,
/// - zoom out.
pub open spec fn spec_key_action(
    screen: Screen,
    focus: MultiplayerFocus,
    load_focus: LoadMenuFocus,
    key: Key,
) -> KeyAction {
    match screen {
        Screen::MainMenu => match key {
            Key::Esc | Key::Char('q') => KeyAction::Quit,
            Key::Up | Key::Char('w') => KeyAction::MainMenuPrev,
            Key::Down | Key::Char('s') => KeyAction::MainMenuNext,
            Key::Enter | Key::Char(' ') => KeyAction::MainMenuActivate,
            _ => KeyAction::Ignore,
        },
        Screen::Multiplayer => match key {
            Key::Esc => KeyAction::EnterMainMenu,
            Key::Backspace => if typing(focus) {
                KeyAction::Backspace
            } else {
                KeyAction::Ignore
            },
            Key::Enter => if typing(focus) {
                KeyAction::FocusContinue
            } else {
                KeyAction::Ignore
            },
            Key::Char(c) => if typing(focus) {
                KeyAction::InputChar(c)
            } else {
                KeyAction::Ignore
            },
            _ => KeyAction::Ignore,
        },
        Screen::MapSelect => match key {
            Key::Esc => KeyAction::EnterMainMenu,
            Key::Char('q') => KeyAction::Quit,
            Key::Left | Key::Char('a') => KeyAction::SelectPrevMap,
            Key::Right | Key::Char('d') => KeyAction::SelectNextMap,
            Key::Enter | Key::Char(' ') => KeyAction::StartSelectedMap,
            _ => KeyAction::Ignore,
        },
        Screen::LoadGame => match key {
            Key::Esc => KeyAction::EnterMainMenu,
            Key::Char('q') => KeyAction::Quit,
            Key::Up | Key::Char('w') => KeyAction::LoadMenuPrev,
            Key::Down | Key::Char('s') => KeyAction::LoadMenuNext,
            Key::Left => KeyAction::LoadFocusSlots,
            Key::Right => KeyAction::LoadFocusWaves,
            Key::Tab => if load_focus == LoadMenuFocus::Slots {
                KeyAction::LoadFocusWaves
            } else {
                KeyAction::LoadFocusSlots
            },
            Key::Enter => KeyAction::LoadMenuActivate,
            Key::Char('r') => KeyAction::RefreshLoadMenu,
            _ => KeyAction::Ignore,
        },
        Screen::Game => match key {
            Key::Esc | Key::Char('q') => KeyAction::Quit,
            Key::Char(' ') => KeyAction::Button(ButtonId::StartPause),
            Key::Char('r') => KeyAction::Button(ButtonId::StartWave),
            Key::Char('b') => KeyAction::Button(ButtonId::Build),
            Key::Char('u') => KeyAction::Button(ButtonId::Upgrade),
            Key::Char('s') => KeyAction::Button(ButtonId::Sell),
            Key::Char('f') => KeyAction::Button(ButtonId::Speed),
            Key::F12 => KeyAction::ToggleDevMode,
            Key::Char('1') => KeyAction::ToggleBuildKind(TowerKind::Basic),
            Key::Char('2') => KeyAction::ToggleBuildKind(TowerKind::Sniper),
            Key::Char('3') => KeyAction::ToggleBuildKind(TowerKind::Rapid),
            Key::Char('4') => KeyAction::ToggleBuildKind(TowerKind::Cannon),
            Key::Char('5') => KeyAction::ToggleBuildKind(TowerKind::Tesla),
            Key::Char('6') => KeyAction::ToggleBuildKind(TowerKind::Frost),
            Key::Char('+') | Key::Char('=') => KeyAction::Zoom(1i16),
            Key::Char('-') => KeyAction::Zoom(-1i16),
            _ => KeyAction::Ignore,
        },
    }
}

/// What a key press asks for on `screen` (see `spec_key_action`).
pub fn key_action(screen: Screen, focus: MultiplayerFocus, load_focus: LoadMenuFocus, key: Key) -> (a:
    KeyAction)
    ensures
        a == spec_key_action(screen, focus, load_focus, key),
{
    let typing = focus == MultiplayerFocus::PeerIp || focus == MultiplayerFocus::Name;
    match screen {
        Screen::MainMenu => match key {
            Key::Esc | Key::Char('q') => KeyAction::Quit,
            Key::Up | Key::Char('w') => KeyAction::MainMenuPrev,
            Key::Down | Key::Char('s') => KeyAction::MainMenuNext,
            Key::Enter | Key::Char(' ') => KeyAction::MainMenuActivate,
            _ => KeyAction::Ignore,
        },
        Screen::Multiplayer => match key {
            Key::Esc => KeyAction::EnterMainMenu,
            Key::Backspace => if typing {
                KeyAction::Backspace
            } else {
                KeyAction::Ignore
            },
            Key::Enter => if typing {
                KeyAction::FocusContinue
            } else {
                KeyAction::Ignore
            },
            Key::Char(c) => if typing {
                KeyAction::InputChar(c)
            } else {
                KeyAction::Ignore
            },
            _ => KeyAction::Ignore,
        },
        Screen::MapSelect => match key {
            Key::Esc => KeyAction::EnterMainMenu,
            Key::Char('q') => KeyAction::Quit,
            Key::Left | Key::Char('a') => KeyAction::SelectPrevMap,
            Key::Right | Key::Char('d') => KeyAction::SelectNextMap,
            Key::Enter | Key::Char(' ') => KeyAction::StartSelectedMap,
            _ => KeyAction::Ignore,
        },
        Screen::LoadGame => match key {
            Key::Esc => KeyAction::EnterMainMenu,
            Key::Char('q') => KeyAction::Quit,
            Key::Up | Key::Char('w') => KeyAction::LoadMenuPrev,
            Key::Down | Key::Char('s') => KeyAction::LoadMenuNext,
            Key::Left => KeyAction::LoadFocusSlots,
            Key::Right => KeyAction::LoadFocusWaves,
            Key::Tab => if load_focus == LoadMenuFocus::Slots {
                KeyAction::LoadFocusWaves
            } else {
                KeyAction::LoadFocusSlots
            },
            Key::Enter => KeyAction::LoadMenuActivate,
            Key::Char('r') => KeyAction::RefreshLoadMenu,
            _ => KeyAction::Ignore,
        },
        Screen::Game => match key {
            Key::Esc | Key::Char('q') => KeyAction::Quit,
            Key::Char(' ') => KeyAction::Button(ButtonId::StartPause),
            Key::Char('r') => KeyAction::Button(ButtonId::StartWave),
            Key::Char('b') => KeyAction::Button(ButtonId::Build),
            Key::Char('u') => KeyAction::Button(ButtonId::Upgrade),
            Key::Char('s') => KeyAction::Button(ButtonId::Sell),
            Key::Char('f') => KeyAction::Button(ButtonId::Speed),
            Key::F12 => KeyAction::ToggleDevMode,
            Key::Char('1') => KeyAction::ToggleBuildKind(TowerKind::Basic),
            Key::Char('2') => KeyAction::ToggleBuildKind(TowerKind::Sniper),
            Key::Char('3') => KeyAction::ToggleBuildKind(TowerKind::Rapid),
            Key::Char('4') => KeyAction::ToggleBuildKind(TowerKind::Cannon),
            Key::Char('5') => KeyAction::ToggleBuildKind(TowerKind::Tesla),
            Key::Char('6') => KeyAction::ToggleBuildKind(TowerKind::Frost),
            Key::Char('+') | Key::Char('=') => KeyAction::Zoom(1i16),
            Key::Char('-') => KeyAction::Zoom(-1i16),
            _ => KeyAction::Ignore,
        },
    }
}

/// What pressing a match button came to.
#[derive(Debug, Clone, Copy, PartialEq, Eq, Structural)]
pub enum ButtonOutcome {
    /// Nothing to do (no selection, or no tower there).
    Nothing,
    Quit,
    /// A peer without a link: report that there is no connection.
    NotConnected,
    /// A peer's button: ask the host for this command.
    Request(NetCmd),
    /// Carried out here.
    Done,
    /// A wave was started here, with the early-send bonus when one was paid.
    WaveStarted(Option<i32>),
}

/// The state is as it was in every field but the named ones.
pub open spec fn same_but_selection(a: &GameState, b: &GameState) -> bool {
    &&& a.running == b.running
    &&& a.speed == b.speed
    &&& a.grid_w == b.grid_w
    &&& a.grid_h == b.grid_h
    &&& a.map_name@ == b.map_name@
    &&& a.path@ == b.path@
    &&& a.enemies@ == b.enemies@
    &&& crate::sim::same_play(a, b)
}

/// What the build button does with `kind` chosen and `(x, y)` selected:
/// the preview is dropped; a peer asks the host; else the tower is built
/// when it fits and is paid for, which also clears the chosen kind.
pub open spec fn build_button_outcome(
    a: &GameState,
    b: &GameState,
    x: u16,
    y: u16,
    kind: TowerKind,
    is_peer: bool,
    dev_mode: bool,
    r: ButtonOutcome,
) -> bool {
    &&& b.pending_build is None
    &&& if is_peer {
        &&& r == ButtonOutcome::Request(NetCmd::Build { x, y, kind })
        &&& same_but_selection(a, b)
        &&& b.build_kind == a.build_kind
        &&& b.selected_cell == a.selected_cell
    } else {
        &&& r == ButtonOutcome::Done
        &&& b.running == a.running
        &&& b.speed == a.speed
        &&& b.enemies@ == a.enemies@
        &&& b.path@ == a.path@
        &&& b.wave == a.wave
        &&& b.lives == a.lives
        &&& b.projectiles@ == a.projectiles@
        &&& if spec_can_build_at(a, x, y, kind, dev_mode) {
            &&& b.towers@ == a.towers@.push(new_tower(x, y, kind))
            &&& b.money == if dev_mode {
                a.money as int
            } else {
                a.money - spec_tower_cost(kind, a.wave)
            }
            &&& b.build_kind is None
            &&& b.selected_cell == Some((x, y))
        } else {
            &&& b.towers@ == a.towers@
            &&& b.money == a.money
            &&& b.build_kind == a.build_kind
            &&& b.selected_cell == a.selected_cell
        }
    }
}

impl GameState {
    /// Presses a match button. `peer` is `Some(connected)` when this player
    /// is a peer in someone's match: without a link every button only
    /// reports it; start/pause, next wave and speed become requests to the
    /// host, and so do build, upgrade and sell of the selected cell. Else
    /// the button acts here: start/pause toggles, next wave starts the
    /// pending wave (or sends the next one early), build places the chosen
    /// kind on the selected cell, upgrade and sell act on the tower there,
    /// and speed cycles.
    pub fn press_button(&mut self, id: ButtonId, peer: Option<bool>, dev_mode: bool, rng: &mut u64) -> (r:
        ButtonOutcome)
        requires
            old(self).wf(),
            peer is None && id == ButtonId::StartWave ==> old(self).path@.len() >= 1
                && old(self).enemies@.len() <= MAX_FIELD_ENEMIES && old(self).wave < MAX_PRICED_WAVE,
            id == ButtonId::Build ==> match old(self).selected_cell {
                Some((x, y)) => match old(self).build_kind {
                    Some(kind) => spec_footprint_fits(x, y, kind),
                    None => true,
                },
                None => true,
            },
        ensures
            final(self).wf(),
            peer == Some(false) ==> r == ButtonOutcome::NotConnected && *final(self) == *old(self)
                && *final(rng) == *old(rng),
            peer != Some(false) ==> match id {
                ButtonId::Quit => r == ButtonOutcome::Quit && *final(self) == *old(self) && *final(rng)
                    == *old(rng),
                ButtonId::StartPause => if peer is Some {
                    r == ButtonOutcome::Request(NetCmd::TogglePause) && *final(self) == *old(self)
                } else {
                    &&& r == ButtonOutcome::Done
                    &&& final(self).running == !old(self).running
                    &&& final(self).speed == old(self).speed
                    &&& final(self).selected_cell == old(self).selected_cell
                    &&& final(self).build_kind == old(self).build_kind
                    &&& final(self).pending_build == old(self).pending_build
                    &&& final(self).enemies@ == old(self).enemies@
                    &&& crate::sim::same_play(old(self), final(self))
                },
                ButtonId::Speed => if peer is Some {
                    r == ButtonOutcome::Request(NetCmd::CycleSpeed) && *final(self) == *old(self)
                } else {
                    &&& r == ButtonOutcome::Done
                    &&& final(self).speed == spec_next_speed(old(self).speed)
                    &&& final(self).running == old(self).running
                    &&& final(self).selected_cell == old(self).selected_cell
                    &&& final(self).build_kind == old(self).build_kind
                    &&& final(self).pending_build == old(self).pending_build
                    &&& final(self).enemies@ == old(self).enemies@
                    &&& crate::sim::same_play(old(self), final(self))
                },
                ButtonId::StartWave => if peer is Some {
                    r == ButtonOutcome::Request(NetCmd::StartWave) && *final(self) == *old(self)
                } else {
                    r matches ButtonOutcome::WaveStarted(bonus) && start_wave_outcome(
                        old(self),
                        final(self),
                        dev_mode,
                        *old(rng),
                        *final(rng),
                        bonus,
                    )
                },
                ButtonId::Build => match (old(self).build_kind, old(self).selected_cell) {
                    (Some(kind), Some((x, y))) => build_button_outcome(
                        old(self),
                        final(self),
                        x,
                        y,
                        kind,
                        peer is Some,
                        dev_mode,
                        r,
                    ),
                    _ => r == ButtonOutcome::Nothing && *final(self) == *old(self),
                },
                ButtonId::Upgrade => match old(self).selected_cell {
                    Some((x, y)) => if tower_at(old(self).towers@, x, y) is None {
                        r == ButtonOutcome::Nothing && *final(self) == *old(self)
                    } else if peer is Some {
                        r == ButtonOutcome::Request(NetCmd::Upgrade { x, y }) && *final(self) == *old(
                            self,
                        )
                    } else {
                        r == ButtonOutcome::Done && exists|e: Result<(), CmdError>|
                            upgrade_outcome(old(self), final(self), x, y, dev_mode, e)
                    },
                    None => r == ButtonOutcome::Nothing && *final(self) == *old(self),
                },
                ButtonId::Sell => match old(self).selected_cell {
                    Some((x, y)) => if tower_at(old(self).towers@, x, y) is None {
                        r == ButtonOutcome::Nothing && *final(self) == *old(self)
                    } else if peer is Some {
                        r == ButtonOutcome::Request(NetCmd::Sell { x, y }) && *final(self) == *old(
                            self,
                        )
                    } else {
                        r == ButtonOutcome::Done && exists|e: Result<(), CmdError>|
                            sell_outcome(old(self), final(self), x, y, dev_mode, e)
                    },
                    None => r == ButtonOutcome::Nothing && *final(self) == *old(self),
                },
            },
    {
        if peer == Some(false) {
            return ButtonOutcome::NotConnected;
        }
        let is_peer = peer.is_some();
        match id {
            ButtonId::Quit => ButtonOutcome::Quit,
            ButtonId::StartPause => {
                if is_peer {
                    return ButtonOutcome::Request(NetCmd::TogglePause);
                }
                self.toggle_pause();
                ButtonOutcome::Done
            },
            ButtonId::Speed => {
                if is_peer {
                    return ButtonOutcome::Request(NetCmd::CycleSpeed);
                }
                self.cycle_speed();
                ButtonOutcome::Done
            },
            ButtonId::StartWave => {
                if is_peer {
                    return ButtonOutcome::Request(NetCmd::StartWave);
                }
                let bonus = self.start_pending_wave(dev_mode, rng);
                ButtonOutcome::WaveStarted(bonus)
            },
            ButtonId::Build => {
                let kind = match self.build_kind {
                    Some(k) => k,
                    None => {
                        return ButtonOutcome::Nothing;
                    },
                };
                let (x, y) = match self.selected_cell {
                    Some(c) => c,
                    None => {
                        return ButtonOutcome::Nothing;
                    },
                };
                self.pending_build = None;
                if is_peer {
                    return ButtonOutcome::Request(NetCmd::Build { x, y, kind });
                }
                let ghost mid = *self;
                if self.build_at(x, y, kind, dev_mode) {
                    self.build_kind = None;
                    self.selected_cell = Some((x, y));
                }
                proof {
                    assert(spec_can_build_at(&mid, x, y, kind, dev_mode) == spec_can_build_at(
                        old(self),
                        x,
                        y,
                        kind,
                        dev_mode,
                    ));
                }
                ButtonOutcome::Done
            },
            ButtonId::Upgrade => {
                let (x, y) = match self.selected_cell {
                    Some(c) => c,
                    None => {
                        return ButtonOutcome::Nothing;
                    },
                };
                if crate::commands::find_tower(&self.towers, x, y).is_none() {
                    return ButtonOutcome::Nothing;
                }
                if is_peer {
                    return ButtonOutcome::Request(NetCmd::Upgrade { x, y });
                }
                let _ = self.upgrade_at(x, y, dev_mode);
                ButtonOutcome::Done
            },
            ButtonId::Sell => {
                let (x, y) = match self.selected_cell {
                    Some(c) => c,
                    None => {
                        return ButtonOutcome::Nothing;
                    },
                };
                if crate::commands::find_tower(&self.towers, x, y).is_none() {
                    return ButtonOutcome::Nothing;
                }
                if is_peer {
                    return ButtonOutcome::Request(NetCmd::Sell { x, y });
                }
                let _ = self.sell_at(x, y, dev_mode);
                ButtonOutcome::Done
            },
        }
    }

    /// A click on map cell `cell`. With a tower kind chosen the cell is
    /// selected and, where the tower fits and is paid for, the first click
    /// shows the build preview and a second click on the same cell asks to
    /// build (the result is `true`); where it does not fit the preview goes.
    /// Without a kind the preview goes and the cell is selected, or
    /// deselected when it was selected and holds a tower.
    pub fn click_map_cell(&mut self, cell: (u16, u16), dev_mode: bool) -> (build: bool)
        requires
            old(self).wf(),
            old(self).build_kind matches Some(kind) ==> spec_footprint_fits(cell.0, cell.1, kind),
        ensures
            final(self).wf(),
            final(self).build_kind == old(self).build_kind,
            same_but_selection(old(self), final(self)),
            match old(self).build_kind {
                Some(kind) => {
                    &&& final(self).selected_cell == Some(cell)
                    &&& if spec_can_build_at(old(self), cell.0, cell.1, kind, dev_mode) {
                        &&& build == (old(self).pending_build == Some(cell))
                        &&& final(self).pending_build == Some(cell)
                    } else {
                        !build && final(self).pending_build is None
                    }
                },
                None => {
                    &&& !build
                    &&& final(self).pending_build is None
                    &&& final(self).selected_cell == if old(self).selected_cell == Some(cell)
                        && tower_at(old(self).towers@, cell.0, cell.1) is Some {
                        None
                    } else {
                        Some(cell)
                    }
                },
            },
    {
        match self.build_kind {
            Some(kind) => {
                self.selected_cell = Some(cell);
                let ghost mid = *self;
                let fits = self.can_build_at(cell.0, cell.1, kind, dev_mode);
                proof {
                    assert(spec_can_build_at(&mid, cell.0, cell.1, kind, dev_mode) == spec_can_build_at(
                        old(self),
                        cell.0,
                        cell.1,
                        kind,
                        dev_mode,
                    ));
                }
                if fits {
                    if self.pending_build == Some(cell) {
                        return true;
                    }
                    self.pending_build = Some(cell);
                } else {
                    self.pending_build = None;
                }
                false
            },
            None => {
                self.pending_build = None;
                let has_tower = crate::commands::find_tower(&self.towers, cell.0, cell.1).is_some();
                if self.selected_cell == Some(cell) && has_tower {
                    self.selected_cell = None;
                } else {
                    self.selected_cell = Some(cell);
                }
                false
            },
        }
    }
}

impl LoadMenuState {
    /// A click on the listed slot `index`: the slot column takes the focus
    /// and the slot is selected with its last wave; a second click on the
    /// selected slot loads it (the result is `true`).
    pub fn click_slot(&mut self, index: usize) -> (load: bool)
        ensures
            load == (old(self).focus == LoadMenuFocus::Slots && old(self).selected_slot == index),
            final(self).focus == LoadMenuFocus::Slots,
            final(self).selected_slot == index,
            final(self).selected_wave == spec_last_wave(final(self)),
            final(self).slots@ == old(self).slots@,
    {
        let load = self.focus == LoadMenuFocus::Slots && self.selected_slot == index;
        self.focus = LoadMenuFocus::Slots;
        self.selected_slot = index;
        self.selected_wave = self.selected_slot_last_wave_index();
        load
    }

    /// A click on the listed wave `index`: the wave column takes the focus
    /// and the wave is selected; a second click on it loads it.
    pub fn click_wave(&mut self, index: usize) -> (load: bool)
        ensures
            load == (old(self).focus == LoadMenuFocus::Waves && old(self).selected_wave == index),
            final(self).focus == LoadMenuFocus::Waves,
            final(self).selected_wave == index,
            final(self).selected_slot == old(self).selected_slot,
            final(self).slots@ == old(self).slots@,
    {
        let load = self.focus == LoadMenuFocus::Waves && self.selected_wave == index;
        self.focus = LoadMenuFocus::Waves;
        self.selected_wave = index;
        load
    }
}


impl GameState {
    /// The tower on the selected cell, if any.
    pub fn selected_tower_index(&self) -> (r: Option<usize>)
        requires
            self.wf(),
        ensures
            match self.selected_cell {
                Some((x, y)) => match r {
                    Some(i) => tower_at(self.towers@, x, y) == Some(i as int),
                    None => tower_at(self.towers@, x, y) is None,
                },
                None => r is None,
            },
    {
        match self.selected_cell {
            Some((x, y)) => crate::commands::find_tower(&self.towers, x, y),
            None => None,
        }
    }

    /// The stats a tower of the chosen kind would start with.
    pub fn build_preview_stats(&self) -> (r: Option<crate::rules::Stats>)
        ensures
            match self.build_kind {
                Some(k) => r == Some(crate::rules::spec_tower_stats(k, 1)),
                None => r is None,
            },
    {
        match self.build_kind {
            Some(k) => Some(crate::rules::tower_stats_for(k, 1)),
            None => None,
        }
    }

    /// The kind of the first live enemy on cell `(x, y)`.
    pub fn enemy_kind_at(&self, x: u16, y: u16) -> (r: Option<crate::kinds::EnemyKind>)
        requires
            self.wf(),
        ensures
            match r {
                Some(k) => exists|i: int|
                    0 <= i < self.enemies@.len() && crate::game::enemy_on(
                        #[trigger] self.enemies@[i],
                        self.path@,
                        x,
                        y,
                    ) && self.enemies@[i].kind == k && forall|j: int|
                        0 <= j < i ==> !crate::game::enemy_on(#[trigger] self.enemies@[j], self.path@, x, y),
                None => forall|j: int|
                    0 <= j < self.enemies@.len() ==> !crate::game::enemy_on(
                        #[trigger] self.enemies@[j],
                        self.path@,
                        x,
                        y,
                    ),
            },
    {
        match crate::game::enemy_index_at(&self.enemies, &self.path, x, y) {
            Some(i) => Some(self.enemies[i].kind),
            None => None,
        }
    }

    /// The range to outline on the map: the selected tower's, else, on a
    /// free selected cell, that of the tower being placed.
    pub fn range_focus(&self) -> (r: Option<(u16, u16, u16, crate::view::RangeShape)>)
        requires
            self.wf(),
        ensures
            match self.selected_cell {
                None => r is None,
                Some((x, y)) => match tower_at(self.towers@, x, y) {
                    Some(i) => {
                        let t = self.towers@[i];
                        &&& r matches Some((tx, ty, range, shape))
                        &&& tx == t.x && ty == t.y
                        &&& range == crate::rules::spec_tower_stats(t.kind, t.level).range
                        &&& shape == (if t.kind == TowerKind::Sniper || t.kind == TowerKind::Frost {
                            crate::view::RangeShape::Hex
                        } else {
                            crate::view::RangeShape::Diamond
                        })
                    },
                    None => if crate::game::spec_is_path(self.path@, x, y) || self.build_kind is None {
                        r is None
                    } else {
                        let k = self.build_kind->0;
                        &&& r matches Some((tx, ty, range, shape))
                        &&& tx == x && ty == y
                        &&& range == crate::rules::spec_tower_stats(k, 1).range
                        &&& shape == (if k == TowerKind::Sniper || k == TowerKind::Frost {
                            crate::view::RangeShape::Hex
                        } else {
                            crate::view::RangeShape::Diamond
                        })
                    },
                },
            },
    {
        let (x, y) = match self.selected_cell {
            Some(c) => c,
            None => {
                return None;
            },
        };
        match crate::commands::find_tower(&self.towers, x, y) {
            Some(i) => {
                let t = self.towers[i];
                let stats = crate::game::tower_stats(&t);
                return Some((t.x, t.y, stats.range, crate::view::range_shape(t.kind)));
            },
            None => {},
        }
        if crate::game::is_path(&self.path, x, y) {
            return None;
        }
        match self.build_kind {
            Some(k) => {
                let stats = crate::rules::tower_stats_for(k, 1);
                Some((x, y, stats.range, crate::view::range_shape(k)))
            },
            None => None,
        }
    }
}

} // verus!
