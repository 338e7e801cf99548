use pasta_td::controls::{key_action, ButtonOutcome, Key, KeyAction};
use pasta_td::kinds::TowerKind;
use pasta_td::maps::{map_at, new_game};
use pasta_td::menus::{ButtonId, LoadMenuFocus, LoadMenuState, MultiplayerAction, MultiplayerFocus, Screen};
use pasta_td::net_msg::NetCmd;
use pasta_td::pointer::{
    available_towers, contains, dragged_view, first_hit, hit_test_build, hit_test_button,
    hit_test_main_menu, hit_test_map_select, hit_test_multiplayer, map_cell_at, MainMenuHitboxes,
    MultiplayerHitboxes, UiHitboxes,
};
use pasta_td::menus::MapSelectAction;
use pasta_td::save::SaveSlotSummary;
use pasta_td::view::{MapViewport, Rect};

fn r(x: u16, y: u16, w: u16, h: u16) -> Rect {
    Rect { x, y, width: w, height: h }
}

#[test]
fn rect_contains_edges() {
    let a = r(2, 3, 4, 2);
    assert!(contains(a, 2, 3));
    assert!(contains(a, 5, 4));
    assert!(!contains(a, 6, 4));
    assert!(!contains(a, 5, 5));
    assert!(!contains(a, 1, 3));
    assert!(!contains(r(0, 0, 0, 0), 0, 0));
    assert!(contains(r(65534, 65534, 1, 1), 65534, 65534));
}

#[test]
fn first_hit_takes_the_first() {
    let rects = [r(0, 0, 10, 10), r(5, 5, 10, 10)];
    assert_eq!(first_hit(&rects, 6, 6), Some(0));
    assert_eq!(first_hit(&rects, 12, 12), Some(1));
    assert_eq!(first_hit(&rects, 30, 30), None);
}

#[test]
fn match_buttons_and_build_options() {
    let mut hit = UiHitboxes::empty();
    hit.buttons[4] = r(10, 1, 6, 1);
    hit.build_options[3] = r(0, 20, 8, 1);
    assert_eq!(hit_test_button(&hit, 12, 1), Some(ButtonId::Sell));
    assert_eq!(hit_test_button(&hit, 12, 2), None);
    assert_eq!(hit_test_build(&hit, 3, 20), Some(TowerKind::Cannon));
    assert_eq!(available_towers()[5], TowerKind::Frost);
}

#[test]
fn map_list_controls_only_on_that_screen() {
    let mut hit = UiHitboxes::empty();
    hit.map_select_left = r(0, 0, 3, 1);
    hit.map_select_start = r(10, 0, 5, 1);
    assert_eq!(hit_test_map_select(Screen::MapSelect, &hit, 1, 0), Some(MapSelectAction::Prev));
    assert_eq!(hit_test_map_select(Screen::MapSelect, &hit, 11, 0), Some(MapSelectAction::Start));
    assert_eq!(hit_test_map_select(Screen::Game, &hit, 1, 0), None);
}

#[test]
fn lobby_kick_buttons_name_their_player() {
    let mut h = MultiplayerHitboxes::empty();
    h.connect_btn = r(0, 0, 5, 1);
    h.kick_buttons = vec![r(0, 5, 3, 1), r(0, 6, 3, 1)];
    h.kick_targets = vec![4];
    assert_eq!(hit_test_multiplayer(Screen::Multiplayer, &h, 2, 0), Some(MultiplayerAction::Connect));
    assert_eq!(hit_test_multiplayer(Screen::Multiplayer, &h, 1, 5), Some(MultiplayerAction::KickPlayer(4)));
    assert_eq!(hit_test_multiplayer(Screen::Multiplayer, &h, 1, 6), Some(MultiplayerAction::KickPlayer(1)));
    assert_eq!(hit_test_multiplayer(Screen::MainMenu, &h, 2, 0), None);
    let mut m = MainMenuHitboxes::empty();
    m.options[2] = r(4, 4, 10, 1);
    assert_eq!(hit_test_main_menu(Screen::MainMenu, &m, 5, 4), Some(2));
    assert_eq!(hit_test_main_menu(Screen::Game, &m, 5, 4), None);
}

#[test]
fn cell_under_pointer() {
    let inner = r(10, 5, 40, 20);
    let vp = MapViewport { tile_w: 2, tile_h: 1, view_x: 3, view_y: 1, vis_w: 20, vis_h: 20 };
    assert_eq!(map_cell_at(true, inner, vp, 60, 30, 10, 5), Some((3, 1)));
    assert_eq!(map_cell_at(true, inner, vp, 60, 30, 15, 7), Some((5, 3)));
    assert_eq!(map_cell_at(false, inner, vp, 60, 30, 15, 7), None);
    assert_eq!(map_cell_at(true, inner, vp, 60, 30, 9, 7), None);
    assert_eq!(map_cell_at(true, inner, vp, 4, 30, 15, 7), None);
}

#[test]
fn dragging_pans_by_whole_cells() {
    let vp = MapViewport { tile_w: 2, tile_h: 1, view_x: 5, view_y: 5, vis_w: 20, vis_h: 10 };
    // pointer moved 5 columns left and 3 rows up: view moves 2 cells right, 3 down
    assert_eq!(dragged_view(vp, (20, 10), (5, 5), (15, 7), 60, 30), (7, 8));
    // truncation towards zero when moving right
    assert_eq!(dragged_view(vp, (10, 10), (5, 5), (13, 10), 60, 30), (4, 5));
    // held on the grid
    assert_eq!(dragged_view(vp, (0, 0), (5, 5), (40, 40), 60, 30), (0, 0));
    assert_eq!(dragged_view(vp, (100, 100), (5, 5), (0, 0), 60, 30), (40, 20));
}

#[test]
fn key_bindings() {
    let f = MultiplayerFocus::Role;
    let lf = LoadMenuFocus::Slots;
    assert_eq!(key_action(Screen::MainMenu, f, lf, Key::Char('q')), KeyAction::Quit);
    assert_eq!(key_action(Screen::MainMenu, f, lf, Key::Down), KeyAction::MainMenuNext);
    assert_eq!(key_action(Screen::Multiplayer, MultiplayerFocus::Name, lf, Key::Char('x')), KeyAction::InputChar('x'));
    assert_eq!(key_action(Screen::Multiplayer, f, lf, Key::Char('x')), KeyAction::Ignore);
    assert_eq!(key_action(Screen::LoadGame, f, lf, Key::Tab), KeyAction::LoadFocusWaves);
    assert_eq!(key_action(Screen::LoadGame, f, LoadMenuFocus::Waves, Key::Tab), KeyAction::LoadFocusSlots);
    assert_eq!(key_action(Screen::Game, f, lf, Key::Char('4')), KeyAction::ToggleBuildKind(TowerKind::Cannon));
    assert_eq!(key_action(Screen::Game, f, lf, Key::Char(' ')), KeyAction::Button(ButtonId::StartPause));
    assert_eq!(key_action(Screen::Game, f, lf, Key::Char('-')), KeyAction::Zoom(-1));
    assert_eq!(key_action(Screen::Game, f, lf, Key::F12), KeyAction::ToggleDevMode);
    assert_eq!(key_action(Screen::MapSelect, f, lf, Key::Char('d')), KeyAction::SelectNextMap);
}

#[test]
fn peer_buttons_become_requests() {
    let mut g = new_game(&map_at(0));
    let mut rng = 1u64;
    assert_eq!(g.press_button(ButtonId::StartPause, Some(false), false, &mut rng), ButtonOutcome::NotConnected);
    assert_eq!(
        g.press_button(ButtonId::StartPause, Some(true), false, &mut rng),
        ButtonOutcome::Request(NetCmd::TogglePause)
    );
    assert!(!g.running);
    g.build_kind = Some(TowerKind::Basic);
    g.selected_cell = Some((10, 10));
    g.pending_build = Some((10, 10));
    assert_eq!(
        g.press_button(ButtonId::Build, Some(true), false, &mut rng),
        ButtonOutcome::Request(NetCmd::Build { x: 10, y: 10, kind: TowerKind::Basic })
    );
    assert_eq!(g.pending_build, None);
    assert_eq!(g.press_button(ButtonId::Quit, Some(true), false, &mut rng), ButtonOutcome::Quit);
}

#[test]
fn local_buttons_act_here() {
    let mut g = new_game(&map_at(0));
    let mut rng = 1u64;
    let towers = g.towers.len();
    assert_eq!(g.press_button(ButtonId::StartPause, None, false, &mut rng), ButtonOutcome::Done);
    assert!(g.running);
    assert_eq!(g.press_button(ButtonId::Speed, None, false, &mut rng), ButtonOutcome::Done);
    assert_eq!(g.speed, 2);
    g.build_kind = Some(TowerKind::Basic);
    g.selected_cell = Some((10, 10));
    assert_eq!(g.press_button(ButtonId::Build, None, false, &mut rng), ButtonOutcome::Done);
    assert_eq!(g.towers.len(), towers + 1);
    assert_eq!(g.build_kind, None);
    assert_eq!(g.press_button(ButtonId::Sell, None, false, &mut rng), ButtonOutcome::Done);
    assert_eq!(g.towers.len(), towers);
    assert_eq!(g.press_button(ButtonId::Sell, None, false, &mut rng), ButtonOutcome::Nothing);
}

#[test]
fn clicking_cells_previews_then_builds() {
    let mut g = new_game(&map_at(0));
    g.build_kind = Some(TowerKind::Basic);
    assert!(!g.click_map_cell((10, 10), false));
    assert_eq!(g.pending_build, Some((10, 10)));
    assert_eq!(g.selected_cell, Some((10, 10)));
    assert!(g.click_map_cell((10, 10), false));
    let path_cell = g.path[0];
    assert!(!g.click_map_cell(path_cell, false));
    assert_eq!(g.pending_build, None);
    g.build_kind = None;
    let t = g.towers[0];
    g.selected_cell = Some((t.x, t.y));
    assert!(!g.click_map_cell((t.x, t.y), false));
    assert_eq!(g.selected_cell, None);
    assert!(!g.click_map_cell((t.x, t.y), false));
    assert_eq!(g.selected_cell, Some((t.x, t.y)));
}

#[test]
fn load_menu_clicks_select_then_load() {
    let slot = |w: Vec<i32>| SaveSlotSummary {
        id: "a".to_string(),
        map_name: "m".to_string(),
        created_at: 0,
        dev_mode: false,
        waves: w,
    };
    let mut m = LoadMenuState {
        slots: vec![slot(vec![1, 2]), slot(vec![1, 2, 3])],
        selected_slot: 0,
        selected_wave: 0,
        focus: LoadMenuFocus::Waves,
        error: None,
    };
    assert!(!m.click_slot(1));
    assert_eq!(m.selected_wave, 2);
    assert!(m.click_slot(1));
    assert!(!m.click_wave(0));
    assert_eq!(m.focus, LoadMenuFocus::Waves);
    assert!(m.click_wave(0));
}

#[test]
fn range_focus_prefers_the_selected_tower() {
    let mut g = new_game(&map_at(0));
    let t = g.towers[0];
    g.selected_cell = Some((t.x, t.y));
    assert_eq!(g.selected_tower_index(), Some(0));
    let f = g.range_focus().unwrap();
    assert_eq!((f.0, f.1), (t.x, t.y));
    g.selected_cell = Some((10, 10));
    assert_eq!(g.selected_tower_index(), None);
    assert!(g.range_focus().is_none());
    g.build_kind = Some(TowerKind::Sniper);
    let f = g.range_focus().unwrap();
    assert_eq!((f.0, f.1), (10, 10));
    assert_eq!(f.2, g.build_preview_stats().unwrap().range);
    let p = g.path[0];
    g.selected_cell = Some(p);
    assert!(g.range_focus().is_none());
    assert_eq!(g.enemy_kind_at(p.0, p.1), None);
}
