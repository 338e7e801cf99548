//! What the pointer is over: the clickable areas each screen records while
//! it is drawn, the map cell under the pointer, and how dragging pans the
//! map.
use vstd::prelude::*;

use crate::kinds::TowerKind;
use crate::menus::{ButtonId, HoverAction, MapSelectAction, MultiplayerAction, Screen};
use crate::view::{MapViewport, Rect};

verus! {

/// The cell `(x, y)` lies inside `r`.
pub open spec fn rect_contains(r: Rect, x: u16, y: u16) -> bool {
    x >= r.x && y >= r.y && x < r.x + r.width && y < r.y + r.height
}

/// Whether `(x, y)` lies inside `r`.
pub fn contains(r: Rect, x: u16, y: u16) -> (b: bool)
    ensures
        b == rect_contains(r, x, y),
{
    x >= r.x && y >= r.y && (x as u32) < r.x as u32 + r.width as u32 && (y as u32) < r.y as u32
        + r.height as u32
}

/// The first of `rects` that holds `(x, y)`.
pub open spec fn first_hit_at(rects: Seq<Rect>, x: u16, y: u16, i: int) -> bool {
    &&& 0 <= i < rects.len()
    &&& rect_contains(rects[i], x, y)
    &&& forall|j: int| 0 <= j < i ==> !rect_contains(#[trigger] rects[j], x, y)
}

/// No rectangle of `rects` holds `(x, y)`.
pub open spec fn no_hit(rects: Seq<Rect>, x: u16, y: u16) -> bool {
    forall|j: int| 0 <= j < rects.len() ==> !rect_contains(#[trigger] rects[j], x, y)
}

/// The index of the first of `rects` that holds `(x, y)`.
pub fn first_hit(rects: &[Rect], x: u16, y: u16) -> (r: Option<usize>)
    ensures
        match r {
            Some(i) => first_hit_at(rects@, x, y, i as int),
            None => no_hit(rects@, x, y),
        },
{
    let mut i: usize = 0;
    while i < rects.len()
        invariant
            i <= rects@.len(),
            forall|j: int| 0 <= j < i ==> !rect_contains(#[trigger] rects@[j], x, y),
        decreases rects@.len() - i,
    {
        if contains(rects[i], x, y) {
            return Some(i);
        }
        i = i + 1;
    }
    None
}

/// The clickable areas of the match screen and of the map list.
#[derive(Debug, Clone, Copy)]
pub struct UiHitboxes {
    /// The map's inside, where cells are drawn.
    pub map_inner: Rect,
    /// Start/pause, next wave, build, upgrade, sell, speed, quit.
    pub buttons: [Rect; 7],
    /// The upgrade line of the inspector.
    pub inspector_upgrade: Rect,
    /// One per tower kind, in the order of `available_towers`.
    pub build_options: [Rect; 6],
    pub map_select_left: Rect,
    pub map_select_right: Rect,
    pub map_select_start: Rect,
}

/// The options of the main menu.
#[derive(Debug, Clone, Copy)]
pub struct MainMenuHitboxes {
    pub options: [Rect; 3],
}

/// The slots and waves listed by the load menu.
#[derive(Debug, Clone)]
pub struct LoadMenuHitboxes {
    pub slot_items: Vec<Rect>,
    pub wave_items: Vec<Rect>,
}

/// The controls of the lobby, with a kick button per listed player and
/// the player each one removes.
#[derive(Debug, Clone)]
pub struct MultiplayerHitboxes {
    pub create_btn: Rect,
    pub join_btn: Rect,
    pub ip_mode_btn: Rect,
    pub copy_ip_btn: Rect,
    pub refresh_ip_btn: Rect,
    pub connect_btn: Rect,
    pub continue_btn: Rect,
    pub peer_ip_field: Rect,
    pub name_field: Rect,
    pub kick_buttons: Vec<Rect>,
    pub kick_targets: Vec<usize>,
}

/// The empty rectangle at the origin.
pub open spec fn no_rect() -> Rect {
    Rect { x: 0, y: 0, width: 0, height: 0 }
}

impl UiHitboxes {
    /// Nothing drawn yet: every area is empty.
    pub fn empty() -> (h: UiHitboxes)
        ensures
            h.map_inner == no_rect(),
            h.inspector_upgrade == no_rect(),
            h.map_select_left == no_rect(),
            h.map_select_right == no_rect(),
            h.map_select_start == no_rect(),
            forall|i: int| 0 <= i < 7 ==> h.buttons@[i] == no_rect(),
            forall|i: int| 0 <= i < 6 ==> h.build_options@[i] == no_rect(),
    {
        let z = Rect { x: 0, y: 0, width: 0, height: 0 };
        UiHitboxes {
            map_inner: z,
            buttons: [z, z, z, z, z, z, z],
            inspector_upgrade: z,
            build_options: [z, z, z, z, z, z],
            map_select_left: z,
            map_select_right: z,
            map_select_start: z,
        }
    }
}

impl MainMenuHitboxes {
    /// Nothing drawn yet: every option is empty.
    pub fn empty() -> (h: MainMenuHitboxes)
        ensures
            forall|i: int| 0 <= i < 3 ==> h.options@[i] == no_rect(),
    {
        let z = Rect { x: 0, y: 0, width: 0, height: 0 };
        MainMenuHitboxes { options: [z, z, z] }
    }
}

impl LoadMenuHitboxes {
    /// Nothing listed yet.
    pub fn empty() -> (h: LoadMenuHitboxes)
        ensures
            h.slot_items@.len() == 0,
            h.wave_items@.len() == 0,
    {
        LoadMenuHitboxes { slot_items: Vec::new(), wave_items: Vec::new() }
    }
}

impl MultiplayerHitboxes {
    /// Nothing drawn yet: every control is empty and no player is listed.
    pub fn empty() -> (h: MultiplayerHitboxes)
        ensures
            h.create_btn == no_rect(),
            h.join_btn == no_rect(),
            h.ip_mode_btn == no_rect(),
            h.copy_ip_btn == no_rect(),
            h.refresh_ip_btn == no_rect(),
            h.connect_btn == no_rect(),
            h.continue_btn == no_rect(),
            h.peer_ip_field == no_rect(),
            h.name_field == no_rect(),
            h.kick_buttons@.len() == 0,
            h.kick_targets@.len() == 0,
    {
        let z = Rect { x: 0, y: 0, width: 0, height: 0 };
        MultiplayerHitboxes {
            create_btn: z,
            join_btn: z,
            ip_mode_btn: z,
            copy_ip_btn: z,
            refresh_ip_btn: z,
            connect_btn: z,
            continue_btn: z,
            peer_ip_field: z,
            name_field: z,
            kick_buttons: Vec::new(),
            kick_targets: Vec::new(),
        }
    }
}

/// The match buttons in the order their areas are kept.
pub open spec fn button_order(i: int) -> ButtonId {
    if i == 0 {
        ButtonId::StartPause
    } else if i == 1 {
        ButtonId::StartWave
    } else if i == 2 {
        ButtonId::Build
    } else if i == 3 {
        ButtonId::Upgrade
    } else if i == 4 {
        ButtonId::Sell
    } else if i == 5 {
        ButtonId::Speed
    } else {
        ButtonId::Quit
    }
}

fn button_at(i: usize) -> (b: ButtonId)
    ensures
        b == button_order(i as int),
{
    if i == 0 {
        ButtonId::StartPause
    } else if i == 1 {
        ButtonId::StartWave
    } else if i == 2 {
        ButtonId::Build
    } else if i == 3 {
        ButtonId::Upgrade
    } else if i == 4 {
        ButtonId::Sell
    } else if i == 5 {
        ButtonId::Speed
    } else {
        ButtonId::Quit
    }
}

/// The tower kinds in the order the build panel lists them.
pub open spec fn tower_order(i: int) -> TowerKind {
    if i == 0 {
        TowerKind::Basic
    } else if i == 1 {
        TowerKind::Sniper
    } else if i == 2 {
        TowerKind::Rapid
    } else if i == 3 {
        TowerKind::Cannon
    } else if i == 4 {
        TowerKind::Tesla
    } else {
        TowerKind::Frost
    }
}

/// The tower kinds a player can build, in the order the build panel lists
/// them.
pub fn available_towers() -> (ks: [TowerKind; 6])
    ensures
        forall|i: int| 0 <= i < 6 ==> ks@[i] == tower_order(i),
{
    [
        TowerKind::Basic,
        TowerKind::Sniper,
        TowerKind::Rapid,
        TowerKind::Cannon,
        TowerKind::Tesla,
        TowerKind::Frost,
    ]
}

/// The match button under `(x, y)`: the first whose area holds it.
pub fn hit_test_button(hit: &UiHitboxes, x: u16, y: u16) -> (r: Option<ButtonId>)
    ensures
        match r {
            Some(b) => exists|i: int| first_hit_at(hit.buttons@, x, y, i) && b == button_order(i),
            None => no_hit(hit.buttons@, x, y),
        },
{
    match first_hit(&hit.buttons, x, y) {
        Some(i) => {
            assert(first_hit_at(hit.buttons@, x, y, i as int));
            Some(button_at(i))
        },
        None => None,
    }
}

/// The preview under `(x, y)`: the inspector's upgrade line.
pub fn hit_test_action(hit: &UiHitboxes, x: u16, y: u16) -> (r: Option<HoverAction>)
    ensures
        r == if rect_contains(hit.inspector_upgrade, x, y) {
            Some(HoverAction::UpgradePreview)
        } else {
            None
        },
{
    if contains(hit.inspector_upgrade, x, y) {
        Some(HoverAction::UpgradePreview)
    } else {
        None
    }
}

/// The tower kind of the build option under `(x, y)`.
pub fn hit_test_build(hit: &UiHitboxes, x: u16, y: u16) -> (r: Option<TowerKind>)
    ensures
        match r {
            Some(k) => exists|i: int| first_hit_at(hit.build_options@, x, y, i) && k == tower_order(i),
            None => no_hit(hit.build_options@, x, y),
        },
{
    let kinds = available_towers();
    match first_hit(&hit.build_options, x, y) {
        Some(i) => {
            assert(first_hit_at(hit.build_options@, x, y, i as int));
            assert(kinds@[i as int] == tower_order(i as int));
            Some(kinds[i])
        },
        None => None,
    }
}

/// The map list's control under `(x, y)`, on that screen only: previous,
/// next, then start.
pub fn hit_test_map_select(screen: Screen, hit: &UiHitboxes, x: u16, y: u16) -> (r: Option<
    MapSelectAction,
>)
    ensures
        r == if screen != Screen::MapSelect {
            None
        } else if rect_contains(hit.map_select_left, x, y) {
            Some(MapSelectAction::Prev)
        } else if rect_contains(hit.map_select_right, x, y) {
            Some(MapSelectAction::Next)
        } else if rect_contains(hit.map_select_start, x, y) {
            Some(MapSelectAction::Start)
        } else {
            None
        },
{
    if screen != Screen::MapSelect {
        None
    } else if contains(hit.map_select_left, x, y) {
        Some(MapSelectAction::Prev)
    } else if contains(hit.map_select_right, x, y) {
        Some(MapSelectAction::Next)
    } else if contains(hit.map_select_start, x, y) {
        Some(MapSelectAction::Start)
    } else {
        None
    }
}

/// The lobby control under `(x, y)`, on that screen only, looked for in
/// the order of the fields of `MultiplayerHitboxes`. A kick button removes
/// the player recorded for it, else player 1.
pub open spec fn spec_hit_multiplayer(screen: Screen, h: MultiplayerHitboxes, x: u16, y: u16) -> Option<
    MultiplayerAction,
> {
    if screen != Screen::Multiplayer {
        None
    } else if rect_contains(h.create_btn, x, y) {
        Some(MultiplayerAction::CreateLobby)
    } else if rect_contains(h.join_btn, x, y) {
        Some(MultiplayerAction::JoinLobby)
    } else if rect_contains(h.ip_mode_btn, x, y) {
        Some(MultiplayerAction::ToggleIpMode)
    } else if rect_contains(h.copy_ip_btn, x, y) {
        Some(MultiplayerAction::CopyStunIp)
    } else if rect_contains(h.refresh_ip_btn, x, y) {
        Some(MultiplayerAction::RefreshStun)
    } else if rect_contains(h.connect_btn, x, y) {
        Some(MultiplayerAction::Connect)
    } else if rect_contains(h.continue_btn, x, y) {
        Some(MultiplayerAction::Continue)
    } else if rect_contains(h.peer_ip_field, x, y) {
        Some(MultiplayerAction::FocusPeerIp)
    } else if rect_contains(h.name_field, x, y) {
        Some(MultiplayerAction::FocusName)
    } else if exists|i: int| first_hit_at(h.kick_buttons@, x, y, i) {
        let i = choose|i: int| first_hit_at(h.kick_buttons@, x, y, i);
        Some(
            MultiplayerAction::KickPlayer(
                if i < h.kick_targets@.len() {
                    h.kick_targets@[i]
                } else {
                    1
                },
            ),
        )
    } else {
        None
    }
}

proof fn lemma_first_hit_unique(rects: Seq<Rect>, x: u16, y: u16, i: int, k: int)
    requires
        first_hit_at(rects, x, y, i),
        first_hit_at(rects, x, y, k),
    ensures
        i == k,
{
    if i < k {
        assert(!rect_contains(rects[i], x, y));
    } else if k < i {
        assert(!rect_contains(rects[k], x, y));
    }
}

/// The lobby control under `(x, y)` (see `spec_hit_multiplayer`).
pub fn hit_test_multiplayer(screen: Screen, h: &MultiplayerHitboxes, x: u16, y: u16) -> (r: Option<
    MultiplayerAction,
>)
    ensures
        r == spec_hit_multiplayer(screen, *h, x, y),
{
    if screen != Screen::Multiplayer {
        return None;
    }
    if contains(h.create_btn, x, y) {
        return Some(MultiplayerAction::CreateLobby);
    }
    if contains(h.join_btn, x, y) {
        return Some(MultiplayerAction::JoinLobby);
    }
    if contains(h.ip_mode_btn, x, y) {
        return Some(MultiplayerAction::ToggleIpMode);
    }
    if contains(h.copy_ip_btn, x, y) {
        return Some(MultiplayerAction::CopyStunIp);
    }
    if contains(h.refresh_ip_btn, x, y) {
        return Some(MultiplayerAction::RefreshStun);
    }
    if contains(h.connect_btn, x, y) {
        return Some(MultiplayerAction::Connect);
    }
    if contains(h.continue_btn, x, y) {
        return Some(MultiplayerAction::Continue);
    }
    if contains(h.peer_ip_field, x, y) {
        return Some(MultiplayerAction::FocusPeerIp);
    }
    if contains(h.name_field, x, y) {
        return Some(MultiplayerAction::FocusName);
    }
    match first_hit(h.kick_buttons.as_slice(), x, y) {
        Some(i) => {
            proof {
                let k = choose|k: int| first_hit_at(h.kick_buttons@, x, y, k);
                lemma_first_hit_unique(h.kick_buttons@, x, y, i as int, k);
            }
            let target = if i < h.kick_targets.len() {
                h.kick_targets[i]
            } else {
                1
            };
            Some(MultiplayerAction::KickPlayer(target))
        },
        None => None,
    }
}

/// The main menu option under `(x, y)`, on that screen only.
pub fn hit_test_main_menu(screen: Screen, h: &MainMenuHitboxes, x: u16, y: u16) -> (r: Option<usize>)
    ensures
        screen != Screen::MainMenu ==> r is None,
        screen == Screen::MainMenu ==> match r {
            Some(i) => first_hit_at(h.options@, x, y, i as int),
            None => no_hit(h.options@, x, y),
        },
{
    if screen != Screen::MainMenu {
        return None;
    }
    first_hit(&h.options, x, y)
}

/// The saved game listed under `(x, y)`, on the load screen only.
pub fn hit_test_load_slot(screen: Screen, h: &LoadMenuHitboxes, x: u16, y: u16) -> (r: Option<usize>)
    ensures
        screen != Screen::LoadGame ==> r is None,
        screen == Screen::LoadGame ==> match r {
            Some(i) => first_hit_at(h.slot_items@, x, y, i as int),
            None => no_hit(h.slot_items@, x, y),
        },
{
    if screen != Screen::LoadGame {
        return None;
    }
    first_hit(h.slot_items.as_slice(), x, y)
}

/// The wave listed under `(x, y)`, on the load screen only.
pub fn hit_test_load_wave(screen: Screen, h: &LoadMenuHitboxes, x: u16, y: u16) -> (r: Option<usize>)
    ensures
        screen != Screen::LoadGame ==> r is None,
        screen == Screen::LoadGame ==> match r {
            Some(i) => first_hit_at(h.wave_items@, x, y, i as int),
            None => no_hit(h.wave_items@, x, y),
        },
{
    if screen != Screen::LoadGame {
        return None;
    }
    first_hit(h.wave_items.as_slice(), x, y)
}

/// The map cell under `(x, y)`: inside the drawn map, in the visible
/// window, and on the grid; the cell counts `tile_w` columns and `tile_h`
/// rows from the first visible cell.
pub open spec fn spec_map_cell_at(
    in_game: bool,
    inner: Rect,
    vp: MapViewport,
    grid_w: u16,
    grid_h: u16,
    x: u16,
    y: u16,
) -> Option<(u16, u16)> {
    if !in_game || inner.width == 0 || inner.height == 0 || !rect_contains(inner, x, y) || vp.vis_w
        == 0 || vp.vis_h == 0 {
        None
    } else {
        let cx = vp.view_x + (x - inner.x) / (vp.tile_w as int);
        let cy = vp.view_y + (y - inner.y) / (vp.tile_h as int);
        if cx < grid_w && cy < grid_h {
            Some((cx as u16, cy as u16))
        } else {
            None
        }
    }
}

/// The map cell under `(x, y)` (see `spec_map_cell_at`).
pub fn map_cell_at(
    in_game: bool,
    inner: Rect,
    vp: MapViewport,
    grid_w: u16,
    grid_h: u16,
    x: u16,
    y: u16,
) -> (r: Option<(u16, u16)>)
    requires
        vp.tile_w > 0,
        vp.tile_h > 0,
    ensures
        r == spec_map_cell_at(in_game, inner, vp, grid_w, grid_h, x, y),
{
    if !in_game || inner.width == 0 || inner.height == 0 || !contains(inner, x, y) || vp.vis_w == 0
        || vp.vis_h == 0 {
        return None;
    }
    let local_x = x - inner.x;
    let local_y = y - inner.y;
    let cx: u32 = vp.view_x as u32 + (local_x / vp.tile_w) as u32;
    let cy: u32 = vp.view_y as u32 + (local_y / vp.tile_h) as u32;
    if cx < grid_w as u32 && cy < grid_h as u32 {
        Some((cx as u16, cy as u16))
    } else {
        None
    }
}

/// Division truncated towards zero, as Rust divides integers.
pub open spec fn tdiv(a: int, b: int) -> int {
    if a >= 0 {
        a / b
    } else {
        -((-a) / b)
    }
}

/// `v` held within `0..=hi`.
pub open spec fn clamp0(v: int, hi: int) -> int {
    if v < 0 {
        0
    } else if v > hi {
        hi
    } else {
        v
    }
}

/// `a - b`, or 0 below it.
pub open spec fn sat_sub16(a: u16, b: u16) -> int {
    if a >= b {
        a - b
    } else {
        0
    }
}

/// The first visible cell after dragging the map from `origin` (where the
/// drag began, with `view` visible) to `at`: the view moves by whole
/// cells against the pointer, and stays on the grid.
pub open spec fn spec_dragged_view(
    vp: MapViewport,
    origin: (u16, u16),
    view: (u16, u16),
    at: (u16, u16),
    grid_w: u16,
    grid_h: u16,
) -> (u16, u16) {
    let tw = if vp.tile_w >= 1 {
        vp.tile_w as int
    } else {
        1
    };
    let th = if vp.tile_h >= 1 {
        vp.tile_h as int
    } else {
        1
    };
    let dx = tdiv(origin.0 - at.0, tw);
    let dy = tdiv(origin.1 - at.1, th);
    (
        clamp0(view.0 + dx, sat_sub16(grid_w, vp.vis_w)) as u16,
        clamp0(view.1 + dy, sat_sub16(grid_h, vp.vis_h)) as u16,
    )
}

fn tdiv_i32(a: i32, b: i32) -> (q: i32)
    requires
        b >= 1,
        a > i32::MIN,
    ensures
        q == tdiv(a as int, b as int),
{
    if a >= 0 {
        a / b
    } else {
        -((-a) / b)
    }
}

fn clamp_i32(v: i32, hi: i32) -> (r: i32)
    requires
        hi >= 0,
    ensures
        r == clamp0(v as int, hi as int),
{
    if v < 0 {
        0
    } else if v > hi {
        hi
    } else {
        v
    }
}

/// The view after a drag (see `spec_dragged_view`). The screen positions,
/// the view and the grid stay within the range of an `i16`, as a terminal
/// screen and a map do.
pub fn dragged_view(
    vp: MapViewport,
    origin: (u16, u16),
    view: (u16, u16),
    at: (u16, u16),
    grid_w: u16,
    grid_h: u16,
) -> (r: (u16, u16))
    requires
        origin.0 <= 0x7fff && origin.1 <= 0x7fff,
        at.0 <= 0x7fff && at.1 <= 0x7fff,
        view.0 <= 0x7fff && view.1 <= 0x7fff,
        grid_w <= 0x7fff && grid_h <= 0x7fff,
        vp.tile_w <= 0x7fff && vp.tile_h <= 0x7fff,
    ensures
        r == spec_dragged_view(vp, origin, view, at, grid_w, grid_h),
{
    let tw: i32 = if vp.tile_w >= 1 {
        vp.tile_w as i32
    } else {
        1
    };
    let th: i32 = if vp.tile_h >= 1 {
        vp.tile_h as i32
    } else {
        1
    };
    let dx = tdiv_i32(origin.0 as i32 - at.0 as i32, tw);
    let dy = tdiv_i32(origin.1 as i32 - at.1 as i32, th);
    let max_x: i32 = if grid_w >= vp.vis_w {
        (grid_w - vp.vis_w) as i32
    } else {
        0
    };
    let max_y: i32 = if grid_h >= vp.vis_h {
        (grid_h - vp.vis_h) as i32
    } else {
        0
    };
    let nx = clamp_i32(view.0 as i32 + dx, max_x);
    let ny = clamp_i32(view.1 as i32 + dy, max_y);
    (nx as u16, ny as u16)
}

} // verus!
