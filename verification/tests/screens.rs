use pasta_td::assets::{enemy_sprite, impact_sprite, tower_sprite};
use pasta_td::fx::Vec2i;
use pasta_td::kinds::{EnemyKind, TowerKind};
use pasta_td::menus::{
    name_char_allowed, peer_ip_char_allowed, role_focus, tick_notice, wrap_next, wrap_prev,
    ConnectionStatus, LoadMenuFocus, LoadMenuState, MultiplayerFocus, MultiplayerRole, TopNotice,
};
use pasta_td::mobility::{MobilityConfig, ReconnectState, Span};
use pasta_td::save::SaveSlotSummary;
use pasta_td::stun::SockAddr;
use pasta_td::labels::effect_labels;
use pasta_td::preview::{preview_pixel, preview_size, PreviewPixel};
use pasta_td::view::{
    hash32, hex_distance, layout_mode_for, layout_view, line_glyph, lod_from_zoom, map_to_screen,
    map_to_tile_origin, next_zoom, range_match, range_shape, tex_pick, FxLod, LayoutMode,
    MapViewport, RangeShape, Rect, ViewState,
};

#[test]
fn menus_wrap_around() {
    assert_eq!(wrap_prev(0, 3), 2);
    assert_eq!(wrap_prev(2, 3), 1);
    assert_eq!(wrap_next(2, 3), 0);
    assert_eq!(wrap_next(0, 3), 1);
}

#[test]
fn lobby_focus_cycles_both_ways() {
    let mut f = MultiplayerFocus::Role;
    for _ in 0..7 {
        f = f.next();
    }
    assert_eq!(f, MultiplayerFocus::Role);
    assert_eq!(MultiplayerFocus::Role.prev(), MultiplayerFocus::Continue);
    assert_eq!(MultiplayerFocus::Name.next().prev(), MultiplayerFocus::Name);
    assert_eq!(role_focus(MultiplayerRole::Host), MultiplayerFocus::PublicIp);
    assert_eq!(role_focus(MultiplayerRole::Peer), MultiplayerFocus::PeerIp);
}

#[test]
fn lobby_fields_filter_characters() {
    for c in ['0', '9', '.', ':', '[', ']'] {
        assert!(peer_ip_char_allowed(c));
    }
    for c in ['a', ' ', '/'] {
        assert!(!peer_ip_char_allowed(c));
    }
    assert!(name_char_allowed('é', ConnectionStatus::Connected));
    assert!(!name_char_allowed('\n', ConnectionStatus::Connected));
    assert!(!name_char_allowed('\u{85}', ConnectionStatus::Connected));
    assert!(!name_char_allowed('a', ConnectionStatus::Ready));
}

#[test]
fn notices_expire() {
    let n = TopNotice::show("ola".to_string());
    assert_eq!(n.ttl_ticks, 60);
    let mut cur = Some(n);
    for _ in 0..59 {
        cur = tick_notice(cur);
        assert!(cur.is_some());
    }
    assert!(tick_notice(cur).is_none());
}

fn slot(waves: Vec<i32>) -> SaveSlotSummary {
    SaveSlotSummary { id: "s".to_string(), created_at: 0, map_name: "m".to_string(), dev_mode: false, waves }
}

#[test]
fn load_menu_moves_between_slots_and_waves() {
    let mut m = LoadMenuState {
        slots: vec![slot(vec![1, 2, 3]), slot(vec![5])],
        selected_slot: 0,
        selected_wave: 0,
        focus: LoadMenuFocus::Slots,
        error: None,
    };
    m.next();
    assert_eq!((m.selected_slot, m.selected_wave), (1, 0));
    m.next();
    assert_eq!((m.selected_slot, m.selected_wave), (0, 2));
    m.prev();
    assert_eq!((m.selected_slot, m.selected_wave), (1, 0));
    m.prev();
    m.focus = LoadMenuFocus::Waves;
    m.next();
    assert_eq!(m.selected_wave, 0);
    m.prev();
    assert_eq!(m.selected_wave, 2);
    m.selected_slot = 7;
    m.clamp_selection();
    assert_eq!((m.selected_slot, m.selected_wave), (1, 0));
    let mut empty = LoadMenuState { slots: vec![], selected_slot: 3, selected_wave: 2, focus: LoadMenuFocus::Slots, error: None };
    empty.clamp_selection();
    assert_eq!((empty.selected_slot, empty.selected_wave), (0, 0));
}

#[test]
fn layout_and_zoom() {
    assert_eq!(layout_mode_for(Rect::new(0, 0, 95, 40)), LayoutMode::Compact);
    assert_eq!(layout_mode_for(Rect::new(0, 0, 96, 27)), LayoutMode::Compact);
    assert_eq!(layout_mode_for(Rect::new(0, 0, 96, 28)), LayoutMode::Wide);
    assert_eq!(lod_from_zoom(0), FxLod::Low);
    assert_eq!(lod_from_zoom(1), FxLod::Low);
    assert_eq!(lod_from_zoom(2), FxLod::Medium);
    assert_eq!(lod_from_zoom(3), FxLod::High);
    assert_eq!(next_zoom(1, 1), 2);
    assert_eq!(next_zoom(4, 1), 4);
    assert_eq!(next_zoom(0, -1), 0);
}

#[test]
fn cells_map_to_screen_middles() {
    let area = Rect::new(5, 2, 40, 20);
    let vp = MapViewport { tile_w: 4, tile_h: 2, view_x: 10, view_y: 3, vis_w: 10, vis_h: 10 };
    assert_eq!(map_to_tile_origin(Vec2i::new(12, 4), area, vp), Some((13, 4)));
    assert_eq!(map_to_screen(Vec2i::new(12, 4), area, vp), Some((15, 5)));
    assert_eq!(map_to_screen(Vec2i::new(9, 4), area, vp), None);
    assert_eq!(map_to_screen(Vec2i::new(-1, 4), area, vp), None);
    assert_eq!(map_to_screen(Vec2i::new(20, 4), area, vp), None);
    assert_eq!(Rect::new(65530, 0, 10, 1).right(), u16::MAX);
}

#[test]
fn line_glyphs_follow_the_direction() {
    assert_eq!(line_glyph(Vec2i::new(0, 0), Vec2i::new(5, 0)), "─");
    assert_eq!(line_glyph(Vec2i::new(0, 0), Vec2i::new(0, -5)), "│");
    assert_eq!(line_glyph(Vec2i::new(0, 0), Vec2i::new(3, 3)), "╲");
    assert_eq!(line_glyph(Vec2i::new(0, 0), Vec2i::new(3, -3)), "╱");
    assert_eq!(line_glyph(Vec2i::new(1, 1), Vec2i::new(1, 1)), "─");
}

#[test]
fn sprites_are_square_per_zoom() {
    for zoom in 0u16..7 {
        let side = if zoom == 0 { 2 } else { 4 * zoom.min(4) };
        for kind in [TowerKind::Basic, TowerKind::Sniper, TowerKind::Rapid, TowerKind::Cannon, TowerKind::Tesla, TowerKind::Frost] {
            let s = tower_sprite(kind, zoom);
            assert_eq!((s.w, s.h), (side, side));
            assert_eq!(s.rows.len(), side as usize);
        }
        for kind in [EnemyKind::Runner, EnemyKind::Tank, EnemyKind::Swarm, EnemyKind::Shielded, EnemyKind::Healer, EnemyKind::Sneak] {
            let s = enemy_sprite(kind, zoom);
            assert_eq!((s.w, s.h), (side, side));
        }
        assert_eq!(impact_sprite(zoom).w, side);
    }
    let s = tower_sprite(TowerKind::Basic, 0);
    assert_eq!(s.row(0), "▣▣");
    assert_eq!(s.row(5), "");
}

#[test]
fn backoff_doubles_up_to_the_cap() {
    let m = MobilityConfig::defaults();
    assert!(!m.should_rebind(0));
    assert_eq!(m.next_backoff(Span::from_millis(500)).nanos, 1_000_000_000);
    assert_eq!(m.next_backoff(Span::from_secs(8)).nanos, 10_000_000_000);
    let mut r = ReconnectState { peer: SockAddr::V4 { ip: 1, port: 2 }, backoff: m.reconnect_initial, failures: 0 };
    for _ in 0..10 {
        r.bump_backoff(&m);
    }
    assert_eq!(r.failures, 10);
    assert_eq!(r.backoff.nanos, 10_000_000_000);
}

#[test]
fn view_starts_centred_then_follows_selection() {
    let st = ViewState { zoom: 0, last_zoom: 0, manual_pan: false, viewport: MapViewport::initial() };
    let a = layout_view(st, 40, 20, 60, 30, None, None);
    assert_eq!(a.viewport, MapViewport { tile_w: 2, tile_h: 2, view_x: 20, view_y: 10, vis_w: 20, vis_h: 10 });
    let b = layout_view(a, 40, 20, 60, 30, None, Some((50, 5)));
    assert_eq!((b.viewport.view_x, b.viewport.view_y), (31, 5));
    assert!(!b.manual_pan);
    let z = ViewState { zoom: 1, ..b };
    let c = layout_view(z, 40, 20, 60, 30, Some((30, 15)), Some((50, 5)));
    assert_eq!(c.viewport, MapViewport { tile_w: 4, tile_h: 4, view_x: 25, view_y: 13, vis_w: 10, vis_h: 5 });
    assert!(c.manual_pan);
    assert_eq!(c.last_zoom, 1);
    let d = layout_view(c, 40, 20, 60, 30, None, Some((0, 0)));
    assert_eq!((d.viewport.view_x, d.viewport.view_y), (25, 13));
}

#[test]
fn texture_hash_values() {
    assert_eq!(hash32(0), 0);
    assert_eq!(hash32(1), 1753845952);
    assert_eq!(hash32(12345), 2435775735);
    assert_eq!(tex_pick(3, 4, 1, 0, 7, 5), 2);
}

#[test]
fn range_outlines() {
    assert_eq!(hex_distance(0, 0, 2, 1), 3);
    assert_eq!(hex_distance(2, 0, 0, 2), 2);
    assert_eq!(range_shape(TowerKind::Sniper), RangeShape::Hex);
    assert_eq!(range_shape(TowerKind::Basic), RangeShape::Diamond);
    assert!(range_match(RangeShape::Diamond, 5, 7, 4, 4, 4));
    assert!(!range_match(RangeShape::Diamond, 5, 7, 4, 4, 3));
    assert!(range_match(RangeShape::Hex, 2, 0, 0, 2, 2));
}

#[test]
fn effect_texts() {
    let (now, next) = effect_labels(TowerKind::Tesla, 1, true).unwrap();
    assert_eq!(now, "Chain 39% r1 x2");
    assert_eq!(next.as_deref(), Some("Chain 43% r1 x2"));
    let (now, next) = effect_labels(TowerKind::Cannon, 1, false).unwrap();
    assert_eq!(now, "Splash 33% r1");
    assert_eq!(next, None);
    let (now, _) = effect_labels(TowerKind::Frost, 1, false).unwrap();
    assert_eq!(now, "Slow 23%/10t + Chill 11% r1");
    assert_eq!(effect_labels(TowerKind::Tesla, 9, true).unwrap().1, None);
    assert!(effect_labels(TowerKind::Basic, 3, true).is_none());
}

#[test]
fn preview_fits_the_grid_in_the_area() {
    assert_eq!(preview_size(40, 10, 20, 10), (20, 10));
    assert_eq!(preview_size(40, 30, 20, 10), (40, 20));
    assert_eq!(preview_size(0, 0, 0, 0), (1, 1));
}

#[test]
fn preview_pixels_show_goal_start_and_path() {
    let path = vec![(0u16, 0u16), (1, 0), (2, 0), (2, 1)];
    assert_eq!(preview_pixel(&path, 4, 2, 0, 0, 4, 2), PreviewPixel::Start);
    assert_eq!(preview_pixel(&path, 4, 2, 2, 1, 4, 2), PreviewPixel::Goal);
    assert_eq!(preview_pixel(&path, 4, 2, 1, 0, 4, 2), PreviewPixel::Path);
    assert_eq!(preview_pixel(&path, 4, 2, 3, 1, 4, 2), PreviewPixel::Empty);
    assert_eq!(preview_pixel(&path, 4, 2, 0, 0, 2, 1), PreviewPixel::Start);
    assert_eq!(preview_pixel(&path, 4, 2, 1, 0, 2, 1), PreviewPixel::Goal);
}
