use pasta_td::fx::{FxData, FxEntity, FxKind, FxManager, Vec2i};
use pasta_td::fxplan::{plan_entity, FxColor, FxWeight, Stroke};
use pasta_td::kinds::TowerKind;
use pasta_td::view::{FxLod, MapViewport, Rect};

fn flash_at(x: i16, y: i16) -> FxEntity {
    FxEntity { kind: FxKind::TargetFlash, pos: Vec2i::new(x, y), ttl: 1, age: 0, priority: 100, seed: 7, data: FxData::NoData }
}

fn cells(strokes: &[Stroke]) -> Vec<(u16, u16, &'static str)> {
    strokes.iter().map(|s| (s.x, s.y, s.glyph)).collect()
}

#[test]
fn a_flash_is_one_cell_in_the_middle_of_its_tile() {
    let vp = MapViewport { tile_w: 2, tile_h: 1, view_x: 0, view_y: 0, vis_w: 10, vis_h: 10 };
    let area = Rect::new(0, 0, 20, 10);
    let mut out = Vec::new();
    plan_entity(&mut out, &flash_at(1, 1), FxLod::Low, 0, area, vp, &vec![], &vec![]);
    assert_eq!(cells(&out), vec![(3, 1, "▓")]);
    assert_eq!(out[0].color, FxColor::Cyan);
    assert_eq!(out[0].weight, FxWeight::Bold);
}

#[test]
fn large_tiles_give_a_flash_a_halo() {
    let vp = MapViewport { tile_w: 8, tile_h: 8, view_x: 0, view_y: 0, vis_w: 2, vis_h: 2 };
    let area = Rect::new(0, 0, 16, 16);
    let mut out = Vec::new();
    plan_entity(&mut out, &flash_at(1, 1), FxLod::High, 2, area, vp, &vec![], &vec![]);
    assert_eq!(
        cells(&out),
        vec![(12, 12, "▓"), (13, 12, "."), (11, 12, "."), (12, 13, "."), (12, 11, ".")]
    );
    assert!(out[1..].iter().all(|s| s.weight == FxWeight::Dim));
}

#[test]
fn an_effect_off_screen_paints_nothing() {
    let vp = MapViewport { tile_w: 2, tile_h: 1, view_x: 5, view_y: 0, vis_w: 4, vis_h: 4 };
    let area = Rect::new(0, 0, 8, 4);
    let mut out = Vec::new();
    plan_entity(&mut out, &flash_at(1, 1), FxLod::Low, 0, area, vp, &vec![], &vec![]);
    assert!(out.is_empty());
}

#[test]
fn a_tracer_is_a_line_between_its_ends() {
    let vp = MapViewport { tile_w: 2, tile_h: 1, view_x: 0, view_y: 0, vis_w: 10, vis_h: 10 };
    let area = Rect::new(0, 0, 20, 10);
    let e = FxEntity {
        kind: FxKind::TracerLine,
        pos: Vec2i::new(0, 0),
        ttl: 1,
        age: 0,
        priority: 60,
        seed: 1,
        data: FxData::TracerLine { kind: TowerKind::Sniper, from: Vec2i::new(0, 0), to: Vec2i::new(3, 0) },
    };
    let mut out = Vec::new();
    plan_entity(&mut out, &e, FxLod::Low, 0, area, vp, &vec![], &vec![]);
    let xs: Vec<u16> = out.iter().map(|s| s.x).collect();
    assert_eq!(xs, vec![1, 2, 3, 4, 5, 6, 7]);
    assert!(out.iter().all(|s| s.y == 0 && s.glyph == "─" && s.color == FxColor::Tower(TowerKind::Sniper)));
}

#[test]
fn a_frame_draws_higher_priorities_first_and_counts() {
    let vp = MapViewport { tile_w: 2, tile_h: 1, view_x: 0, view_y: 0, vis_w: 10, vis_h: 10 };
    let area = Rect::new(0, 0, 20, 10);
    let mut fx = FxManager::new();
    fx.spawn_tracer_line(TowerKind::Basic, Vec2i::new(0, 2), Vec2i::new(1, 2), 3);
    fx.spawn_target_flash(Vec2i::new(4, 4), 9);
    assert!(fx.drawable());
    let strokes = fx.render_plan(0, area, vp, &vec![], &vec![]);
    // The flash (priority 100) comes before the tracer (priority 60).
    assert_eq!(cells(&strokes), vec![(9, 4, "▓"), (1, 2, "─"), (2, 2, "─"), (3, 2, "─")]);
    let stats = fx.stats();
    assert_eq!(stats.primitives_drawn, 4);
    assert_eq!(stats.culled_by_budget, 0);
}

fn live_of_kind(fx: &FxManager, kind: FxKind) -> usize {
    (0..5000).filter(|&i| matches!(fx.get(i), Some(e) if e.kind == kind)).count()
}

#[test]
fn arcs_stop_at_their_cap() {
    let mut fx = FxManager::new();
    for i in 0..30u32 {
        fx.spawn_arc_lightning(Vec2i::new(0, 0), Vec2i::new(5, 5), i);
    }
    assert_eq!(live_of_kind(&fx, FxKind::ArcLightning), 20);
}

#[test]
fn a_second_overlay_on_one_enemy_refreshes_the_first() {
    let mut fx = FxManager::new();
    fx.spawn_status_overlay(7, 3, 1);
    fx.spawn_status_overlay(7, 5, 2);
    fx.spawn_status_overlay(8, 2, 3);
    let on_seven: Vec<FxEntity> = (0..5000)
        .filter_map(|i| fx.get(i))
        .filter(|e| matches!(e.data, FxData::StatusOverlay { target: 7, .. }))
        .collect();
    assert_eq!(on_seven.len(), 1);
    assert_eq!(on_seven[0].ttl, 5);
    assert_eq!(on_seven[0].seed, 2);
    assert_eq!(live_of_kind(&fx, FxKind::StatusOverlay), 2);
}

#[test]
fn a_tesla_beam_leaves_one_arc_after_a_tick() {
    let mut fx = FxManager::new();
    fx.spawn_tesla_beam_fx(Vec2i::new(1, 1), Vec2i::new(4, 1), 10, 20);
    assert_eq!(live_of_kind(&fx, FxKind::ArcLightning), 2);
    assert_eq!(live_of_kind(&fx, FxKind::TargetFlash), 1);
    fx.tick();
    assert_eq!(live_of_kind(&fx, FxKind::ArcLightning), 1);
    assert_eq!(live_of_kind(&fx, FxKind::TargetFlash), 0);
}

#[test]
fn an_effect_lives_for_its_ticks_to_live() {
    let mut fx = FxManager::new();
    fx.spawn_tesla_beam_fx(Vec2i::new(1, 1), Vec2i::new(4, 1), 10, 20);
    fx.tick();
    fx.tick();
    let arc = (0..5000).filter_map(|i| fx.get(i)).find(|e| e.kind == FxKind::ArcLightning).unwrap();
    assert_eq!((arc.ttl, arc.age, arc.seed), (1, 2, 10));
    fx.tick();
    assert_eq!(live_of_kind(&fx, FxKind::ArcLightning), 0);
}
