use pasta_td::combat::{FxLog, TowerFire};
use pasta_td::game::{Enemy, GameState, Projectile, Tower};
use pasta_td::kinds::{EnemyKind, TargetMode, TowerKind};
use pasta_td::maps::{map_at, new_game};
use pasta_td::net_msg::FxEvent;

fn fresh() -> GameState {
    let mut g = new_game(&map_at(0));
    g.towers.clear();
    g
}

fn enemy(kind: EnemyKind, path_i: usize, hp: i32) -> Enemy {
    Enemy {
        kind,
        path_i,
        hp,
        move_cd: 10,
        slow_ticks: 0,
        slow_percent: 0,
        reward: 5,
        rewarded: false,
        escaped: false,
    }
}

fn tower(kind: TowerKind, x: u16, y: u16) -> Tower {
    Tower {
        x,
        y,
        kind,
        level: 1,
        cooldown: 0,
        target_mode: TargetMode::Primeiro,
        fire_age: 0,
        fire_dir: (0, 0),
    }
}

fn recording() -> FxLog {
    FxLog { record: true, events: Vec::new() }
}

#[test]
fn basic_tower_fires_at_the_leading_enemy() {
    let mut g = fresh();
    // Path row y = 5 from x = 1; the tower stands at (10, 7).
    g.towers.push(tower(TowerKind::Basic, 10, 7));
    g.enemies.push(enemy(EnemyKind::Swarm, 7, 50)); // at (8, 5)
    g.enemies.push(enemy(EnemyKind::Swarm, 9, 50)); // at (10, 5)
    let fire = g.tick_tower(0);
    assert_eq!(
        fire,
        TowerFire::Shot { from_x: 10, from_y: 7, to_x: 10, to_y: 5, damage: 40, kind: TowerKind::Basic, level: 1 }
    );
    assert_eq!(g.towers[0].cooldown, 18);
    assert_eq!(g.towers[0].fire_age, 10);
    assert_eq!(g.towers[0].fire_dir, (0, -1));
    // Cooling down: no shot.
    assert_eq!(g.tick_tower(0), TowerFire::Idle);
    assert_eq!(g.towers[0].cooldown, 17);
}

#[test]
fn weakest_mode_prefers_low_hit_points() {
    let mut g = fresh();
    let mut t = tower(TowerKind::Basic, 10, 7);
    t.target_mode = TargetMode::MaisFraco;
    g.towers.push(t);
    g.enemies.push(enemy(EnemyKind::Swarm, 7, 50));
    g.enemies.push(enemy(EnemyKind::Swarm, 9, 80));
    match g.tick_tower(0) {
        TowerFire::Shot { to_x, to_y, .. } => assert_eq!((to_x, to_y), (8, 5)),
        other => panic!("expected a shot, got {:?}", other),
    }
}

#[test]
fn tower_out_of_range_stays_idle() {
    let mut g = fresh();
    g.towers.push(tower(TowerKind::Basic, 30, 15));
    g.enemies.push(enemy(EnemyKind::Swarm, 0, 50));
    assert_eq!(g.tick_tower(0), TowerFire::Idle);
    assert_eq!(g.towers[0].cooldown, 0);
}

#[test]
fn tesla_beams_every_tick() {
    let mut g = fresh();
    g.towers.push(tower(TowerKind::Tesla, 10, 7));
    g.enemies.push(enemy(EnemyKind::Swarm, 9, 50)); // at (10, 5)
    let fire = g.tick_tower(0);
    // 55 attack over a 14 tick cooldown at pace 1: 3 per tick.
    assert_eq!(
        fire,
        TowerFire::Beam { from_x: 10, from_y: 7, to_x: 10, to_y: 5, damage: 3, level: 1 }
    );
    assert_eq!(g.enemies[0].hp, 47);
    assert_eq!(g.towers[0].fire_age, 4);
}

#[test]
fn projectile_flies_and_hits() {
    let mut g = fresh();
    g.enemies.push(enemy(EnemyKind::Swarm, 9, 50)); // at (10, 5)
    let mut rng = 1u64;
    let mut log = recording();
    g.spawn_projectile(10, 7, 10, 5, 40, TowerKind::Basic, 1, &mut rng, &mut log);
    assert_eq!(g.projectiles.len(), 1);
    assert_eq!(g.projectiles[0].ttl, 90);
    assert_eq!(g.projectiles[0].step_cd, 2);
    assert_eq!(log.events.len(), 1);
    assert!(matches!(log.events[0], FxEvent::Projectile { ttl: 90, tracer_seed: None, .. }));
    // Step time 2 at pace 1: waits one tick, then moves.
    let hits = g.tick_projectiles();
    assert!(hits.is_empty());
    assert_eq!(g.projectiles[0].step_cd, 1);
    let hits = g.tick_projectiles();
    assert!(hits.is_empty());
    assert_eq!((g.projectiles[0].x, g.projectiles[0].y), (10, 6));
    g.tick_projectiles();
    let hits = g.tick_projectiles();
    assert_eq!(hits.len(), 1);
    assert_eq!((hits[0].x, hits[0].y), (10, 5));
    assert_eq!(hits[0].target.map(|t| t.0), Some(0));
    assert_eq!(g.enemies[0].hp, 10);
    assert!(g.projectiles.is_empty());
}

#[test]
fn rapid_damage_is_reduced_by_resistance() {
    let mut g = fresh();
    g.enemies.push(enemy(EnemyKind::Shielded, 9, 100)); // rapid resistance 45%
    g.projectiles.push(Projectile {
        x: 10,
        y: 6,
        tx: 10,
        ty: 5,
        ttl: 10,
        damage: 20,
        step_cd: 1,
        kind: TowerKind::Rapid,
        source_level: 1,
        fx_id: None,
    });
    let hits = g.tick_projectiles();
    assert_eq!(hits.len(), 1);
    assert_eq!(g.enemies[0].hp, 100 - (20 - 20 * 45 / 100));
}

#[test]
fn frost_hit_slows_and_marks() {
    let mut g = fresh();
    g.enemies.push(enemy(EnemyKind::Swarm, 9, 100));
    g.projectiles.push(Projectile {
        x: 10,
        y: 6,
        tx: 10,
        ty: 5,
        ttl: 10,
        damage: 5,
        step_cd: 1,
        kind: TowerKind::Frost,
        source_level: 1,
        fx_id: None,
    });
    let hits = g.tick_projectiles();
    assert_eq!(g.enemies[0].slow_percent, 23);
    assert_eq!(g.enemies[0].slow_ticks, 10);
    let mut rng = 1u64;
    let mut log = recording();
    g.mark_hits(&hits, &mut rng, &mut log);
    assert_eq!(log.events.len(), 1);
    assert!(matches!(log.events[0], FxEvent::StatusOverlay { target: 0, ttl: 10, seed: 1206177355 }));
    g.land_hits(&hits, &mut rng, &mut log);
    assert_eq!(log.events.len(), 2);
    assert!(matches!(log.events[1], FxEvent::Impact { kind: TowerKind::Frost, x: 10, y: 5, .. }));
}

#[test]
fn sniper_strikes_at_once() {
    let mut g = fresh();
    g.enemies.push(enemy(EnemyKind::Swarm, 9, 100));
    let mut rng = 1u64;
    let mut log = FxLog { record: false, events: Vec::new() };
    g.spawn_projectile(10, 8, 10, 5, 90, TowerKind::Sniper, 1, &mut rng, &mut log);
    assert_eq!(g.enemies[0].hp, 10);
    assert!(g.projectiles.is_empty());
    assert!(log.events.is_empty());
}

#[test]
fn frost_burst_slows_neighbours_but_not_the_centre() {
    let mut g = fresh();
    g.enemies.push(enemy(EnemyKind::Swarm, 9, 100)); // (10, 5): the centre
    g.enemies.push(enemy(EnemyKind::Swarm, 10, 100)); // (11, 5)
    g.enemies.push(enemy(EnemyKind::Swarm, 15, 100)); // (16, 5)
    let mut rng = 1u64;
    let mut log = recording();
    g.apply_frost_burst(10, 5, 1, &mut rng, &mut log);
    assert_eq!(g.enemies[0].slow_percent, 0);
    assert_eq!(g.enemies[1].slow_percent, 11);
    assert_eq!(g.enemies[1].slow_ticks, 12);
    assert_eq!(g.enemies[2].slow_percent, 0);
    assert_eq!(log.events.len(), 2);
}

#[test]
fn splash_damages_around_the_hit() {
    let mut g = fresh();
    g.enemies.push(enemy(EnemyKind::Swarm, 9, 100));
    g.enemies.push(enemy(EnemyKind::Tank, 10, 100)); // splash resistance 30%
    let mut rng = 1u64;
    let mut log = recording();
    g.apply_splash(10, 5, 40, 1, &mut rng, &mut log);
    assert_eq!(g.enemies[0].hp, 100);
    assert_eq!(g.enemies[1].hp, 100 - (40 - 40 * 30 / 100));
    assert_eq!(log.events.len(), 1);
}

#[test]
fn chain_targets_are_nearest_first() {
    let mut g = fresh();
    g.enemies.push(enemy(EnemyKind::Swarm, 9, 100)); // centre (10, 5)
    g.enemies.push(enemy(EnemyKind::Swarm, 8, 100)); // (9, 5) distance 1
    g.enemies.push(enemy(EnemyKind::Swarm, 10, 100)); // (11, 5) distance 1
    g.enemies.push(enemy(EnemyKind::Swarm, 12, 100)); // (13, 5) distance 3
    // Level 1: radius 1, up to 2 targets.
    let targets = g.tesla_chain_targets(10, 5, 1);
    assert_eq!(targets, vec![(1, 9, 5, 1), (2, 11, 5, 1)]);
    // Level 6: radius 3, up to 4 targets.
    let targets = g.tesla_chain_targets(10, 5, 6);
    assert_eq!(targets, vec![(1, 9, 5, 1), (2, 11, 5, 1), (3, 13, 5, 3)]);
    let mut rng = 1u64;
    let mut log = recording();
    g.chain_strike(10, 5, 1, 9, 5, 30, &mut rng, &mut log);
    assert_eq!(g.enemies[1].hp, 70);
    assert_eq!(log.events.len(), 2);
}

#[test]
fn peers_replay_host_effects() {
    let mut g = new_game(&map_at(0));
    let events = vec![
        FxEvent::Projectile {
            kind: TowerKind::Basic,
            from_x: 3,
            from_y: 3,
            to_x: 6,
            to_y: 4,
            ttl: 300,
            seed: 1,
            muzzle_seed: 2,
            tracer_seed: Some(3),
        },
        FxEvent::Impact { kind: TowerKind::Cannon, x: 5, y: 5, seed: 9 },
        FxEvent::StatusOverlay { target: 0, ttl: 5, seed: 4 },
    ];
    g.apply_fx_events(events.clone(), false, true);
    assert!(g.projectiles.is_empty());
    g.apply_fx_events(events, true, true);
    assert_eq!(g.projectiles.len(), 1);
    let p = g.projectiles[0];
    assert_eq!((p.x, p.y, p.tx, p.ty, p.ttl, p.damage), (3, 3, 6, 4, 300, 0));
    let e = g.fx.get(p.fx_id.unwrap()).unwrap();
    assert_eq!(e.kind, pasta_td::fx::FxKind::Projectile);
    assert_eq!(e.ttl, 255);
    assert_eq!((e.pos.x, e.pos.y), (3, 3));
}
