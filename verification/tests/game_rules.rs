use pasta_td::commands::CmdError;
use pasta_td::game::{footprint_fits, GameState};
use pasta_td::kinds::{TargetMode, TowerKind};
use pasta_td::maps::{build_maps, first_buildable, map_at, new_game, push_segment};
use pasta_td::rules::{tower_cost, tower_upgrade_cost, upgrade_delta_for};

fn fresh() -> GameState {
    new_game(&map_at(0))
}

#[test]
fn new_game_starts_with_a_basic_tower_on_the_first_free_cell() {
    let g = fresh();
    assert!(!g.running);
    assert_eq!(g.speed, 1);
    assert_eq!(g.money, 175);
    assert_eq!(g.lives, 20);
    assert_eq!(g.wave, 1);
    assert_eq!(g.selected_cell, Some((1, 1)));
    assert_eq!(g.towers.len(), 1);
    assert_eq!(g.towers[0].kind, TowerKind::Basic);
    assert_eq!((g.towers[0].x, g.towers[0].y), (1, 1));
    assert_eq!(g.map_name, "Serpentine");
    assert!(g.enemies.is_empty());
}

#[test]
fn maps_have_expected_paths() {
    let maps = build_maps();
    assert_eq!(maps.len(), 5);
    let names: Vec<&str> = maps.iter().map(|m| m.name).collect();
    assert_eq!(names, vec!["Serpentine", "Cascade", "Spiral", "Switchback", "Crosswind"]);
    let s = &maps[0];
    assert_eq!((s.grid_w, s.grid_h), (60, 30));
    assert_eq!(s.path[0], (1, 5));
    // Segments are laid from their lower coordinate up, whatever their
    // direction on the map.
    assert_eq!(s.path[58 + 21], (2, 25));
    assert_eq!(*s.path.last().unwrap(), (58, 25));
    // 58 + 21 + 57 cells, the corners counted twice.
    assert_eq!(s.path.len(), 58 + 21 + 57);
}

#[test]
fn push_segment_walks_both_directions_and_skips_diagonals() {
    let mut p = Vec::new();
    push_segment(&mut p, (3, 2), (1, 2));
    assert_eq!(p, vec![(1, 2), (2, 2), (3, 2)]);
    push_segment(&mut p, (0, 0), (1, 1));
    assert_eq!(p.len(), 3);
}

#[test]
fn first_buildable_skips_path_cells() {
    let path = vec![(1, 1), (2, 1)];
    assert_eq!(first_buildable(10, 10, &path), (3, 1));
    assert_eq!(first_buildable(2, 2, &path), (1, 1));
}

#[test]
fn tower_prices_grow_with_the_wave() {
    assert_eq!(tower_cost(TowerKind::Sniper, 1), 125);
    assert_eq!(tower_cost(TowerKind::Sniper, 17), 125 + 125 * 16 / 16);
    assert_eq!(tower_cost(TowerKind::Basic, -3), 80);
    assert_eq!(tower_upgrade_cost(TowerKind::Basic, 1), 65);
    assert_eq!(tower_upgrade_cost(TowerKind::Cannon, 10), 100 + 900 / 18);
}

#[test]
fn build_pays_the_price_and_sell_refunds_twenty() {
    let mut g = fresh();
    assert!(g.can_build_at(10, 10, TowerKind::Sniper, false));
    assert!(g.build_at(10, 10, TowerKind::Sniper, false));
    assert_eq!(g.money, 175 - 125);
    assert_eq!(g.towers.len(), 2);
    // Not enough money for a second sniper.
    assert!(!g.build_at(12, 10, TowerKind::Sniper, false));
    // The cell is taken now.
    assert!(!g.can_build_at(10, 10, TowerKind::Basic, true));
    assert_eq!(g.sell_at(10, 10, false), Ok(()));
    assert_eq!(g.money, 175 - 125 + 20);
    assert_eq!(g.towers.len(), 1);
    assert_eq!(g.sell_at(10, 10, false), Err(CmdError::NoTowerToSell));
}

#[test]
fn cannot_build_on_the_path() {
    let g = fresh();
    assert!(g.is_path(1, 5));
    assert!(!g.can_build_at(1, 5, TowerKind::Basic, true));
    // A cannon at (1, 4) covers (1, 5) too.
    assert!(!g.can_build_at(1, 4, TowerKind::Cannon, true));
}

#[test]
fn developer_mode_builds_for_free() {
    let mut g = fresh();
    g.money = 0;
    assert!(!g.build_at(20, 10, TowerKind::Cannon, false));
    assert!(g.build_at(20, 10, TowerKind::Cannon, true));
    assert_eq!(g.money, 0);
}

#[test]
fn upgrade_pays_and_stops_at_level_nine() {
    let mut g = fresh();
    g.money = 10_000;
    assert_eq!(g.upgrade_at(1, 1, false), Ok(()));
    assert_eq!(g.towers[0].level, 2);
    assert_eq!(g.money, 10_000 - 65);
    for _ in 0..7 {
        assert_eq!(g.upgrade_at(1, 1, false), Ok(()));
    }
    assert_eq!(g.towers[0].level, 9);
    assert_eq!(g.upgrade_at(1, 1, false), Err(CmdError::TowerAtMax));
    g.money = 0;
    assert_eq!(g.upgrade_at(1, 1, false), Err(CmdError::NotEnoughMoney));
    assert_eq!(g.upgrade_at(30, 20, false), Err(CmdError::NoTowerToUpgrade));
}

#[test]
fn target_mode_cycles_through_eight_modes() {
    let mut m = TargetMode::Primeiro;
    let mut seen = Vec::new();
    for _ in 0..8 {
        seen.push(m);
        m = m.next();
    }
    assert_eq!(m, TargetMode::Primeiro);
    for i in 0..8 {
        for j in (i + 1)..8 {
            assert_ne!(seen[i], seen[j]);
        }
    }
}

#[test]
fn aiming_sets_the_mode_of_the_tower_under_the_cell() {
    let mut g = fresh();
    assert_eq!(g.next_target_mode_at(1, 1), Some(TargetMode::Ultimo));
    assert_eq!(g.set_target_mode_at(1, 1, TargetMode::MaisForte), Ok(()));
    assert_eq!(g.towers[0].target_mode, TargetMode::MaisForte);
    assert_eq!(g.set_target_mode_at(9, 9, TargetMode::MaisForte), Err(CmdError::NoTowerToAim));
}

#[test]
fn command_errors_have_their_messages() {
    assert_eq!(CmdError::NotInGame.message(), "host ainda nao iniciou o jogo");
    assert_eq!(CmdError::NotEnoughMoney.message(), "dinheiro insuficiente");
    assert_eq!(CmdError::TowerAtMax.message(), "torre no max");
}

#[test]
fn upgrades_never_make_a_tower_worse() {
    let d = upgrade_delta_for(TowerKind::Basic, 1);
    assert_eq!((d.attack, d.range, d.fire_cd), (15, 0, 0));
    for kind in [TowerKind::Basic, TowerKind::Sniper, TowerKind::Rapid, TowerKind::Cannon, TowerKind::Tesla, TowerKind::Frost] {
        for level in 1..9u8 {
            let d = upgrade_delta_for(kind, level);
            assert!(d.attack > 0 && d.range >= 0 && d.fire_cd <= 0);
        }
        let top = upgrade_delta_for(kind, 9);
        assert_eq!((top.attack, top.range, top.fire_cd), (0, 0, 0));
    }
}

#[test]
fn a_tower_must_end_inside_the_coordinate_range() {
    assert!(footprint_fits(65534, 65534, TowerKind::Basic));
    assert!(!footprint_fits(65535, 0, TowerKind::Basic));
    assert!(!footprint_fits(65534, 0, TowerKind::Cannon));
    assert!(footprint_fits(65533, 65533, TowerKind::Cannon));
    assert!(footprint_fits(65533, 65534, TowerKind::Rapid));
}
