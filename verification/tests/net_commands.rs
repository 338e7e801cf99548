use pasta_td::commands::CmdError;
use pasta_td::kinds::{TargetMode, TowerKind};
use pasta_td::maps::{map_at, new_game};
use pasta_td::net_msg::NetCmd;

#[test]
fn commands_are_refused_before_the_match() {
    let mut g = new_game(&map_at(0));
    let mut rng = 5u64;
    assert_eq!(g.apply_net_cmd(NetCmd::TogglePause, false, false, &mut rng), Err(CmdError::NotInGame));
    assert!(!g.running);
}

#[test]
fn peer_commands_act_like_keys() {
    let mut g = new_game(&map_at(0));
    let mut rng = 5u64;
    assert_eq!(g.apply_net_cmd(NetCmd::TogglePause, true, false, &mut rng), Ok(None));
    assert!(g.running);
    assert_eq!(g.apply_net_cmd(NetCmd::CycleSpeed, true, false, &mut rng), Ok(None));
    assert_eq!(g.speed, 2);
    assert_eq!(
        g.apply_net_cmd(NetCmd::Build { x: 10, y: 10, kind: TowerKind::Basic }, true, false, &mut rng),
        Ok(None)
    );
    assert_eq!(g.money, 95);
    assert_eq!(
        g.apply_net_cmd(NetCmd::Build { x: 10, y: 10, kind: TowerKind::Basic }, true, false, &mut rng),
        Err(CmdError::BuildRefused)
    );
    assert_eq!(
        g.apply_net_cmd(NetCmd::SetTargetMode { x: 10, y: 10, mode: TargetMode::Ultimo }, true, false, &mut rng),
        Ok(None)
    );
    assert_eq!(g.towers[1].target_mode, TargetMode::Ultimo);
    assert_eq!(g.apply_net_cmd(NetCmd::Upgrade { x: 10, y: 10 }, true, false, &mut rng), Ok(None));
    assert_eq!(g.money, 30);
    assert_eq!(g.apply_net_cmd(NetCmd::Upgrade { x: 10, y: 10 }, true, false, &mut rng), Err(CmdError::NotEnoughMoney));
    assert_eq!(g.apply_net_cmd(NetCmd::Sell { x: 10, y: 10 }, true, false, &mut rng), Ok(None));
    assert_eq!(g.money, 50);
    assert_eq!(g.apply_net_cmd(NetCmd::Sell { x: 10, y: 10 }, true, false, &mut rng), Err(CmdError::NoTowerToSell));
}

#[test]
fn early_send_over_the_network_reports_the_bonus() {
    let mut g = new_game(&map_at(0));
    let mut rng = 5u64;
    g.spawn_wave(false, &mut rng);
    let before = g.enemies.len();
    let r = g.apply_net_cmd(NetCmd::StartWave, true, false, &mut rng);
    assert_eq!(r, Ok(Some(9)));
    assert!(g.enemies.len() > before);
    assert_eq!(g.wave, 2);
}

#[test]
fn snapshot_round_trip() {
    let mut host = new_game(&map_at(0));
    let mut rng = 5u64;
    host.spawn_wave(false, &mut rng);
    host.money = 999;
    let snap = host.snapshot();
    let mut peer = new_game(&map_at(0));
    peer.selected_cell = Some((3, 3));
    peer.apply_snapshot(snap);
    assert_eq!(peer.money, 999);
    assert_eq!(peer.enemies, host.enemies);
    assert_eq!(peer.selected_cell, Some((3, 3)));
}

#[test]
fn selling_a_fresh_tower_restores_the_towers() {
    let mut g = new_game(&map_at(0));
    let towers_before: Vec<(u16, u16)> = g.towers.iter().map(|t| (t.x, t.y)).collect();
    let money_before = g.money;
    assert_eq!(g.build_cmd(10, 10, TowerKind::Basic, false), Ok(()));
    assert_eq!(g.towers.len(), towers_before.len() + 1);
    assert_eq!(g.sell_at(10, 10, false), Ok(()));
    let towers_after: Vec<(u16, u16)> = g.towers.iter().map(|t| (t.x, t.y)).collect();
    assert_eq!(towers_after, towers_before);
    let cost = pasta_td::rules::tower_cost(TowerKind::Basic, g.wave);
    assert_eq!(g.money, money_before - cost + 20);
}

#[test]
fn target_modes_cycle_through_eight() {
    let start = TargetMode::Primeiro;
    let mut m = start;
    let mut seen = vec![m];
    for _ in 0..7 {
        m = m.next();
        assert!(!seen.contains(&m));
        seen.push(m);
    }
    assert_eq!(m.next(), start);
}

#[test]
fn speeds_cycle_through_four() {
    let mut g = new_game(&map_at(0));
    assert_eq!(g.speed, 1);
    let mut seen = Vec::new();
    for _ in 0..4 {
        g.cycle_speed();
        seen.push(g.speed);
    }
    assert_eq!(seen, vec![2, 3, 4, 1]);
}

#[test]
fn pausing_twice_restores_running() {
    let mut g = new_game(&map_at(0));
    let r = g.running;
    g.toggle_pause();
    assert_eq!(g.running, !r);
    g.toggle_pause();
    assert_eq!(g.running, r);
}
