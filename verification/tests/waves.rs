use pasta_td::game::{Enemy, GameState};
use pasta_td::kinds::EnemyKind;
use pasta_td::maps::{map_at, new_game};
use pasta_td::sim::{pick_enemy_kind, rand_u32};

fn fresh() -> GameState {
    new_game(&map_at(0))
}

fn enemy(kind: EnemyKind, path_i: usize, hp: i32) -> Enemy {
    Enemy {
        kind,
        path_i,
        hp,
        move_cd: 1,
        slow_ticks: 0,
        slow_percent: 0,
        reward: 5,
        rewarded: false,
        escaped: false,
    }
}

#[test]
fn generator_is_xorshift64_star() {
    let mut rng = 1u64;
    assert_eq!(rand_u32(&mut rng), 1206177355);
    assert_eq!(rng, 33554433);
    let mut rng = 0xC0FFEEu64;
    assert_eq!(rand_u32(&mut rng), 4274354484);
    assert_eq!(rng, 424307384700697);
}

#[test]
fn first_wave_spends_its_budget_of_32() {
    let mut g = fresh();
    let mut rng = 12345u64;
    g.spawn_wave(false, &mut rng);
    let kinds: Vec<EnemyKind> = g.enemies.iter().map(|e| e.kind).collect();
    assert_eq!(
        kinds,
        vec![
            EnemyKind::Swarm,
            EnemyKind::Swarm,
            EnemyKind::Swarm,
            EnemyKind::Swarm,
            EnemyKind::Swarm,
            EnemyKind::Tank,
            EnemyKind::Swarm,
            EnemyKind::Swarm,
            EnemyKind::Runner,
            EnemyKind::Swarm,
        ]
    );
    let cds: Vec<u16> = g.enemies.iter().map(|e| e.move_cd).collect();
    assert_eq!(cds, vec![16, 22, 28, 34, 40, 47, 52, 58, 57, 70]);
    let hps: Vec<i32> = g.enemies.iter().map(|e| e.hp).collect();
    assert_eq!(hps, vec![39, 39, 39, 39, 39, 138, 39, 39, 32, 39]);
    let rewards: Vec<i32> = g.enemies.iter().map(|e| e.reward).collect();
    assert_eq!(rewards, vec![2, 2, 2, 2, 2, 11, 2, 2, 5, 2]);
    assert!(g.enemies.iter().all(|e| e.path_i == 0 && !e.rewarded && !e.escaped));
    assert_eq!(rng, 15965873186313459648);
    assert!(!g.pending_wave_start);
}

#[test]
fn waves_are_reproducible_from_the_seed() {
    let mut a = fresh();
    let mut b = fresh();
    a.wave = 7;
    b.wave = 7;
    let mut ra = 987654321u64;
    let mut rb = 987654321u64;
    a.spawn_wave(false, &mut ra);
    b.spawn_wave(false, &mut rb);
    assert_eq!(a.enemies, b.enemies);
    assert_eq!(ra, rb);
    assert!(a.enemies.len() <= 16);
}

#[test]
fn wave_seven_matches_reference_draws() {
    let mut g = fresh();
    g.wave = 7;
    let mut rng = 12345u64;
    g.spawn_wave(false, &mut rng);
    assert_eq!(g.enemies.len(), 11);
    assert_eq!(g.enemies[0].kind, EnemyKind::Runner);
    assert_eq!(g.enemies[0].hp, 80);
    assert_eq!(g.enemies[1].kind, EnemyKind::Healer);
    assert_eq!(g.enemies[1].move_cd, 21);
    assert_eq!(rng, 1943661173254937613);
}

#[test]
fn pick_kind_uses_one_draw() {
    let mut rng = 12345u64;
    let mut copy = rng;
    let k = pick_enemy_kind(1, &mut rng);
    rand_u32(&mut copy);
    assert_eq!(rng, copy);
    assert!(matches!(k, EnemyKind::Swarm | EnemyKind::Runner | EnemyKind::Tank));
}

#[test]
fn wave_ends_when_no_enemy_is_alive() {
    let mut g = fresh();
    g.tick_economy_and_waves(false);
    assert_eq!(g.wave, 2);
    assert!(g.pending_wave_start);
    assert_eq!(g.prep_ticks, 0);
    g.tick_economy_and_waves(false);
    assert_eq!(g.wave, 2);
    assert_eq!(g.prep_ticks, 1);
    g.enemies.push(enemy(EnemyKind::Swarm, 0, 10));
    g.tick_economy_and_waves(false);
    assert_eq!(g.prep_ticks, 1);
}

#[test]
fn a_lost_match_does_not_advance() {
    let mut g = fresh();
    g.lives = 0;
    g.tick_economy_and_waves(false);
    assert_eq!(g.wave, 1);
    assert!(!g.pending_wave_start);
    g.tick_economy_and_waves(true);
    assert_eq!(g.wave, 2);
}

#[test]
fn early_send_pays_a_bonus_and_appends() {
    let mut g = fresh();
    g.enemies.push(enemy(EnemyKind::Swarm, 3, 10));
    let mut rng = 7u64;
    let bonus = g.start_pending_wave(false, &mut rng);
    assert_eq!(g.wave, 2);
    assert_eq!(bonus, Some(5 + 2 * 2));
    assert_eq!(g.money, 175 + 9);
    assert_eq!(g.enemies[0].path_i, 3);
    assert!(g.enemies.len() > 1);
    // Each new enemy waits 6 ticks more per enemy already on the field.
    assert!(g.enemies[1].move_cd >= 6);
}

#[test]
fn start_without_pending_wave_does_nothing() {
    let mut g = fresh();
    let mut rng = 7u64;
    assert_eq!(g.start_pending_wave(false, &mut rng), None);
    assert_eq!(rng, 7);
    assert!(g.enemies.is_empty());
    g.pending_wave_start = true;
    assert_eq!(g.start_pending_wave(false, &mut rng), None);
    assert!(!g.enemies.is_empty());
    assert!(!g.pending_wave_start);
}

#[test]
fn enemies_walk_and_escape() {
    let mut g = fresh();
    let last = g.path.len() - 1;
    g.enemies.push(enemy(EnemyKind::Swarm, 0, 10));
    g.enemies.push(enemy(EnemyKind::Swarm, last, 10));
    let mut far = enemy(EnemyKind::Runner, 2, 10);
    far.move_cd = 5;
    g.enemies.push(far);
    g.tick_enemies(false);
    assert_eq!(g.enemies[0].path_i, 1);
    assert_eq!(g.enemies[0].move_cd, 16);
    assert!(g.enemies[1].escaped);
    assert_eq!(g.enemies[1].hp, 0);
    assert_eq!(g.lives, 19);
    assert_eq!(g.enemies[2].path_i, 2);
    assert_eq!(g.enemies[2].move_cd, 4);
}

#[test]
fn slowed_enemies_wait_longer() {
    let mut g = fresh();
    g.speed = 4;
    let mut e = enemy(EnemyKind::Swarm, 0, 10);
    e.move_cd = 10;
    e.slow_percent = 50;
    e.slow_ticks = 3;
    g.enemies.push(e);
    g.tick_enemies(false);
    // Pace 4 at half speed is 2.
    assert_eq!(g.enemies[0].move_cd, 8);
    assert_eq!(g.enemies[0].slow_ticks, 2);
}

#[test]
fn healer_heals_neighbours_up_to_base_hit_points() {
    let mut g = fresh();
    g.enemies.push(enemy(EnemyKind::Healer, 0, 50));
    g.enemies.push(enemy(EnemyKind::Swarm, 1, 30));
    g.enemies.push(enemy(EnemyKind::Swarm, 20, 30));
    g.tick_enemies(false);
    // The healer stepped to cell 1 and heals by 8 + wave within one cell.
    assert_eq!(g.enemies[0].path_i, 1);
    assert_eq!(g.enemies[0].hp, 59);
    assert_eq!(g.enemies[1].hp, 39);
    assert_eq!(g.enemies[2].hp, 30);
}

#[test]
fn bounties_are_paid_once() {
    let mut g = fresh();
    let mut dead = enemy(EnemyKind::Swarm, 0, 0);
    dead.reward = 7;
    g.enemies.push(dead);
    let mut gone = enemy(EnemyKind::Swarm, 0, 0);
    gone.escaped = true;
    g.enemies.push(gone);
    let mut rng = 1u64;
    g.tick_enemy_rewards(false, &mut rng);
    assert_eq!(g.money, 182);
    assert!(g.enemies[0].rewarded);
    assert!(!g.enemies[1].rewarded);
    assert_eq!(rng, 33554433);
    g.tick_enemy_rewards(false, &mut rng);
    assert_eq!(g.money, 182);
}

#[test]
fn speed_cycles_one_to_four() {
    let mut g = fresh();
    let mut seen = Vec::new();
    for _ in 0..4 {
        g.cycle_speed();
        seen.push(g.speed);
    }
    assert_eq!(seen, vec![2, 3, 4, 1]);
}

#[test]
fn progress_follows_the_leading_enemy() {
    let mut g = fresh();
    assert_eq!(g.wave_progress_percent(), 0);
    let n = g.path.len();
    g.enemies.push(enemy(EnemyKind::Swarm, (n - 1) / 2, 10));
    g.enemies.push(enemy(EnemyKind::Swarm, n - 1, 0));
    assert_eq!(g.wave_progress_percent(), (((n - 1) / 2) * 100 / (n - 1)) as u16);
}
