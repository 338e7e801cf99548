//! One tick of a match and the player's commands on a running match:
//! enemies walk and heal, waves end and begin, towers are upgraded and sold.
use vstd::prelude::*;

use crate::fx::{plain_entity, spec_spawn, FxData, FxKind, FxManager, FxState, Vec2i};
use crate::game::{covers, enemies_on_path, tower_index_at, towers_in_range, GameState, Enemy};
use crate::geom::{grid_distance, manhattan_spec};
use crate::kinds::{target_mode_rank, EnemyKind, TargetMode, TowerKind};
use crate::rules::{
    apply_slow_resist, eff_wave, early_send_bonus, enemy_budget_cost, enemy_reward_value, enemy_tuning,
    pick_by_roll, spec_apply_slow_resist, spec_early_send_bonus, spec_enemy_budget_cost,
    spec_enemy_reward_value, spec_enemy_tuning, spec_enemy_weights, spec_tower_upgrade_cost,
    tower_upgrade_cost, weights_total, MAX_PRICED_WAVE,
};

verus! {

/// The multiplier of the xorshift64* generator's output.
pub const RNG_MUL: u64 = 0x2545F4914F6CDD1D;

/// The most enemies a wave can join.  A new enemy waits six ticks for each
/// enemy already on the field, and that wait is `u16` arithmetic: with more
/// than about 10900 enemies on the field it no longer fits.
pub const MAX_FIELD_ENEMIES: usize = 10000;

/// One step of the xorshift64* state (shifts 12, 25, 27).
pub open spec fn spec_rng_step(x: u64) -> u64 {
    let a = x ^ (x >> 12u64);
    let b = a ^ (a << 25u64);
    b ^ (b >> 27u64)
}

/// The number drawn from a state: the high half of the state times the
/// multiplier, modulo 2^64.
pub open spec fn spec_rng_output(x: u64) -> u32 {
    (x.wrapping_mul(RNG_MUL) >> 32u64) as u32
}

/// Draws a number from the match's xorshift64* generator.
pub fn rand_u32(rng: &mut u64) -> (r: u32)
    ensures
        *final(rng) == spec_rng_step(*old(rng)),
        r == spec_rng_output(*final(rng)),
{
    let mut x = *rng;
    x = x ^ (x >> 12u64);
    x = x ^ (x << 25u64);
    x = x ^ (x >> 27u64);
    *rng = x;
    (x.wrapping_mul(RNG_MUL) >> 32u64) as u32
}

/// The fields a tick of the simulation never touches are equal.
pub open spec fn same_frame(a: &GameState, b: &GameState) -> bool {
    &&& a.running == b.running
    &&& a.speed == b.speed
    &&& a.grid_w == b.grid_w
    &&& a.grid_h == b.grid_h
    &&& a.selected_cell == b.selected_cell
    &&& a.build_kind == b.build_kind
    &&& a.map_name@ == b.map_name@
    &&& a.pending_build == b.pending_build
    &&& a.path@ == b.path@
}

/// Everything but the fields named by the function's contract is equal.
pub open spec fn same_play(a: &GameState, b: &GameState) -> bool {
    &&& a.money == b.money
    &&& a.lives == b.lives
    &&& a.wave == b.wave
    &&& a.towers@ == b.towers@
    &&& a.projectiles@ == b.projectiles@
    &&& a.fx@ == b.fx@
    &&& a.pending_wave_start == b.pending_wave_start
    &&& a.prep_ticks == b.prep_ticks
}

/// Some enemy is still alive.
pub open spec fn any_alive(enemies: Seq<Enemy>) -> bool {
    exists|i: int| 0 <= i < enemies.len() && (#[trigger] enemies[i]).hp > 0
}

fn any_enemy_alive(enemies: &Vec<Enemy>) -> (b: bool)
    ensures
        b == any_alive(enemies@),
{
    let mut i: usize = 0;
    while i < enemies.len()
        invariant
            i <= enemies@.len(),
            forall|j: int| 0 <= j < i ==> (#[trigger] enemies@[j]).hp <= 0,
        decreases enemies@.len() - i,
    {
        if enemies[i].hp > 0 {
            return true;
        }
        i = i + 1;
    }
    false
}

/// `v + d`, held within the range of `i32`.
pub open spec fn sat_add_i32(v: int, d: int) -> int {
    if v + d > i32::MAX {
        i32::MAX as int
    } else if v + d < i32::MIN {
        i32::MIN as int
    } else {
        v + d
    }
}

/// The speeds the game cycles through: 1, 2, 3, 4, then back to 1.
pub open spec fn spec_next_speed(speed: u8) -> u8 {
    if speed == 1 {
        2
    } else if speed == 2 {
        3
    } else if speed == 3 {
        4
    } else {
        1
    }
}

/// How far the leading live enemy has come along the path, in percent.
pub open spec fn spec_wave_progress(enemies: Seq<Enemy>, path_len: int) -> int {
    let best = lead_progress(enemies, enemies.len() as int);
    let denom = if path_len - 1 >= 1 {
        path_len - 1
    } else {
        1
    };
    let p = best * 100 / denom;
    if p > 100 {
        100
    } else {
        p
    }
}

/// The largest path index among the first `n` live enemies (0 if none).
pub open spec fn lead_progress(enemies: Seq<Enemy>, n: int) -> int
    decreases n,
{
    if n <= 0 {
        0
    } else {
        let b = lead_progress(enemies, n - 1);
        let e = enemies[n - 1];
        if e.hp > 0 && e.path_i as int > b {
            e.path_i as int
        } else {
            b
        }
    }
}

impl GameState {
    /// Ends a wave once no enemy is alive (and the match is not lost): the
    /// wave count goes up and the preparation time starts; while preparing,
    /// the preparation time counts up.
    pub fn tick_economy_and_waves(&mut self, dev_mode: bool)
        requires
            old(self).wave < MAX_PRICED_WAVE,
        ensures
            same_frame(old(self), final(self)),
            final(self).money == old(self).money,
            final(self).lives == old(self).lives,
            final(self).towers@ == old(self).towers@,
            final(self).enemies@ == old(self).enemies@,
            final(self).projectiles@ == old(self).projectiles@,
            final(self).fx@ == old(self).fx@,
            if !any_alive(old(self).enemies@) && (dev_mode || old(self).lives > 0) {
                if !old(self).pending_wave_start {
                    &&& final(self).wave == old(self).wave + 1
                    &&& final(self).pending_wave_start
                    &&& final(self).prep_ticks == 0
                } else {
                    &&& final(self).wave == old(self).wave
                    &&& final(self).pending_wave_start
                    &&& final(self).prep_ticks == if old(self).prep_ticks == u32::MAX {
                        u32::MAX as int
                    } else {
                        old(self).prep_ticks + 1
                    }
                }
            } else {
                &&& final(self).wave == old(self).wave
                &&& final(self).pending_wave_start == old(self).pending_wave_start
                &&& final(self).prep_ticks == old(self).prep_ticks
            },
    {
        let alive = any_enemy_alive(&self.enemies);
        if !alive && (dev_mode || self.lives > 0) {
            if !self.pending_wave_start {
                self.wave = self.wave + 1;
                self.pending_wave_start = true;
                self.prep_ticks = 0;
            } else {
                self.prep_ticks = self.prep_ticks.saturating_add(1);
            }
        }
    }

    /// The next game speed: 1, 2, 3, 4, then back to 1.
    pub fn cycle_speed(&mut self)
        ensures
            final(self).speed == spec_next_speed(old(self).speed),
            final(self).running == old(self).running,
            final(self).grid_w == old(self).grid_w,
            final(self).grid_h == old(self).grid_h,
            final(self).selected_cell == old(self).selected_cell,
            final(self).build_kind == old(self).build_kind,
            final(self).map_name@ == old(self).map_name@,
            final(self).pending_build == old(self).pending_build,
            final(self).path@ == old(self).path@,
            final(self).enemies@ == old(self).enemies@,
            same_play(old(self), final(self)),
            final(self).fx == old(self).fx,
    {
        self.speed = match self.speed {
            1 => 2,
            2 => 3,
            3 => 4,
            _ => 1,
        };
    }

    /// Selects `kind` for building, or clears the selection when `kind` was
    /// selected already; any pending build is dropped.
    pub fn toggle_build_kind(&mut self, kind: TowerKind)
        ensures
            final(self).build_kind == if old(self).build_kind == Some(kind) {
                None
            } else {
                Some(kind)
            },
            final(self).pending_build is None,
            final(self).running == old(self).running,
            final(self).speed == old(self).speed,
            final(self).grid_w == old(self).grid_w,
            final(self).grid_h == old(self).grid_h,
            final(self).selected_cell == old(self).selected_cell,
            final(self).map_name@ == old(self).map_name@,
            final(self).path@ == old(self).path@,
            final(self).enemies@ == old(self).enemies@,
            same_play(old(self), final(self)),
            final(self).fx == old(self).fx,
    {
        self.build_kind = match self.build_kind {
            Some(current) => if current == kind {
                None
            } else {
                Some(kind)
            },
            None => Some(kind),
        };
        self.pending_build = None;
    }

    /// How far the leading live enemy has come along the path, in percent
    /// (0 when none is alive).
    pub fn wave_progress_percent(&self) -> (p: u16)
        requires
            enemies_on_path(self.enemies@, self.path@),
            self.path@.len() <= crate::game::MAX_PATH_LEN,
        ensures
            p == spec_wave_progress(self.enemies@, self.path@.len() as int),
    {
        let path_len: i32 = if self.path.len() >= 1 {
            self.path.len() as i32
        } else {
            1
        };
        let mut best: i32 = 0;
        let mut i: usize = 0;
        while i < self.enemies.len()
            invariant
                i <= self.enemies@.len(),
                enemies_on_path(self.enemies@, self.path@),
                self.path@.len() <= crate::game::MAX_PATH_LEN,
                best == lead_progress(self.enemies@, i as int),
                0 <= best,
                i > 0 ==> best < self.path@.len(),
            decreases self.enemies@.len() - i,
        {
            let e = self.enemies[i];
            if e.hp > 0 && e.path_i as i32 > best {
                best = e.path_i as i32;
            }
            i = i + 1;
        }
        let denom: i32 = if path_len - 1 >= 1 {
            path_len - 1
        } else {
            1
        };
        let p = (best * 100) / denom;
        if p > 100 {
            100
        } else {
            p as u16
        }
    }
}

/// The game speed as a pace: at least 1.
pub open spec fn spec_sp(speed: u8) -> u16 {
    if speed >= 1 {
        speed as u16
    } else {
        1
    }
}

/// How many ticks of an enemy's wait pass this tick: the game pace scaled
/// down by the enemy's slow (after its resistance), at least 1.
pub open spec fn spec_pace(sp: u16, slow: u8, resist: u8) -> int {
    let eff = spec_apply_slow_resist(slow, resist) as int;
    let factor: int = if 100 >= eff {
        100 - eff
    } else {
        0
    };
    let v = (sp as int) * factor / 100;
    if v >= 1 {
        v
    } else {
        1
    }
}

/// The enemy after its slow wears off by one tick (a spent slow is cleared).
pub open spec fn slowed(e: Enemy) -> Enemy {
    if e.slow_ticks > 0 {
        Enemy { slow_ticks: (e.slow_ticks - 1) as u16, ..e }
    } else {
        Enemy { slow_percent: 0, ..e }
    }
}

/// The pace of a live enemy this tick.
pub open spec fn enemy_pace(e: Enemy, sp: u16, wave: i32) -> int {
    spec_pace(sp, slowed(e).slow_percent, spec_enemy_tuning(e.kind, wave).slow_resist)
}

/// The live enemy's wait runs out this tick, so it steps to the next cell.
pub open spec fn takes_step(e: Enemy, sp: u16, wave: i32) -> bool {
    e.hp > 0 && slowed(e).move_cd <= enemy_pace(e, sp, wave)
}

/// The enemy steps off the end of the path this tick.
pub open spec fn escapes(e: Enemy, path_len: int, sp: u16, wave: i32) -> bool {
    takes_step(e, sp, wave) && e.path_i + 1 >= path_len
}

/// An enemy after one tick of walking: its slow wears off, its wait counts
/// down, and when the wait is over it steps on (its wait starts again) or,
/// at the end of the path, escapes with no hit points left. Dead enemies
/// stay as they are.
pub open spec fn spec_walk(e: Enemy, path_len: int, sp: u16, wave: i32) -> Enemy {
    if e.hp <= 0 {
        e
    } else {
        let s = slowed(e);
        let t = spec_enemy_tuning(e.kind, wave);
        if !takes_step(e, sp, wave) {
            Enemy { move_cd: (s.move_cd - enemy_pace(e, sp, wave)) as u16, ..s }
        } else if e.path_i + 1 < path_len {
            Enemy { move_cd: t.move_cd, path_i: (e.path_i + 1) as usize, ..s }
        } else {
            Enemy { move_cd: t.move_cd, hp: 0, escaped: true, ..s }
        }
    }
}

/// The healing pulse a healer sends when it steps onto a cell:
/// `(x, y, radius, amount)`.
pub open spec fn pulse_of(e: Enemy, path: Seq<(u16, u16)>, sp: u16, wave: i32) -> Option<
    (u16, u16, u16, i32),
> {
    let t = spec_enemy_tuning(e.kind, wave);
    if takes_step(e, sp, wave) && e.path_i + 1 < path.len() && e.kind == EnemyKind::Healer
        && t.heal_amount > 0 {
        let c = path[e.path_i + 1];
        Some((c.0, c.1, t.heal_radius, t.heal_amount))
    } else {
        None
    }
}

/// The pulses sent by the first `n` enemies, in order.
pub open spec fn spec_pulses(es: Seq<Enemy>, path: Seq<(u16, u16)>, sp: u16, wave: i32, n: int) -> Seq<
    (u16, u16, u16, i32),
>
    decreases n,
{
    if n <= 0 {
        seq![]
    } else {
        let rest = spec_pulses(es, path, sp, wave, n - 1);
        match pulse_of(es[n - 1], path, sp, wave) {
            Some(p) => rest.push(p),
            None => rest,
        }
    }
}

/// How many of the first `n` enemies escape this tick.
pub open spec fn escape_count(es: Seq<Enemy>, path_len: int, sp: u16, wave: i32, n: int) -> int
    decreases n,
{
    if n <= 0 {
        0
    } else {
        escape_count(es, path_len, sp, wave, n - 1) + if escapes(es[n - 1], path_len, sp, wave) {
            1int
        } else {
            0
        }
    }
}

/// The lives left after `k` escapes: one each (down to the least `i32`),
/// none in developer mode.
pub open spec fn lives_after(lives: i32, k: int, dev_mode: bool) -> int {
    if dev_mode {
        lives as int
    } else if lives - k < i32::MIN {
        i32::MIN as int
    } else {
        lives - k
    }
}

/// A live enemy within the pulse's radius heals by its amount, up to the
/// base hit points of its kind.
pub open spec fn healed(e: Enemy, path: Seq<(u16, u16)>, p: (u16, u16, u16, i32), wave: i32) -> Enemy {
    let c = path[e.path_i as int];
    if e.hp <= 0 || manhattan_spec(p.0, p.1, c.0, c.1) > p.2 {
        e
    } else {
        let max_hp = spec_enemy_tuning(e.kind, wave).base_hp;
        Enemy {
            hp: if e.hp + p.3 < max_hp {
                (e.hp + p.3) as i32
            } else {
                max_hp
            },
            ..e
        }
    }
}

/// The enemies after the pulses, applied in order.
pub open spec fn apply_pulses(
    es: Seq<Enemy>,
    path: Seq<(u16, u16)>,
    ps: Seq<(u16, u16, u16, i32)>,
    wave: i32,
) -> Seq<Enemy>
    decreases ps.len(),
{
    if ps.len() == 0 {
        es
    } else {
        apply_pulses(es, path, ps.drop_last(), wave).map_values(
            |e: Enemy| healed(e, path, ps.last(), wave),
        )
    }
}

/// The enemies after one tick of walking and healing.
pub open spec fn spec_tick_enemies(es: Seq<Enemy>, path: Seq<(u16, u16)>, speed: u8, wave: i32) -> Seq<
    Enemy,
> {
    let sp = spec_sp(speed);
    apply_pulses(
        es.map_values(|e: Enemy| spec_walk(e, path.len() as int, sp, wave)),
        path,
        spec_pulses(es, path, sp, wave, es.len() as int),
        wave,
    )
}

fn walk_enemies(
    enemies: &mut Vec<Enemy>,
    path: &Vec<(u16, u16)>,
    lives: &mut i32,
    sp: u16,
    wave: i32,
    dev_mode: bool,
) -> (pulses: Vec<(u16, u16, u16, i32)>)
    requires
        enemies_on_path(old(enemies)@, path@),
        1 <= sp <= 255,
        wave <= MAX_PRICED_WAVE,
    ensures
        final(enemies)@ == old(enemies)@.map_values(|e: Enemy| spec_walk(e, path@.len() as int, sp, wave)),
        enemies_on_path(final(enemies)@, path@),
        pulses@ == spec_pulses(old(enemies)@, path@, sp, wave, old(enemies)@.len() as int),
        *final(lives) == lives_after(
            *old(lives),
            escape_count(old(enemies)@, path@.len() as int, sp, wave, old(enemies)@.len() as int),
            dev_mode,
        ),
{
    let ghost es0 = enemies@;
    let ghost lives0 = *lives;
    let mut pulses: Vec<(u16, u16, u16, i32)> = Vec::new();
    let mut i: usize = 0;
    while i < enemies.len()
        invariant
            es0 == old(enemies)@,
            lives0 == *old(lives),
            enemies_on_path(es0, path@),
            1 <= sp <= 255,
            wave <= MAX_PRICED_WAVE,
            enemies@.len() == es0.len(),
            i <= es0.len(),
            forall|j: int|
                0 <= j < i ==> #[trigger] enemies@[j] == spec_walk(es0[j], path@.len() as int, sp, wave),
            forall|j: int| i <= j < es0.len() ==> #[trigger] enemies@[j] == es0[j],
            pulses@ == spec_pulses(es0, path@, sp, wave, i as int),
            *lives == lives_after(lives0, escape_count(es0, path@.len() as int, sp, wave, i as int), dev_mode),
        decreases es0.len() - i,
    {
        let e0 = enemies[i];
        assert(e0 == es0[i as int]);
        assert(e0.path_i < path@.len());
        if e0.hp > 0 {
            let mut e = e0;
            if e.slow_ticks > 0 {
                e.slow_ticks = e.slow_ticks - 1;
            } else {
                e.slow_percent = 0;
            }
            let tuning = enemy_tuning(e.kind, wave);
            let effective_slow = apply_slow_resist(e.slow_percent, tuning.slow_resist);
            let slow_factor: u16 = if 100 >= effective_slow as u16 {
                100 - effective_slow as u16
            } else {
                0
            };
            assert(sp as int * slow_factor as int <= 255 * 100) by (nonlinear_arith)
                requires
                    sp <= 255,
                    slow_factor <= 100,
            ;
            let scaled = sp * slow_factor / 100;
            let pace: u16 = if scaled >= 1 {
                scaled
            } else {
                1
            };
            assert(pace == enemy_pace(e0, sp, wave));
            if e.move_cd > pace {
                e.move_cd = e.move_cd - pace;
                enemies.set(i, e);
            } else {
                e.move_cd = tuning.move_cd;
                let plen = path.len();
                assert(e.path_i < plen);
                if e.path_i + 1 < plen {
                    e.path_i = e.path_i + 1;
                    enemies.set(i, e);
                    if e.kind == EnemyKind::Healer && tuning.heal_amount > 0 {
                        let (hx, hy) = path[e.path_i];
                        pulses.push((hx, hy, tuning.heal_radius, tuning.heal_amount));
                    }
                } else {
                    e.hp = 0;
                    e.escaped = true;
                    enemies.set(i, e);
                    if !dev_mode && *lives > i32::MIN {
                        *lives = *lives - 1;
                    }
                }
            }
        }
        assert(enemies@[i as int] == spec_walk(es0[i as int], path@.len() as int, sp, wave));
        i = i + 1;
    }
    assert(enemies@ =~= es0.map_values(|e: Enemy| spec_walk(e, path@.len() as int, sp, wave)));
    pulses
}

fn heal_enemies(
    enemies: &mut Vec<Enemy>,
    path: &Vec<(u16, u16)>,
    pulses: &Vec<(u16, u16, u16, i32)>,
    wave: i32,
)
    requires
        enemies_on_path(old(enemies)@, path@),
        wave <= MAX_PRICED_WAVE,
    ensures
        final(enemies)@ == apply_pulses(old(enemies)@, path@, pulses@, wave),
        enemies_on_path(final(enemies)@, path@),
{
    let ghost es0 = enemies@;
    let mut k: usize = 0;
    while k < pulses.len()
        invariant
            es0 == old(enemies)@,
            wave <= MAX_PRICED_WAVE,
            k <= pulses@.len(),
            enemies@ == apply_pulses(es0, path@, pulses@.take(k as int), wave),
            enemies_on_path(enemies@, path@),
        decreases pulses@.len() - k,
    {
        let (hx, hy, radius, amount) = pulses[k];
        let ghost before = enemies@;
        let mut j: usize = 0;
        while j < enemies.len()
            invariant
                wave <= MAX_PRICED_WAVE,
                enemies@.len() == before.len(),
                enemies_on_path(before, path@),
                j <= before.len(),
                forall|m: int|
                    0 <= m < j ==> #[trigger] enemies@[m] == healed(
                        before[m],
                        path@,
                        (hx, hy, radius, amount),
                        wave,
                    ),
                forall|m: int| j <= m < before.len() ==> #[trigger] enemies@[m] == before[m],
            decreases before.len() - j,
        {
            let e = enemies[j];
            assert(e == before[j as int]);
            if e.hp > 0 {
                let (ex, ey) = path[e.path_i];
                let d = grid_distance(hx, hy, ex, ey);
                if d <= radius as u32 {
                    let max_hp = enemy_tuning(e.kind, wave).base_hp;
                    let sum = e.hp as i64 + amount as i64;
                    let hp: i32 = if sum < max_hp as i64 {
                        sum as i32
                    } else {
                        max_hp
                    };
                    enemies.set(j, Enemy { hp, ..e });
                }
            }
            j = j + 1;
        }
        proof {
            let p = (hx, hy, radius, amount);
            assert(pulses@.take(k + 1).drop_last() =~= pulses@.take(k as int));
            assert(pulses@.take(k + 1).last() == p);
            assert(enemies@ =~= before.map_values(|e: Enemy| healed(e, path@, p, wave)));
        }
        k = k + 1;
    }
    assert(pulses@.take(pulses@.len() as int) =~= pulses@);
}

impl GameState {
    /// One tick of the enemies: each live enemy's slow wears off and its wait
    /// counts down at the game's pace (less its slow); when the wait is over
    /// it steps on, or escapes at the end of the path and costs a life
    /// (not in developer mode). Each healer that stepped then heals the live
    /// enemies around it.
    pub fn tick_enemies(&mut self, dev_mode: bool)
        requires
            old(self).wf(),
        ensures
            final(self).wf(),
            final(self).enemies@ == spec_tick_enemies(
                old(self).enemies@,
                old(self).path@,
                old(self).speed,
                old(self).wave,
            ),
            final(self).lives == lives_after(
                old(self).lives,
                escape_count(
                    old(self).enemies@,
                    old(self).path@.len() as int,
                    spec_sp(old(self).speed),
                    old(self).wave,
                    old(self).enemies@.len() as int,
                ),
                dev_mode,
            ),
            same_frame(old(self), final(self)),
            final(self).money == old(self).money,
            final(self).wave == old(self).wave,
            final(self).towers@ == old(self).towers@,
            final(self).projectiles@ == old(self).projectiles@,
            final(self).fx@ == old(self).fx@,
            final(self).pending_wave_start == old(self).pending_wave_start,
            final(self).prep_ticks == old(self).prep_ticks,
    {
        let sp: u16 = if self.speed >= 1 {
            self.speed as u16
        } else {
            1
        };
        let wave = self.wave;
        let pulses = walk_enemies(&mut self.enemies, &self.path, &mut self.lives, sp, wave, dev_mode);
        heal_enemies(&mut self.enemies, &self.path, &pulses, wave);
    }
}

/// The kind a wave draws with the generator state `rng_after` (the state
/// after the draw's step).
pub open spec fn spec_pick_kind(wave: i32, rng_after: u64) -> EnemyKind {
    let ws = spec_enemy_weights(wave);
    pick_by_roll(ws, (spec_rng_output(rng_after) as int) % weights_total(ws))
}

/// Draws the kind of the next enemy of `wave`, weighted by
/// `spec_enemy_weights`.
pub fn pick_enemy_kind(wave: i32, rng: &mut u64) -> (k: EnemyKind)
    requires
        wave <= MAX_PRICED_WAVE,
    ensures
        *final(rng) == spec_rng_step(*old(rng)),
        k == spec_pick_kind(wave, *final(rng)),
{
    let w: u32 = if wave >= 1 {
        wave as u32
    } else {
        1
    };
    let mut weights: Vec<(EnemyKind, u32)> = Vec::new();
    weights.push((EnemyKind::Swarm, 6 + w / 2));
    weights.push((EnemyKind::Runner, 4 + w / 3));
    weights.push((EnemyKind::Tank, 1 + w / 5));
    if w >= 5 {
        weights.push((EnemyKind::Healer, 2 + w / 6));
    }
    if w >= 8 {
        weights.push((EnemyKind::Shielded, 2 + w / 7));
    }
    if w >= 10 {
        weights.push((EnemyKind::Sneak, 2 + w / 8));
    }
    let ghost ws = spec_enemy_weights(wave);
    assert(weights@ =~= ws);
    let mut total: u32 = 0;
    let mut i: usize = 0;
    while i < weights.len()
        invariant
            weights@ == ws,
            ws.len() <= 6,
            i <= ws.len(),
            w <= MAX_PRICED_WAVE,
            forall|j: int| 0 <= j < ws.len() ==> (#[trigger] ws[j]).1 <= 5_000_006,
            ws.len() >= 1 && ws[0].1 >= 6,
            total == weights_total(ws.take(i as int)),
            total <= i * 5_000_006,
            i >= 1 ==> total >= 6,
        decreases ws.len() - i,
    {
        assert(ws.take(i + 1).drop_last() =~= ws.take(i as int));
        total = total + weights[i].1;
        i = i + 1;
    }
    assert(ws.take(ws.len() as int) =~= ws);
    let r = rand_u32(rng);
    let roll0 = r % total;
    let mut roll = roll0;
    let mut i: usize = 0;
    while i < weights.len()
        invariant
            weights@ == ws,
            ws == spec_enemy_weights(wave),
            *rng == spec_rng_step(*old(rng)),
            roll0 as int == (spec_rng_output(*rng) as int) % weights_total(ws),
            i <= ws.len(),
            pick_by_roll(ws, roll0 as int) == pick_by_roll(ws.skip(i as int), roll as int),
        decreases ws.len() - i,
    {
        let (kind, weight) = weights[i];
        assert(ws.skip(i as int)[0] == ws[i as int]);
        if roll < weight {
            return kind;
        }
        roll = roll - weight;
        assert(ws.skip(i as int).drop_first() =~= ws.skip(i + 1));
        i = i + 1;
    }
    assert(ws.skip(ws.len() as int) =~= Seq::<(EnemyKind, u32)>::empty());
    EnemyKind::Swarm
}

/// At most this many enemies in a wave (9 plus the wave number, within
/// 9..=28).
pub open spec fn spawn_limit(wave: i32) -> int {
    let n = 9 + eff_wave(wave);
    if n > 28 {
        28
    } else {
        n
    }
}

/// A wave's budget: 20 plus 12 per wave.
pub open spec fn spawn_budget(wave: i32) -> int {
    20 + eff_wave(wave) * 12
}

/// A fresh enemy of `kind` at the start of the path, waiting its pace plus
/// `stagger` ticks.
pub open spec fn fresh_enemy(kind: EnemyKind, wave: i32, reward: int, stagger: int) -> Enemy {
    let t = spec_enemy_tuning(kind, wave);
    Enemy {
        kind,
        path_i: 0,
        hp: t.base_hp,
        move_cd: (t.move_cd + stagger) as u16,
        slow_ticks: 0,
        slow_percent: 0,
        reward: reward as i32,
        rewarded: false,
        escaped: false,
    }
}

/// One draw of a wave with the generator state after the draw's step: the
/// enemy and its cost, or nothing when not even a swarm fits the budget
/// left. A kind too dear for the budget is replaced by a swarm; the enemy
/// waits 6 ticks more than the one before (at most 60 more than the
/// first), after `base`.
pub open spec fn batch_step(wave: i32, budget: int, spawned: int, r1: u64, base: int) -> Option<
    (Enemy, int),
> {
    let k0 = spec_pick_kind(wave, r1);
    let c0 = spec_enemy_budget_cost(k0, spec_enemy_tuning(k0, wave));
    let kind = if c0 > budget {
        EnemyKind::Swarm
    } else {
        k0
    };
    let cost = spec_enemy_budget_cost(kind, spec_enemy_tuning(kind, wave));
    if cost > budget {
        None
    } else {
        let stagger = base + if spawned * 6 <= 60 {
            spawned * 6
        } else {
            60
        };
        Some((fresh_enemy(kind, wave, spec_enemy_reward_value(cost as i32, wave), stagger), cost))
    }
}

/// The enemies a wave adds while budget is left and the count is below
/// the limit, with the generator's final state (see `batch_step`).
pub open spec fn wave_batch(wave: i32, budget: int, spawned: int, max: int, rng: u64, base: int) -> (
    Seq<Enemy>,
    u64,
)
    decreases max - spawned,
{
    if budget <= 0 || spawned >= max {
        (seq![], rng)
    } else {
        let r1 = spec_rng_step(rng);
        match batch_step(wave, budget, spawned, r1, base) {
            None => (seq![], r1),
            Some((e, cost)) => {
                let (rest, r) = wave_batch(wave, budget - cost, spawned + 1, max, r1, base);
                (seq![e] + rest, r)
            },
        }
    }
}

proof fn lemma_batch_at_start(wave: i32, budget: int, spawned: int, max: int, rng: u64, base: int)
    ensures
        forall|i: int|
            0 <= i < wave_batch(wave, budget, spawned, max, rng, base).0.len() ==> (#[trigger] wave_batch(
                wave,
                budget,
                spawned,
                max,
                rng,
                base,
            ).0[i]).path_i == 0,
    decreases max - spawned,
{
    if budget <= 0 || spawned >= max {
    } else {
        let r1 = spec_rng_step(rng);
        match batch_step(wave, budget, spawned, r1, base) {
            None => {},
            Some((e, cost)) => {
                lemma_batch_at_start(wave, budget - cost, spawned + 1, max, r1, base);
            },
        }
    }
}

fn draw_enemy(rng: &mut u64, wave: i32, budget: i32, spawned: usize, base: u16) -> (r: Option<(Enemy, i32)>)
    requires
        1 <= wave <= MAX_PRICED_WAVE,
        spawned <= 28,
        base <= 60000,
    ensures
        *final(rng) == spec_rng_step(*old(rng)),
        match r {
            None => batch_step(wave, budget as int, spawned as int, *final(rng), base as int) is None,
            Some((e, c)) => batch_step(wave, budget as int, spawned as int, *final(rng), base as int)
                == Some((e, c as int)) && c >= 1,
        },
{
    let mut kind = pick_enemy_kind(wave, rng);
    let mut tuning = enemy_tuning(kind, wave);
    let mut cost = enemy_budget_cost(kind, tuning);
    if cost > budget {
        kind = EnemyKind::Swarm;
        tuning = enemy_tuning(kind, wave);
        cost = enemy_budget_cost(kind, tuning);
        if cost > budget {
            return None;
        }
    }
    let reward = enemy_reward_value(cost, wave);
    let extra: u16 = if spawned * 6 <= 60 {
        spawned as u16 * 6
    } else {
        60
    };
    let stagger = base + extra;
    Some(
        (
            Enemy {
                kind,
                path_i: 0,
                hp: tuning.base_hp,
                move_cd: tuning.move_cd + stagger,
                slow_ticks: 0,
                slow_percent: 0,
                reward,
                rewarded: false,
                escaped: false,
            },
            cost,
        ),
    )
}

/// The wave number as the spawner uses it: at least 1.
pub open spec fn wave_at_least_one(wave: i32) -> i32 {
    if wave >= 1 {
        wave
    } else {
        1
    }
}

/// The enemies of a new wave appended after `existing` enemies, with the
/// generator's final state.
pub open spec fn spec_new_wave(wave: i32, existing: int, rng: u64) -> (Seq<Enemy>, u64) {
    let w = wave_at_least_one(wave);
    wave_batch(w, spawn_budget(w), 0, spawn_limit(w), rng, existing * 6)
}

fn spawn_batch(enemies: &mut Vec<Enemy>, rng: &mut u64, wave: i32)
    requires
        1 <= wave <= MAX_PRICED_WAVE,
        old(enemies)@.len() <= MAX_FIELD_ENEMIES,
    ensures
        final(enemies)@ == old(enemies)@ + spec_new_wave(wave, old(enemies)@.len() as int, *old(rng)).0,
        *final(rng) == spec_new_wave(wave, old(enemies)@.len() as int, *old(rng)).1,
{
    let ghost es0 = enemies@;
    let ghost rng0 = *rng;
    let max_enemies: usize = if 9 + wave > 28 {
        28
    } else {
        (9 + wave) as usize
    };
    let mut budget: i32 = 20 + wave * 12;
    let base_stagger: u16 = enemies.len() as u16 * 6;
    let ghost whole = wave_batch(wave, budget as int, 0, max_enemies as int, rng0, base_stagger as int);
    let mut spawned: usize = 0;
    let mut attempts: usize = 0;
    while budget > 0 && spawned < max_enemies && attempts < 100
        invariant
            es0 == old(enemies)@,
            rng0 == *old(rng),
            1 <= wave <= MAX_PRICED_WAVE,
            es0.len() <= MAX_FIELD_ENEMIES,
            base_stagger == es0.len() * 6,
            max_enemies <= 28,
            max_enemies == spawn_limit(wave),
            spawned <= max_enemies,
            attempts == spawned,
            budget <= 20 + wave * 12,
            enemies@.len() == es0.len() + spawned,
            enemies@.subrange(0, es0.len() as int) == es0,
            whole == spec_new_wave(wave, es0.len() as int, rng0),
            whole.0 == enemies@.subrange(es0.len() as int, enemies@.len() as int) + wave_batch(
                wave,
                budget as int,
                spawned as int,
                max_enemies as int,
                *rng,
                base_stagger as int,
            ).0,
            whole.1 == wave_batch(
                wave,
                budget as int,
                spawned as int,
                max_enemies as int,
                *rng,
                base_stagger as int,
            ).1,
        decreases max_enemies - spawned,
    {
        let ghost rng_before = *rng;
        let ghost budget_before = budget;
        let ghost before = enemies@;
        let drawn = draw_enemy(rng, wave, budget, spawned, base_stagger);
        match drawn {
            None => {
                proof {
                    assert(wave_batch(
                        wave,
                        budget as int,
                        spawned as int,
                        max_enemies as int,
                        rng_before,
                        base_stagger as int,
                    ) == (Seq::<Enemy>::empty(), *rng));
                    let now = enemies@.subrange(es0.len() as int, enemies@.len() as int);
                    assert(now + Seq::<Enemy>::empty() =~= now);
                    assert(enemies@ =~= es0 + now);
                }
                return;
            },
            Some((e, cost)) => {
                enemies.push(e);
                budget = budget - cost;
                spawned = spawned + 1;
                attempts = attempts + 1;
                proof {
                    let prev = before.subrange(es0.len() as int, before.len() as int);
                    let now = enemies@.subrange(es0.len() as int, enemies@.len() as int);
                    assert(now =~= prev.push(e));
                    let rest = wave_batch(
                        wave,
                        budget as int,
                        spawned as int,
                        max_enemies as int,
                        *rng,
                        base_stagger as int,
                    );
                    assert(wave_batch(
                        wave,
                        budget_before as int,
                        (spawned - 1) as int,
                        max_enemies as int,
                        rng_before,
                        base_stagger as int,
                    ) == (seq![e] + rest.0, rest.1));
                    assert(prev + (seq![e] + rest.0) =~= now + rest.0);
                    assert(enemies@.subrange(0, es0.len() as int) =~= es0);
                }
            },
        }
    }
    proof {
        let now = enemies@.subrange(es0.len() as int, enemies@.len() as int);
        assert(now + Seq::<Enemy>::empty() =~= now);
        assert(enemies@ =~= es0 + now);
    }
}

impl GameState {
    /// Sends the next wave: unless appended to the enemies already on the
    /// field, enemies, projectiles and effects are cleared first; the
    /// preparation time ends, and the wave's enemies are drawn within its
    /// budget (see `wave_batch`).
    pub fn spawn_wave(&mut self, append: bool, rng: &mut u64)
        requires
            old(self).wf(),
            old(self).path@.len() >= 1,
            append ==> old(self).enemies@.len() <= MAX_FIELD_ENEMIES,
        ensures
            final(self).wf(),
            ({
                let existing = if append {
                    old(self).enemies@
                } else {
                    Seq::<Enemy>::empty()
                };
                let batch = spec_new_wave(old(self).wave, existing.len() as int, *old(rng));
                &&& final(self).enemies@ == existing + batch.0
                &&& *final(rng) == batch.1
            }),
            final(self).projectiles@ == if append {
                old(self).projectiles@
            } else {
                Seq::empty()
            },
            append ==> final(self).fx@ == old(self).fx@,
            !append ==> final(self).fx@.slots == Seq::new(
                crate::fx::MAX_FX_ACTIVE as nat,
                |i: int| None::<crate::fx::FxEntity>,
            ),
            !final(self).pending_wave_start,
            final(self).prep_ticks == 0,
            same_frame(old(self), final(self)),
            final(self).money == old(self).money,
            final(self).lives == old(self).lives,
            final(self).wave == old(self).wave,
            final(self).towers@ == old(self).towers@,
    {
        let wave: i32 = if self.wave >= 1 {
            self.wave
        } else {
            1
        };
        if !append {
            self.enemies.clear();
            self.projectiles.clear();
            self.fx.clear();
        }
        self.pending_wave_start = false;
        self.prep_ticks = 0;
        let ghost before = self.enemies@;
        let ghost rng0 = *rng;
        spawn_batch(&mut self.enemies, rng, wave);
        proof {
            let w = wave_at_least_one(wave);
            lemma_batch_at_start(
                w,
                spawn_budget(w),
                0,
                spawn_limit(w),
                rng0,
                before.len() as int * 6,
            );
            assert forall|i: int| 0 <= i < self.enemies@.len() implies (
            #[trigger] self.enemies@[i]).path_i < self.path@.len() by {
                if i >= before.len() {
                    assert(self.enemies@[i] == spec_new_wave(wave, before.len() as int, rng0).0[i
                        - before.len()]);
                }
            }
        }
    }
}

/// The state after `n` steps of the generator.
pub open spec fn rng_iter(x: u64, n: nat) -> u64
    decreases n,
{
    if n == 0 {
        x
    } else {
        spec_rng_step(rng_iter(x, (n - 1) as nat))
    }
}

/// The enemy died (it did not escape) and its bounty is not paid yet.
pub open spec fn claimable(e: Enemy) -> bool {
    e.hp <= 0 && !e.rewarded && !e.escaped
}

/// The enemy with its bounty marked paid, if it was due.
pub open spec fn claimed(e: Enemy) -> Enemy {
    if claimable(e) {
        Enemy { rewarded: true, ..e }
    } else {
        e
    }
}

/// The positive bounties due among the first `n` enemies (none are paid in
/// developer mode).
pub open spec fn bounty_total(es: Seq<Enemy>, n: int, dev_mode: bool) -> int
    decreases n,
{
    if n <= 0 {
        0
    } else {
        bounty_total(es, n - 1, dev_mode) + if claimable(es[n - 1]) && !dev_mode && es[n - 1].reward
            > 0 {
            es[n - 1].reward as int
        } else {
            0
        }
    }
}

/// How many of the first `n` enemies have a bounty due.
pub open spec fn claim_count(es: Seq<Enemy>, n: int) -> nat
    decreases n,
{
    if n <= 0 {
        0
    } else {
        claim_count(es, n - 1) + if claimable(es[n - 1]) {
            1nat
        } else {
            0
        }
    }
}

/// `v + d` for `d >= 0`, held at the greatest `i32`.
pub open spec fn add_capped(v: int, d: int) -> int {
    if v + d > i32::MAX {
        i32::MAX as int
    } else {
        v + d
    }
}

fn sat_add(v: i32, d: i32) -> (r: i32)
    ensures
        r == sat_add_i32(v as int, d as int),
{
    let sum = v as i64 + d as i64;
    if sum > i32::MAX as i64 {
        i32::MAX
    } else if sum < i32::MIN as i64 {
        i32::MIN
    } else {
        sum as i32
    }
}

/// The effects after the death of each enemy among the first `n` whose
/// bounty is claimed now, shown on its path cell and seeded by consecutive
/// draws from `rng`; a death may take the slot of a less important effect.
pub open spec fn deaths_shown(st: FxState, es: Seq<Enemy>, path: Seq<(u16, u16)>, rng: u64, n: int) -> FxState
    decreases n,
{
    if n <= 0 {
        st
    } else {
        let prev = deaths_shown(st, es, path, rng, n - 1);
        let e = es[n - 1];
        if claimable(e) {
            let c = path[e.path_i as int];
            spec_spawn(
                prev,
                plain_entity(
                    FxKind::EnemyDeath,
                    Vec2i { x: c.0 as i16, y: c.1 as i16 },
                    4,
                    60,
                    spec_rng_output(rng_iter(rng, claim_count(es, n - 1) + 1)),
                    FxData::EnemyDeath { kind: e.kind },
                ),
                true,
            ).0
        } else {
            prev
        }
    }
}

fn pay_bounties(
    enemies: &mut Vec<Enemy>,
    path: &Vec<(u16, u16)>,
    money: &mut i32,
    fx: &mut FxManager,
    rng: &mut u64,
    dev_mode: bool,
)
    requires
        enemies_on_path(old(enemies)@, path@),
        old(fx).wf(),
    ensures
        final(enemies)@ == old(enemies)@.map_values(|e: Enemy| claimed(e)),
        *final(money) == add_capped(
            *old(money) as int,
            bounty_total(old(enemies)@, old(enemies)@.len() as int, dev_mode),
        ),
        *final(rng) == rng_iter(*old(rng), claim_count(old(enemies)@, old(enemies)@.len() as int)),
        final(fx).wf(),
        final(fx)@ == deaths_shown(old(fx)@, old(enemies)@, path@, *old(rng), old(enemies)@.len() as int),
{
    let ghost fx0 = fx@;
    let ghost es0 = enemies@;
    let ghost money0 = *money;
    let ghost rng0 = *rng;
    let mut i: usize = 0;
    while i < enemies.len()
        invariant
            es0 == old(enemies)@,
            money0 == *old(money),
            rng0 == *old(rng),
            enemies_on_path(es0, path@),
            fx.wf(),
            enemies@.len() == es0.len(),
            i <= es0.len(),
            forall|j: int| 0 <= j < i ==> #[trigger] enemies@[j] == claimed(es0[j]),
            forall|j: int| i <= j < es0.len() ==> #[trigger] enemies@[j] == es0[j],
            bounty_total(es0, i as int, dev_mode) >= 0,
            *money == add_capped(money0 as int, bounty_total(es0, i as int, dev_mode)),
            *rng == rng_iter(rng0, claim_count(es0, i as int)),
            fx0 == old(fx)@,
            fx@ == deaths_shown(fx0, es0, path@, rng0, i as int),
        decreases es0.len() - i,
    {
        let e = enemies[i];
        assert(e == es0[i as int]);
        if e.hp <= 0 && !e.rewarded && !e.escaped {
            enemies.set(i, Enemy { rewarded: true, ..e });
            if !dev_mode && e.reward > 0 {
                *money = sat_add(*money, e.reward);
            }
            if e.path_i < path.len() {
                let (px, py) = path[e.path_i];
                let seed = rand_u32(rng);
                fx.spawn_enemy_death(Vec2i::new(px as i16, py as i16), e.kind, seed);
            }
        }
        i = i + 1;
    }
    assert(enemies@ =~= es0.map_values(|e: Enemy| claimed(e)));
}

/// What sending the next wave does (see `GameState::start_pending_wave`).
pub open spec fn start_wave_outcome(
    a: &GameState,
    b: &GameState,
    dev_mode: bool,
    rng0: u64,
    rng1: u64,
    bonus: Option<i32>,
) -> bool {
    if any_alive(a.enemies@) {
        let w = spec_early_send_bonus((a.wave + 1) as i32);
        let batch = spec_new_wave((a.wave + 1) as i32, a.enemies@.len() as int, rng0);
        &&& b.wave == a.wave + 1
        &&& bonus == if dev_mode {
            None::<i32>
        } else {
            Some(w as i32)
        }
        &&& b.money == if dev_mode {
            a.money as int
        } else {
            sat_add_i32(a.money as int, w)
        }
        &&& b.enemies@ == a.enemies@ + batch.0
        &&& rng1 == batch.1
        &&& b.projectiles@ == a.projectiles@
        &&& b.fx@ == a.fx@
        &&& !b.pending_wave_start
        &&& b.prep_ticks == 0
    } else if a.pending_wave_start {
        let batch = spec_new_wave(a.wave, 0, rng0);
        &&& b.wave == a.wave
        &&& bonus is None
        &&& b.money == a.money
        &&& b.enemies@ == batch.0
        &&& rng1 == batch.1
        &&& b.projectiles@.len() == 0
        &&& b.fx@.slots == Seq::new(crate::fx::MAX_FX_ACTIVE as nat, |i: int| None::<crate::fx::FxEntity>)
        &&& !b.pending_wave_start
        &&& b.prep_ticks == 0
    } else {
        &&& bonus is None
        &&& b.wave == a.wave
        &&& b.money == a.money
        &&& b.enemies@ == a.enemies@
        &&& rng1 == rng0
        &&& b.projectiles@ == a.projectiles@
        &&& b.fx@ == a.fx@
        &&& b.pending_wave_start == a.pending_wave_start
        &&& b.prep_ticks == a.prep_ticks
    }
}

impl GameState {
    /// Pays the bounty of each enemy killed since the last tick (not in
    /// developer mode; the money is held at the greatest `i32`) and shows
    /// its death; each death draws one number from the generator.
    pub fn tick_enemy_rewards(&mut self, dev_mode: bool, rng: &mut u64)
        requires
            old(self).wf(),
        ensures
            final(self).wf(),
            final(self).enemies@ == old(self).enemies@.map_values(|e: Enemy| claimed(e)),
            final(self).money == add_capped(
                old(self).money as int,
                bounty_total(old(self).enemies@, old(self).enemies@.len() as int, dev_mode),
            ),
            *final(rng) == rng_iter(
                *old(rng),
                claim_count(old(self).enemies@, old(self).enemies@.len() as int),
            ),
            final(self).fx@ == deaths_shown(
                old(self).fx@,
                old(self).enemies@,
                old(self).path@,
                *old(rng),
                old(self).enemies@.len() as int,
            ),
            same_frame(old(self), final(self)),
            final(self).lives == old(self).lives,
            final(self).wave == old(self).wave,
            final(self).towers@ == old(self).towers@,
            final(self).projectiles@ == old(self).projectiles@,
            final(self).pending_wave_start == old(self).pending_wave_start,
            final(self).prep_ticks == old(self).prep_ticks,
    {
        pay_bounties(&mut self.enemies, &self.path, &mut self.money, &mut self.fx, rng, dev_mode);
    }

    /// Sends the next wave. While enemies are still alive this is an early
    /// send: the wave count goes up, the early-send bonus is paid (not in
    /// developer mode; the bonus is returned for display) and the new wave
    /// joins the enemies on the field. Otherwise, once the last wave is
    /// over, the prepared wave starts on a cleared field.
    pub fn start_pending_wave(&mut self, dev_mode: bool, rng: &mut u64) -> (bonus: Option<i32>)
        requires
            old(self).wf(),
            old(self).path@.len() >= 1,
            old(self).enemies@.len() <= MAX_FIELD_ENEMIES,
            old(self).wave < MAX_PRICED_WAVE,
        ensures
            final(self).wf(),
            same_frame(old(self), final(self)),
            final(self).lives == old(self).lives,
            final(self).towers@ == old(self).towers@,
            start_wave_outcome(old(self), final(self), dev_mode, *old(rng), *final(rng), bonus),
    {
        let alive = any_enemy_alive(&self.enemies);
        if alive {
            self.wave = self.wave + 1;
            let b = early_send_bonus(self.wave);
            let mut shown: Option<i32> = None;
            if !dev_mode {
                self.money = sat_add(self.money, b);
                shown = Some(b);
            }
            self.spawn_wave(true, rng);
            shown
        } else if self.pending_wave_start {
            self.spawn_wave(false, rng);
            None
        } else {
            None
        }
    }
}


/// Cycling the speed four times brings any speed of 1 to 4 back, and
/// passes through every other speed on the way.
pub proof fn lemma_speed_cycle(speed: u8)
    requires
        1 <= speed <= 4,
    ensures
        spec_next_speed(spec_next_speed(spec_next_speed(spec_next_speed(speed)))) == speed,
        spec_next_speed(speed) != speed,
        spec_next_speed(spec_next_speed(speed)) != speed,
        spec_next_speed(spec_next_speed(spec_next_speed(speed))) != speed,
{
}


proof fn lemma_batch_len(wave: i32, budget: int, spawned: int, max: int, rng: u64, base: int)
    requires
        spawned <= max,
    ensures
        wave_batch(wave, budget, spawned, max, rng, base).0.len() <= max - spawned,
    decreases max - spawned,
{
    if budget <= 0 || spawned >= max {
    } else {
        let r1 = spec_rng_step(rng);
        match batch_step(wave, budget, spawned, r1, base) {
            None => {},
            Some((e, cost)) => {
                lemma_batch_len(wave, budget - cost, spawned + 1, max, r1, base);
            },
        }
    }
}

/// A new wave never brings more enemies than its limit (nine more than
/// the wave, at most 28), and all of them start at the path's first cell.
pub proof fn lemma_new_wave_bounded(wave: i32, existing: int, rng: u64)
    ensures
        spec_new_wave(wave, existing, rng).0.len() <= spawn_limit(wave_at_least_one(wave)),
        spawn_limit(wave_at_least_one(wave)) <= 28,
        forall|i: int|
            0 <= i < spec_new_wave(wave, existing, rng).0.len() ==> (#[trigger] spec_new_wave(
                wave,
                existing,
                rng,
            ).0[i]).path_i == 0,
{
    let w = wave_at_least_one(wave);
    lemma_batch_len(w, spawn_budget(w), 0, spawn_limit(w), rng, existing * 6);
    lemma_batch_at_start(w, spawn_budget(w), 0, spawn_limit(w), rng, existing * 6);
}

} // verus!
