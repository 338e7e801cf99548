//! Towers firing and projectiles flying: what one tick of combat does to
//! the towers, the enemies and the shots in flight.
use vstd::prelude::*;

use crate::fx::{sign, spec_despawn, spec_move_projectile, FxManager, FxState, Vec2i};
use crate::game::{
    acquire_target, enemies_on_path, enemy_index_at, enemy_on, scorable, spec_acquire_target,
    tower_stats, GameState, Projectile, Tower, Enemy, MAX_PATH_LEN,
};
use crate::kinds::{EnemyKind, TowerKind};
use crate::net_msg::FxEvent;
use crate::rules::{
    apply_damage_resist, enemy_tuning, frost_slow, projectile_step_cd, spec_apply_damage_resist,
    spec_enemy_tuning, spec_frost_slow, spec_projectile_step_cd, spec_tower_stats, MAX_PRICED_WAVE,
};
use crate::sim::{same_frame, spec_sp};

verus! {

/// The effects a host records for its peers; nothing is recorded unless
/// `record` is set.
pub struct FxLog {
    pub record: bool,
    pub events: Vec<FxEvent>,
}

impl FxLog {
    /// Records `e` when recording.
    pub fn queue(&mut self, e: FxEvent)
        ensures
            final(self).record == old(self).record,
            final(self).events@ == if old(self).record {
                old(self).events@.push(e)
            } else {
                old(self).events@
            },
    {
        if self.record {
            self.events.push(e);
        }
    }
}

/// What a tower did this tick.
#[derive(Debug, Clone, Copy, PartialEq, Eq, Structural)]
pub enum TowerFire {
    /// Nothing to shoot at, or still cooling down.
    Idle,
    /// A tesla tower's beam hit the enemy on `(to_x, to_y)` for `damage`;
    /// the chain to nearby enemies is still to come.
    Beam { from_x: u16, from_y: u16, to_x: u16, to_y: u16, damage: i32, level: u8 },
    /// A shot is to be launched.
    Shot { from_x: u16, from_y: u16, to_x: u16, to_y: u16, damage: i32, kind: TowerKind, level: u8 },
}

/// Coordinates small enough for distances and directions to be exact.
pub open spec fn cell_small(c: (u16, u16)) -> bool {
    c.0 <= 30000 && c.1 <= 30000
}

/// The state combat runs on: well formed, the enemies scorable, and the
/// path and towers on coordinates up to 30000.
pub open spec fn combat_ready(g: &GameState) -> bool {
    &&& g.wf()
    &&& scorable(g.enemies@, g.path@)
    &&& forall|i: int| 0 <= i < g.path@.len() ==> cell_small(#[trigger] g.path@[i])
    &&& forall|i: int| 0 <= i < g.towers@.len() ==> cell_small(((#[trigger] g.towers@[i]).x, g.towers@[i].y))
    &&& forall|i: int| 0 <= i < g.projectiles@.len() ==> proj_ok(#[trigger] g.projectiles@[i])
}

/// The cell is on coordinates up to 30000.
pub open spec fn small(x: u16, y: u16) -> bool {
    x <= 30000 && y <= 30000
}

/// The hits landed on cells of coordinates up to 30000.
pub open spec fn hits_small(hs: Seq<Hit>) -> bool {
    forall|k: int| 0 <= k < hs.len() ==> small((#[trigger] hs[k]).x, hs[k].y)
}

/// A projectile between cells of coordinates 0..=30000, with damage at
/// least 0.
pub open spec fn proj_ok(p: Projectile) -> bool {
    &&& 0 <= p.x <= 30000
    &&& 0 <= p.y <= 30000
    &&& 0 <= p.tx <= 30000
    &&& 0 <= p.ty <= 30000
    &&& p.damage >= 0
}

/// `i` is the first live enemy standing on `(x, y)`.
pub open spec fn first_enemy_on(es: Seq<Enemy>, path: Seq<(u16, u16)>, x: u16, y: u16, i: int) -> bool {
    0 <= i < es.len() && enemy_on(es[i], path, x, y) && forall|j: int|
        0 <= j < i ==> !enemy_on(#[trigger] es[j], path, x, y)
}

/// The first live enemy standing on `(x, y)`.
pub open spec fn enemy_at(es: Seq<Enemy>, path: Seq<(u16, u16)>, x: u16, y: u16) -> Option<int> {
    if exists|i: int| first_enemy_on(es, path, x, y, i) {
        Some(choose|i: int| first_enemy_on(es, path, x, y, i))
    } else {
        None
    }
}

proof fn lemma_first_enemy_unique(es: Seq<Enemy>, path: Seq<(u16, u16)>, x: u16, y: u16, i: int, k: int)
    requires
        first_enemy_on(es, path, x, y, i),
        first_enemy_on(es, path, x, y, k),
    ensures
        i == k,
{
    if i < k {
        assert(!enemy_on(es[i], path, x, y));
    } else if k < i {
        assert(!enemy_on(es[k], path, x, y));
    }
}

/// The first live enemy on `(x, y)`.
pub fn find_enemy(enemies: &Vec<Enemy>, path: &Vec<(u16, u16)>, x: u16, y: u16) -> (r: Option<usize>)
    requires
        enemies_on_path(enemies@, path@),
    ensures
        match r {
            Some(i) => enemy_at(enemies@, path@, x, y) == Some(i as int),
            None => enemy_at(enemies@, path@, x, y) is None,
        },
{
    let r = enemy_index_at(enemies, path, x, y);
    proof {
        match r {
            Some(i) => {
                assert(first_enemy_on(enemies@, path@, x, y, i as int));
                let k = choose|k: int| first_enemy_on(enemies@, path@, x, y, k);
                lemma_first_enemy_unique(enemies@, path@, x, y, i as int, k);
            },
            None => {
                assert forall|i: int| !first_enemy_on(enemies@, path@, x, y, i) by {
                    if 0 <= i < enemies@.len() {
                        assert(!enemy_on(enemies@[i], path@, x, y));
                    }
                }
            },
        }
    }
    r
}

/// The enemy after taking `dmg` damage (hit points stop at 0).
pub open spec fn struck(e: Enemy, dmg: int) -> Enemy {
    Enemy {
        hp: if e.hp - dmg < 0 {
            0
        } else {
            (e.hp - dmg) as i32
        },
        ..e
    }
}

/// The enemies after the first live one on `(x, y)` (if any) takes `dmg`.
pub open spec fn strike_at(es: Seq<Enemy>, path: Seq<(u16, u16)>, x: u16, y: u16, dmg: int) -> Seq<Enemy> {
    match enemy_at(es, path, x, y) {
        Some(i) => es.update(i, struck(es[i], dmg)),
        None => es,
    }
}

/// The tower after its firing animation ages a tick.
pub open spec fn aged(t: Tower) -> Tower {
    if t.fire_age > 0 {
        Tower { fire_age: (t.fire_age - 1) as u8, ..t }
    } else {
        t
    }
}

/// The damage of a tesla beam per tick: its attack spread over its
/// cooldown at the game's pace, at least 1.
pub open spec fn beam_damage(attack: i32, sp: u16, fire_cd: u16) -> int {
    let v = (attack as int * sp as int) / (fire_cd as int);
    if v >= 1 {
        v
    } else {
        1
    }
}

/// The direction from the tower to a target cell.
pub open spec fn aim_dir(t: Tower, tx: u16, ty: u16) -> (i16, i16) {
    (sign(tx - t.x), sign(ty - t.y))
}

/// One tick of tower `t`: its animation ages; a tesla tower cools down and
/// beams the best target in range every tick; any other tower waits out
/// its cooldown, then fires at the best target in range and starts its
/// cooldown again. Returns the tower, the enemies and what it did.
pub open spec fn spec_tower_step(t: Tower, es: Seq<Enemy>, path: Seq<(u16, u16)>, sp: u16, wave: i32) -> (
    Tower,
    Seq<Enemy>,
    TowerFire,
) {
    let a = aged(t);
    let stats = spec_tower_stats(t.kind, t.level);
    if t.kind == TowerKind::Tesla {
        let c = Tower {
            cooldown: if t.cooldown > sp {
                (t.cooldown - sp) as u16
            } else {
                0
            },
            ..a
        };
        match spec_acquire_target(c, es, path, stats.range, wave) {
            None => (c, es, TowerFire::Idle),
            Some((tx, ty)) => {
                let d = beam_damage(stats.attack, sp, stats.fire_cd);
                (
                    Tower { fire_age: 4, fire_dir: aim_dir(t, tx, ty), ..c },
                    strike_at(es, path, tx, ty, d),
                    TowerFire::Beam {
                        from_x: t.x,
                        from_y: t.y,
                        to_x: tx,
                        to_y: ty,
                        damage: d as i32,
                        level: t.level,
                    },
                )
            },
        }
    } else if t.cooldown > sp {
        (Tower { cooldown: (t.cooldown - sp) as u16, ..a }, es, TowerFire::Idle)
    } else {
        let c = Tower { cooldown: 0, ..a };
        match spec_acquire_target(c, es, path, stats.range, wave) {
            None => (c, es, TowerFire::Idle),
            Some((tx, ty)) => (
                Tower { fire_dir: aim_dir(t, tx, ty), fire_age: 10, cooldown: stats.fire_cd, ..c },
                es,
                TowerFire::Shot {
                    from_x: t.x,
                    from_y: t.y,
                    to_x: tx,
                    to_y: ty,
                    damage: stats.attack,
                    kind: t.kind,
                    level: t.level,
                },
            ),
        }
    }
}

fn dir_between(from: u16, to: u16) -> (d: i16)
    requires
        from <= 30000,
        to <= 30000,
    ensures
        d == sign(to - from),
{
    let diff = to as i16 - from as i16;
    crate::fx::signum(diff)
}

pub(crate) fn strike_enemy_pub(enemies: &mut Vec<Enemy>, path: &Vec<(u16, u16)>, x: u16, y: u16, dmg: i32)
    requires
        enemies_on_path(old(enemies)@, path@),
        dmg >= 0,
    ensures
        final(enemies)@ == strike_at(old(enemies)@, path@, x, y, dmg as int),
        enemies_on_path(final(enemies)@, path@),
{
    if let Some(ei) = find_enemy(enemies, path, x, y) {
        let e = enemies[ei];
        let hp: i32 = if e.hp - dmg < 0 {
            0
        } else {
            e.hp - dmg
        };
        enemies.set(ei, Enemy { hp, ..e });
    }
}

pub(crate) proof fn lemma_strike_scorable(es: Seq<Enemy>, path: Seq<(u16, u16)>, x: u16, y: u16, dmg: int)
    requires
        scorable(es, path),
        dmg >= 0,
    ensures
        scorable(strike_at(es, path, x, y, dmg), path),
{
    let r = strike_at(es, path, x, y, dmg);
    assert forall|i: int| 0 <= i < r.len() implies (#[trigger] r[i]).hp > i32::MIN && r[i].path_i
        < path.len() by {
        assert(es[i].path_i < path.len());
        assert(es[i].hp > i32::MIN);
    }
}

impl GameState {
    /// One tick of tower `ti` (see `spec_tower_step`).
    pub fn tick_tower(&mut self, ti: usize) -> (r: TowerFire)
        requires
            combat_ready(old(self)),
            ti < old(self).towers@.len(),
        ensures
            combat_ready(final(self)),
            ({
                let (t, es, fire) = spec_tower_step(
                    old(self).towers@[ti as int],
                    old(self).enemies@,
                    old(self).path@,
                    spec_sp(old(self).speed),
                    old(self).wave,
                );
                &&& final(self).towers@ == old(self).towers@.update(ti as int, t)
                &&& final(self).enemies@ == es
                &&& r == fire
            }),
            same_frame(old(self), final(self)),
            final(self).money == old(self).money,
            final(self).lives == old(self).lives,
            final(self).wave == old(self).wave,
            final(self).projectiles@ == old(self).projectiles@,
            final(self).fx@ == old(self).fx@,
            final(self).pending_wave_start == old(self).pending_wave_start,
            final(self).prep_ticks == old(self).prep_ticks,
    {
        let sp: u16 = if self.speed >= 1 {
            self.speed as u16
        } else {
            1
        };
        let wave = self.wave;
        let t0 = self.towers[ti];
        let mut t = t0;
        assert(cell_small((t0.x, t0.y)));
        if t.fire_age > 0 {
            t.fire_age = t.fire_age - 1;
        }
        let stats = tower_stats(&t);
        proof {
            assert(forall|i: int| 0 <= i < self.path@.len() ==> (#[trigger] self.path@[i]).0 <= 30000
                && self.path@[i].1 <= 30000);
        }
        if t.kind == TowerKind::Tesla {
            t.cooldown = if t.cooldown > sp {
                t.cooldown - sp
            } else {
                0
            };
            let target = acquire_target(&t, &self.enemies, &self.path, stats.range, wave);
            match target {
                None => {
                    self.towers.set(ti, t);
                    TowerFire::Idle
                },
                Some((tx, ty)) => {
                    assert(stats.attack as int * sp as int <= 8000 * 255) by (nonlinear_arith)
                        requires
                            0 < stats.attack <= 8000,
                            sp <= 255,
                    ;
                    let raw = stats.attack * sp as i32 / stats.fire_cd as i32;
                    let damage: i32 = if raw >= 1 {
                        raw
                    } else {
                        1
                    };
                    proof {
                        lemma_target_on_path(t, self.enemies@, self.path@, stats.range, wave);
                    }
                    let ghost es0 = self.enemies@;
                    strike_enemy_pub(&mut self.enemies, &self.path, tx, ty, damage);
                    proof {
                        lemma_strike_scorable(es0, self.path@, tx, ty, damage as int);
                    }
                    t.fire_age = 4;
                    t.fire_dir = (dir_between(t.x, tx), dir_between(t.y, ty));
                    self.towers.set(ti, t);
                    TowerFire::Beam { from_x: t.x, from_y: t.y, to_x: tx, to_y: ty, damage, level: t.level }
                },
            }
        } else {
            if t.cooldown > sp {
                t.cooldown = t.cooldown - sp;
                self.towers.set(ti, t);
                return TowerFire::Idle;
            }
            t.cooldown = 0;
            let target = acquire_target(&t, &self.enemies, &self.path, stats.range, wave);
            match target {
                None => {
                    self.towers.set(ti, t);
                    TowerFire::Idle
                },
                Some((tx, ty)) => {
                    proof {
                        lemma_target_on_path(t, self.enemies@, self.path@, stats.range, wave);
                    }
                    t.fire_dir = (dir_between(t.x, tx), dir_between(t.y, ty));
                    t.fire_age = 10;
                    t.cooldown = stats.fire_cd;
                    self.towers.set(ti, t);
                    TowerFire::Shot {
                        from_x: t.x,
                        from_y: t.y,
                        to_x: tx,
                        to_y: ty,
                        damage: stats.attack,
                        kind: t.kind,
                        level: t.level,
                    }
                },
            }
        }
    }
}

/// The best target found among the first `n` enemies stands on a path cell.
proof fn lemma_best_on_path(
    tower: Tower,
    es: Seq<Enemy>,
    path: Seq<(u16, u16)>,
    reach: u16,
    wave: i32,
    n: int,
)
    requires
        enemies_on_path(es, path),
        n <= es.len(),
    ensures
        crate::game::best_target(tower, es, path, reach, wave, n) matches Some((x, y, _, _, _))
            ==> exists|i: int| 0 <= i < path.len() && path[i] == (x, y),
    decreases n,
{
    if n > 0 {
        lemma_best_on_path(tower, es, path, reach, wave, n - 1);
        let e = es[n - 1];
        assert(e.path_i < path.len());
    }
}

/// A tower's target is a cell of the path.
proof fn lemma_target_on_path(tower: Tower, es: Seq<Enemy>, path: Seq<(u16, u16)>, range: u16, wave: i32)
    requires
        enemies_on_path(es, path),
    ensures
        spec_acquire_target(tower, es, path, range, wave) matches Some((x, y)) ==> exists|i: int|
            0 <= i < path.len() && path[i] == (x, y),
{
    lemma_best_on_path(
        tower,
        es,
        path,
        crate::game::spec_effective_range(tower, es, path, range),
        wave,
        es.len() as int,
    );
}

/// A projectile after one tick: its time to live runs down (at 0 it is
/// gone); otherwise it waits out its step time, or moves one cell towards
/// its target (diagonally when both coordinates differ) and waits again;
/// on reaching the target it is spent.
pub open spec fn fly(p: Projectile, sp: u16) -> Projectile {
    let ttl1: u16 = if p.ttl > 0 {
        (p.ttl - 1) as u16
    } else {
        0
    };
    if ttl1 == 0 {
        Projectile { ttl: 0, ..p }
    } else if p.step_cd > sp {
        Projectile { ttl: ttl1, step_cd: (p.step_cd - sp) as u16, ..p }
    } else {
        let nx = (p.x + sign(p.tx - p.x)) as i16;
        let ny = (p.y + sign(p.ty - p.y)) as i16;
        Projectile {
            ttl: if nx == p.tx && ny == p.ty {
                0
            } else {
                ttl1
            },
            step_cd: spec_projectile_step_cd(p.kind),
            x: nx,
            y: ny,
            ..p
        }
    }
}

/// The projectile reaches its target this tick.
pub open spec fn arrives(p: Projectile, sp: u16) -> bool {
    let q = fly(p, sp);
    p.ttl > 1 && p.step_cd <= sp && q.x == p.tx && q.y == p.ty
}

/// The projectiles still in flight after the first `n` fly a tick.
pub open spec fn survivors(ps: Seq<Projectile>, sp: u16, n: int) -> Seq<Projectile>
    decreases n,
{
    if n <= 0 {
        seq![]
    } else {
        let s = survivors(ps, sp, n - 1);
        let q = fly(ps[n - 1], sp);
        if q.ttl > 0 {
            s.push(q)
        } else {
            s
        }
    }
}

/// A projectile's hit: where it landed, what it was, and the enemy it
/// struck there (its index and kind), if one stood there.
#[derive(Debug, Clone, Copy)]
pub struct Hit {
    pub kind: TowerKind,
    pub x: u16,
    pub y: u16,
    pub damage: i32,
    pub level: u8,
    pub fx_id: Option<usize>,
    pub target: Option<(usize, EnemyKind)>,
}

/// An enemy hit by a projectile: it takes the projectile's damage (a rapid
/// tower's less the enemy's resistance); a frost hit slows it at least as
/// much and as long as the frost tower's level says.
pub open spec fn hit_enemy(e: Enemy, p: Projectile, wave: i32) -> Enemy {
    let t = spec_enemy_tuning(e.kind, wave);
    let dmg = if p.kind == TowerKind::Rapid {
        spec_apply_damage_resist(p.damage, t.rapid_resist)
    } else {
        p.damage
    };
    let e1 = struck(e, dmg as int);
    if p.kind == TowerKind::Frost {
        let (pc, tk) = spec_frost_slow(p.source_level);
        Enemy {
            slow_percent: if e1.slow_percent >= pc {
                e1.slow_percent
            } else {
                pc
            },
            slow_ticks: if e1.slow_ticks >= tk {
                e1.slow_ticks
            } else {
                tk
            },
            ..e1
        }
    } else {
        e1
    }
}

/// The enemies and the hits after the first `n` projectiles fly a tick;
/// each arriving projectile hits the first live enemy on its target cell.
pub open spec fn flights(ps: Seq<Projectile>, es: Seq<Enemy>, path: Seq<(u16, u16)>, sp: u16, wave: i32, n: int) -> (
    Seq<Enemy>,
    Seq<Hit>,
)
    decreases n,
{
    if n <= 0 {
        (es, seq![])
    } else {
        let (es1, hs) = flights(ps, es, path, sp, wave, n - 1);
        let p = ps[n - 1];
        if arrives(p, sp) {
            let hx = p.tx as u16;
            let hy = p.ty as u16;
            match enemy_at(es1, path, hx, hy) {
                Some(i) => (
                    es1.update(i, hit_enemy(es1[i], p, wave)),
                    hs.push(
                        Hit {
                            kind: p.kind,
                            x: hx,
                            y: hy,
                            damage: p.damage,
                            level: p.source_level,
                            fx_id: p.fx_id,
                            target: Some((i as usize, es1[i].kind)),
                        },
                    ),
                ),
                None => (
                    es1,
                    hs.push(
                        Hit {
                            kind: p.kind,
                            x: hx,
                            y: hy,
                            damage: p.damage,
                            level: p.source_level,
                            fx_id: p.fx_id,
                            target: None,
                        },
                    ),
                ),
            }
        } else {
            (es1, hs)
        }
    }
}

proof fn lemma_flights_small(
    ps: Seq<Projectile>,
    es: Seq<Enemy>,
    path: Seq<(u16, u16)>,
    sp: u16,
    wave: i32,
    n: int,
)
    requires
        n <= ps.len(),
        forall|i: int| 0 <= i < ps.len() ==> proj_ok(#[trigger] ps[i]),
    ensures
        hits_small(flights(ps, es, path, sp, wave, n).1),
    decreases n,
{
    if n > 0 {
        lemma_flights_small(ps, es, path, sp, wave, n - 1);
        assert(proj_ok(ps[n - 1]));
    }
}

fn fly_exec(p: Projectile, sp: u16) -> (q: Projectile)
    requires
        proj_ok(p),
    ensures
        q == fly(p, sp),
        proj_ok(q),
{
    let ttl1: u16 = if p.ttl > 0 {
        p.ttl - 1
    } else {
        0
    };
    if ttl1 == 0 {
        return Projectile { ttl: 0, ..p };
    }
    if p.step_cd > sp {
        return Projectile { ttl: ttl1, step_cd: p.step_cd - sp, ..p };
    }
    let dx = crate::fx::signum(p.tx - p.x);
    let dy = crate::fx::signum(p.ty - p.y);
    let nx = p.x + dx;
    let ny = p.y + dy;
    Projectile {
        ttl: if nx == p.tx && ny == p.ty {
            0
        } else {
            ttl1
        },
        step_cd: projectile_step_cd(p.kind),
        x: nx,
        y: ny,
        ..p
    }
}

proof fn lemma_hit_keeps_scorable(es: Seq<Enemy>, path: Seq<(u16, u16)>, i: int, p: Projectile, wave: i32)
    requires
        scorable(es, path),
        0 <= i < es.len(),
        p.damage >= 0,
        wave <= MAX_PRICED_WAVE,
    ensures
        scorable(es.update(i, hit_enemy(es[i], p, wave)), path),
{
    let r = es.update(i, hit_enemy(es[i], p, wave));
    let t = spec_enemy_tuning(es[i].kind, wave);
    assert(t.rapid_resist <= 45);
    if p.kind == TowerKind::Rapid && p.damage > 0 && t.rapid_resist > 0 {
        assert(p.damage as int * t.rapid_resist as int / 100 <= p.damage as int) by (nonlinear_arith)
            requires
                p.damage > 0,
                0 < t.rapid_resist <= 45,
        ;
    }
    assert forall|k: int| 0 <= k < r.len() implies (#[trigger] r[k]).hp > i32::MIN && r[k].path_i
        < path.len() by {
        assert(es[k].path_i < path.len());
        assert(es[k].hp > i32::MIN);
    }
}

/// The effects after the first `n` projectiles of `ps` fly one tick at
/// speed `sp`: a spent projectile's effect is removed; one that moves
/// carries its effect to its new cell, heading to its target.
pub open spec fn flown_fx(st: FxState, ps: Seq<Projectile>, sp: u16, n: int) -> FxState
    decreases n,
{
    if n <= 0 {
        st
    } else {
        let prev = flown_fx(st, ps, sp, n - 1);
        let p = ps[n - 1];
        let q = fly(p, sp);
        if p.ttl <= 1 {
            match p.fx_id {
                Some(id) => spec_despawn(prev, id),
                None => prev,
            }
        } else if p.step_cd > sp {
            prev
        } else {
            match p.fx_id {
                Some(id) => spec_move_projectile(
                    prev,
                    id,
                    Vec2i { x: q.x, y: q.y },
                    Vec2i { x: sign(p.tx - p.x), y: sign(p.ty - p.y) },
                ),
                None => prev,
            }
        }
    }
}

fn move_projectiles(
    projectiles: &Vec<Projectile>,
    enemies: &mut Vec<Enemy>,
    path: &Vec<(u16, u16)>,
    fx: &mut FxManager,
    sp: u16,
    wave: i32,
    with_hits: bool,
) -> (r: (Vec<Projectile>, Vec<Hit>))
    requires
        scorable(old(enemies)@, path@),
        old(fx).wf(),
        wave <= MAX_PRICED_WAVE,
        forall|i: int| 0 <= i < projectiles@.len() ==> proj_ok(#[trigger] projectiles@[i]),
    ensures
        r.0@ == survivors(projectiles@, sp, projectiles@.len() as int),
        forall|i: int| 0 <= i < r.0@.len() ==> proj_ok(#[trigger] r.0@[i]),
        with_hits ==> (final(enemies)@, r.1@) == flights(
            projectiles@,
            old(enemies)@,
            path@,
            sp,
            wave,
            projectiles@.len() as int,
        ),
        !with_hits ==> final(enemies)@ == old(enemies)@ && r.1@.len() == 0,
        scorable(final(enemies)@, path@),
        final(fx).wf(),
        final(fx)@ == flown_fx(old(fx)@, projectiles@, sp, projectiles@.len() as int),
{
    let ghost es0 = enemies@;
    let ghost ps = projectiles@;
    let mut kept: Vec<Projectile> = Vec::new();
    let mut hits: Vec<Hit> = Vec::new();
    let mut i: usize = 0;
    while i < projectiles.len()
        invariant
            es0 == old(enemies)@,
            ps == projectiles@,
            i <= ps.len(),
            wave <= MAX_PRICED_WAVE,
            forall|j: int| 0 <= j < ps.len() ==> proj_ok(#[trigger] ps[j]),
            kept@ == survivors(ps, sp, i as int),
            forall|j: int| 0 <= j < kept@.len() ==> proj_ok(#[trigger] kept@[j]),
            with_hits ==> (enemies@, hits@) == flights(ps, es0, path@, sp, wave, i as int),
            !with_hits ==> enemies@ == es0 && hits@.len() == 0,
            scorable(enemies@, path@),
            fx.wf(),
            fx@ == flown_fx(old(fx)@, ps, sp, i as int),
        decreases ps.len() - i,
    {
        let p = projectiles[i];
        assert(proj_ok(p));
        let q = fly_exec(p, sp);
        if p.ttl <= 1 {
            if let Some(id) = p.fx_id {
                fx.despawn(id);
            }
        } else if p.step_cd > sp {
        } else {
            if let Some(id) = p.fx_id {
                let dir = Vec2i::new(crate::fx::signum(p.tx - p.x), crate::fx::signum(p.ty - p.y));
                fx.update_projectile_pos(id, Vec2i::new(q.x, q.y), dir);
            }
            if q.x == p.tx && q.y == p.ty && with_hits {
                let hx = p.tx as u16;
                let hy = p.ty as u16;
                let ghost es1 = enemies@;
                let found = find_enemy(enemies, path, hx, hy);
                match found {
                    Some(ei) => {
                        let e = enemies[ei];
                        let tuning = enemy_tuning(e.kind, wave);
                        let mut damage = p.damage;
                        if p.kind == TowerKind::Rapid {
                            assert(tuning.rapid_resist <= 45);
                            if damage > 0 && tuning.rapid_resist > 0 {
                                assert(damage as int * tuning.rapid_resist as int / 100 <= damage as int)
                                    by (nonlinear_arith)
                                    requires
                                        damage > 0,
                                        0 < tuning.rapid_resist <= 45,
                                ;
                            }
                            damage = apply_damage_resist(damage, tuning.rapid_resist);
                        }
                        let mut hp = e.hp - damage;
                        if hp < 0 {
                            hp = 0;
                        }
                        let mut hit = Enemy { hp, ..e };
                        if p.kind == TowerKind::Frost {
                            let (slow_percent, slow_ticks) = frost_slow(p.source_level);
                            if hit.slow_percent < slow_percent {
                                hit.slow_percent = slow_percent;
                            }
                            if hit.slow_ticks < slow_ticks {
                                hit.slow_ticks = slow_ticks;
                            }
                        }
                        enemies.set(ei, hit);
                        hits.push(
                            Hit {
                                kind: p.kind,
                                x: hx,
                                y: hy,
                                damage: p.damage,
                                level: p.source_level,
                                fx_id: p.fx_id,
                                target: Some((ei, e.kind)),
                            },
                        );
                        proof {
                            lemma_hit_keeps_scorable(es1, path@, ei as int, p, wave);
                        }
                    },
                    None => {
                        hits.push(
                            Hit {
                                kind: p.kind,
                                x: hx,
                                y: hy,
                                damage: p.damage,
                                level: p.source_level,
                                fx_id: p.fx_id,
                                target: None,
                            },
                        );
                    },
                }
            }
        }
        if q.ttl > 0 {
            kept.push(q);
        }
        i = i + 1;
    }
    (kept, hits)
}

impl GameState {
    /// One tick of the projectiles in flight (see `fly`): each arriving
    /// projectile hits the first live enemy on its target cell (see
    /// `hit_enemy`) and is reported, in order, for its after-effects;
    /// spent projectiles leave the field.
    pub fn tick_projectiles(&mut self) -> (hits: Vec<Hit>)
        requires
            combat_ready(old(self)),
        ensures
            combat_ready(final(self)),
            final(self).projectiles@ == survivors(
                old(self).projectiles@,
                spec_sp(old(self).speed),
                old(self).projectiles@.len() as int,
            ),
            (final(self).enemies@, hits@) == flights(
                old(self).projectiles@,
                old(self).enemies@,
                old(self).path@,
                spec_sp(old(self).speed),
                old(self).wave,
                old(self).projectiles@.len() as int,
            ),
            hits_small(hits@),
            final(self).fx@ == flown_fx(
                old(self).fx@,
                old(self).projectiles@,
                spec_sp(old(self).speed),
                old(self).projectiles@.len() as int,
            ),
            same_frame(old(self), final(self)),
            final(self).money == old(self).money,
            final(self).lives == old(self).lives,
            final(self).wave == old(self).wave,
            final(self).towers@ == old(self).towers@,
            final(self).pending_wave_start == old(self).pending_wave_start,
            final(self).prep_ticks == old(self).prep_ticks,
    {
        let sp: u16 = if self.speed >= 1 {
            self.speed as u16
        } else {
            1
        };
        proof {
            lemma_flights_small(
                self.projectiles@,
                self.enemies@,
                self.path@,
                sp,
                self.wave,
                self.projectiles@.len() as int,
            );
        }
        let (kept, hits) = move_projectiles(
            &self.projectiles,
            &mut self.enemies,
            &self.path,
            &mut self.fx,
            sp,
            self.wave,
            true,
        );
        self.projectiles = kept;
        hits
    }

    /// One tick of the projectiles as a peer shows them: they fly as on the
    /// host (see `fly`) but hit nothing; the host's snapshots carry the
    /// damage. Nothing moves while the match is paused.
    pub fn tick_projectiles_fx_only(&mut self)
        requires
            combat_ready(old(self)),
        ensures
            combat_ready(final(self)),
            old(self).running ==> final(self).projectiles@ == survivors(
                old(self).projectiles@,
                spec_sp(old(self).speed),
                old(self).projectiles@.len() as int,
            ),
            !old(self).running ==> final(self).projectiles@ == old(self).projectiles@,
            old(self).running ==> final(self).fx@ == flown_fx(
                old(self).fx@,
                old(self).projectiles@,
                spec_sp(old(self).speed),
                old(self).projectiles@.len() as int,
            ),
            !old(self).running ==> final(self).fx == old(self).fx,
            final(self).enemies@ == old(self).enemies@,
            same_frame(old(self), final(self)),
            final(self).money == old(self).money,
            final(self).lives == old(self).lives,
            final(self).wave == old(self).wave,
            final(self).towers@ == old(self).towers@,
            final(self).pending_wave_start == old(self).pending_wave_start,
            final(self).prep_ticks == old(self).prep_ticks,
    {
        if !self.running {
            return;
        }
        let sp: u16 = if self.speed >= 1 {
            self.speed as u16
        } else {
            1
        };
        let (kept, _hits) = move_projectiles(
            &self.projectiles,
            &mut self.enemies,
            &self.path,
            &mut self.fx,
            sp,
            self.wave,
            false,
        );
        self.projectiles = kept;
    }
}

} // verus!
