//! The area effects of a hit: a frost burst slows the enemies around it, a
//! cannon's splash damages them, and a tesla hit arcs to the nearest.
use vstd::prelude::*;

use crate::combat::{combat_ready, small, struck, FxLog};
use crate::effects::{at, logged, same_but_combat, seed_n};
use crate::fx::Vec2i;
use crate::game::{scorable, Enemy, GameState};
use crate::geom::{grid_distance, manhattan_spec};
use crate::net_msg::FxEvent;
use crate::replay::{lemma_replay_fx_push, replay_fx, replay_fx_all};
use crate::rules::{
    apply_damage_resist, cannon_splash_params, enemy_tuning, frost_burst_params,
    spec_apply_damage_resist, spec_cannon_splash_params, spec_enemy_tuning,
    spec_frost_burst_params, spec_tesla_chain_params, tesla_chain_params, MAX_PRICED_WAVE,
};
use crate::sim::{rand_u32, rng_iter};
use crate::effects::{lemma_rng_iter_add, mark_ttl};

verus! {

/// The distance from `(x, y)` to the enemy's cell.
pub open spec fn dist_to(e: Enemy, path: Seq<(u16, u16)>, x: u16, y: u16) -> int {
    manhattan_spec(x, y, path[e.path_i as int].0, path[e.path_i as int].1)
}

/// The enemy is alive, off the centre cell and within `radius` of it.
pub open spec fn around(e: Enemy, path: Seq<(u16, u16)>, x: u16, y: u16, radius: u16) -> bool {
    e.hp > 0 && 0 < dist_to(e, path, x, y) <= radius
}

/// An enemy slowed at least as much and as long as a burst says.
pub open spec fn chilled(e: Enemy, pc: u8, tk: u16) -> Enemy {
    Enemy {
        slow_percent: if e.slow_percent >= pc {
            e.slow_percent
        } else {
            pc
        },
        slow_ticks: if e.slow_ticks >= tk {
            e.slow_ticks
        } else {
            tk
        },
        ..e
    }
}

/// An area around a hit.
pub enum Area {
    /// A frost burst's reach.
    Burst { x: u16, y: u16, radius: u16 },
    /// A cannon splash's reach, with its raw damage during `wave`.
    Splash { x: u16, y: u16, radius: u16, raw: i32, wave: i32 },
}

/// The area affects the enemy: a burst every live enemy around it, a
/// splash those it damages.
pub open spec fn area_hit(e: Enemy, path: Seq<(u16, u16)>, a: Area) -> bool {
    match a {
        Area::Burst { x, y, radius } => around(e, path, x, y, radius),
        Area::Splash { x, y, radius, raw, wave } => around(e, path, x, y, radius) && splash_taken(
            e,
            raw,
            wave,
        ) > 0,
    }
}

/// The enemies (index and cell) among the first `n` that the area affects.
pub open spec fn picked(es: Seq<Enemy>, path: Seq<(u16, u16)>, a: Area, n: int) -> Seq<
    (usize, u16, u16),
>
    decreases n,
{
    if n <= 0 {
        seq![]
    } else {
        let r = picked(es, path, a, n - 1);
        let e = es[n - 1];
        if area_hit(e, path, a) {
            r.push(((n - 1) as usize, path[e.path_i as int].0, path[e.path_i as int].1))
        } else {
            r
        }
    }
}

/// The events of a burst: for each enemy reached, shards and a frost
/// overlay, seeded by consecutive draws from `rng`.
pub open spec fn burst_events(ts: Seq<(usize, u16, u16)>, ttl: u8, rng: u64) -> Seq<FxEvent> {
    Seq::new(
        2 * ts.len(),
        |j: int|
            if j % 2 == 0 {
                FxEvent::Shatter { x: ts[j / 2].1, y: ts[j / 2].2, seed: seed_n(rng, (j + 1) as nat) }
            } else {
                FxEvent::StatusOverlay { target: ts[j / 2].0, ttl, seed: seed_n(rng, (j + 1) as nat) }
            },
    )
}

/// The events of a splash: dust on each enemy damaged, seeded by
/// consecutive draws from `rng`.
pub open spec fn dust_events(ts: Seq<(usize, u16, u16)>, rng: u64) -> Seq<FxEvent> {
    Seq::new(
        ts.len(),
        |k: int| FxEvent::Dust { x: ts[k].1, y: ts[k].2, seed: seed_n(rng, (k + 1) as nat) },
    )
}

/// The splash damage an enemy takes from a raw splash: less its kind's
/// resistance.
pub open spec fn splash_taken(e: Enemy, raw: i32, wave: i32) -> i32 {
    spec_apply_damage_resist(raw, spec_enemy_tuning(e.kind, wave).splash_resist)
}

/// The path's cells are on coordinates up to 30000.
pub open spec fn path_small(path: Seq<(u16, u16)>) -> bool {
    forall|i: int| 0 <= i < path.len() ==> small((#[trigger] path[i]).0, path[i].1)
}

proof fn lemma_picked_small(es: Seq<Enemy>, path: Seq<(u16, u16)>, a: Area, n: int)
    requires
        0 <= n <= es.len(),
        path_small(path),
        crate::game::enemies_on_path(es, path),
    ensures
        forall|k: int|
            0 <= k < picked(es, path, a, n).len() ==> (#[trigger] picked(es, path, a, n)[k]).0 < n
                && small(picked(es, path, a, n)[k].1, picked(es, path, a, n)[k].2),
    decreases n,
{
    if n > 0 {
        lemma_picked_small(es, path, a, n - 1);
        let r = picked(es, path, a, n - 1);
        let e = es[n - 1];
        assert(e.path_i < path.len());
        assert(small(path[e.path_i as int].0, path[e.path_i as int].1));
        if area_hit(e, path, a) {
            let q = r.push(((n - 1) as usize, path[e.path_i as int].0, path[e.path_i as int].1));
            assert forall|k: int| 0 <= k < q.len() implies (#[trigger] q[k]).0 < n && small(q[k].1, q[k].2) by {
                if k < r.len() {
                    assert(q[k] == r[k]);
                }
            }
        }
    }
}

impl GameState {
    /// A frost burst around `(x, y)`: each live enemy off the centre and
    /// within the burst's radius is slowed at least as much and as long as
    /// the burst says; then each gets shards and a frost overlay (recorded
    /// for peers, a draw each).
    pub fn apply_frost_burst(&mut self, x: u16, y: u16, level: u8, rng: &mut u64, log: &mut FxLog)
        requires
            combat_ready(old(self)),
        ensures
            combat_ready(final(self)),
            ({
                let (radius, pc, tk) = spec_frost_burst_params(level);
                let a = Area::Burst { x, y, radius };
                let ts = picked(old(self).enemies@, old(self).path@, a, old(self).enemies@.len() as int);
                &&& final(self).enemies@ == old(self).enemies@.map_values(
                    |e: Enemy| if area_hit(e, old(self).path@, a) {
                        chilled(e, pc, tk)
                    } else {
                        e
                    },
                )
                &&& *final(rng) == rng_iter(*old(rng), 2 * ts.len())
                &&& final(log).events@ == logged(old(log), burst_events(ts, mark_ttl(tk), *old(rng)))
                &&& final(self).fx@ == replay_fx_all(old(self).fx@, burst_events(ts, mark_ttl(tk), *old(rng)))
            }),
            final(log).record == old(log).record,
            same_but_combat(old(self), final(self)),
            final(self).projectiles@ == old(self).projectiles@,
    {
        let (radius, slow_percent, slow_ticks) = frost_burst_params(level);
        let ghost a = Area::Burst { x, y, radius };
        let ghost es0 = self.enemies@;
        let ghost r0 = *rng;
        let mut targets: Vec<(usize, u16, u16)> = Vec::new();
        let mut i: usize = 0;
        while i < self.enemies.len()
            invariant
                es0 == old(self).enemies@,
                combat_ready(old(self)),
                a == (Area::Burst { x, y, radius }),
                self.enemies@.len() == es0.len(),
                i <= es0.len(),
                forall|j: int|
                    0 <= j < i ==> #[trigger] self.enemies@[j] == if area_hit(es0[j], old(self).path@, a) {
                        chilled(es0[j], slow_percent, slow_ticks)
                    } else {
                        es0[j]
                    },
                forall|j: int| i <= j < es0.len() ==> #[trigger] self.enemies@[j] == es0[j],
                targets@ == picked(es0, old(self).path@, a, i as int),
                self.path@ == old(self).path@,
                self.fx == old(self).fx,
                *rng == r0,
                r0 == *old(rng),
                *log == *old(log),
                same_but_combat(old(self), self),
                self.projectiles@ == old(self).projectiles@,
            decreases es0.len() - i,
        {
            let e = self.enemies[i];
            assert(e == es0[i as int]);
            assert(e.path_i < self.path@.len());
            if e.hp > 0 {
                let (ex, ey) = self.path[e.path_i];
                let d = grid_distance(x, y, ex, ey);
                if d != 0 && d <= radius as u32 {
                    let mut c = e;
                    if c.slow_percent < slow_percent {
                        c.slow_percent = slow_percent;
                    }
                    if c.slow_ticks < slow_ticks {
                        c.slow_ticks = slow_ticks;
                    }
                    self.enemies.set(i, c);
                    targets.push((i, ex, ey));
                }
            }
            i = i + 1;
        }
        proof {
            assert(self.enemies@ =~= es0.map_values(
                |e: Enemy| if area_hit(e, self.path@, a) {
                    chilled(e, slow_percent, slow_ticks)
                } else {
                    e
                },
            ));
            assert forall|k: int| 0 <= k < self.enemies@.len() implies (#[trigger] self.enemies@[k]).hp
                > i32::MIN && self.enemies@[k].path_i < self.path@.len() by {
                assert(es0[k].hp > i32::MIN);
                assert(es0[k].path_i < self.path@.len());
            }
            assert(path_small(self.path@));
            lemma_picked_small(es0, self.path@, a, es0.len() as int);
        }
        let ghost es1 = self.enemies@;
        let ttl: u8 = if slow_ticks <= 255 {
            slow_ticks as u8
        } else {
            255
        };
        let ghost ts = targets@;
        let mut k: usize = 0;
        while k < targets.len()
            invariant
                ts == targets@,
                r0 == *old(rng),
                ttl == mark_ttl(slow_ticks),
                k <= ts.len(),
                forall|m: int| 0 <= m < ts.len() ==> small((#[trigger] ts[m]).1, ts[m].2),
                self.fx.wf(),
                *rng == rng_iter(r0, 2 * k as nat),
                log.record == old(log).record,
                log.events@ == logged(old(log), burst_events(ts.take(k as int), ttl, r0)),
                self.fx@ == replay_fx_all(old(self).fx@, burst_events(ts.take(k as int), ttl, r0)),
                combat_ready(self),
                same_but_combat(old(self), self),
                self.enemies@ == es1,
                self.projectiles@ == old(self).projectiles@,
            decreases ts.len() - k,
        {
            let (idx, ex, ey) = targets[k];
            assert(small(ts[k as int].1, ts[k as int].2));
            let ghost r1 = *rng;
            let shatter_seed = rand_u32(rng);
            let overlay_seed = rand_u32(rng);
            self.fx.spawn_shatter(Vec2i::new(ex as i16, ey as i16), shatter_seed);
            self.fx.spawn_status_overlay(idx, ttl, overlay_seed);
            let e1 = FxEvent::Shatter { x: ex, y: ey, seed: shatter_seed };
            let e2 = FxEvent::StatusOverlay { target: idx, ttl, seed: overlay_seed };
            log.queue(e1);
            log.queue(e2);
            proof {
                reveal_with_fuel(rng_iter, 3);
                lemma_rng_iter_add(r0, 2 * k as nat, 1);
                lemma_rng_iter_add(r0, 2 * k as nat, 2);
                assert(burst_events(ts.take(k + 1), ttl, r0) =~= burst_events(ts.take(k as int), ttl, r0)
                    + seq![e1, e2]);
                assert(burst_events(ts.take(k as int), ttl, r0) + seq![e1, e2] =~= burst_events(
                    ts.take(k as int),
                    ttl,
                    r0,
                ).push(e1).push(e2));
                lemma_replay_fx_push(old(self).fx@, burst_events(ts.take(k as int), ttl, r0), e1);
                lemma_replay_fx_push(old(self).fx@, burst_events(ts.take(k as int), ttl, r0).push(e1), e2);
                if old(log).record {
                    assert(log.events@ =~= old(log).events@ + burst_events(ts.take(k + 1), ttl, r0));
                }
            }
            k = k + 1;
        }
        assert(ts.take(ts.len() as int) =~= ts);
    }

    /// A cannon's splash around `(x, y)` with raw damage `raw`: each live
    /// enemy off the centre and within the splash radius takes the raw
    /// damage less its splash resistance, when that is above 0; then each
    /// enemy damaged gets dust (recorded for peers, a draw each).
    pub fn apply_splash(&mut self, x: u16, y: u16, raw: i32, level: u8, rng: &mut u64, log: &mut FxLog)
        requires
            combat_ready(old(self)),
            level <= 75,
        ensures
            combat_ready(final(self)),
            ({
                let (radius, _) = spec_cannon_splash_params(level);
                let w = old(self).wave;
                let a = Area::Splash { x, y, radius, raw, wave: w };
                let ts = picked(old(self).enemies@, old(self).path@, a, old(self).enemies@.len() as int);
                &&& final(self).enemies@ == old(self).enemies@.map_values(
                    |e: Enemy| if area_hit(e, old(self).path@, a) {
                        struck(e, splash_taken(e, raw, w) as int)
                    } else {
                        e
                    },
                )
                &&& *final(rng) == rng_iter(*old(rng), ts.len())
                &&& final(log).events@ == logged(old(log), dust_events(ts, *old(rng)))
                &&& final(self).fx@ == replay_fx_all(old(self).fx@, dust_events(ts, *old(rng)))
            }),
            final(log).record == old(log).record,
            same_but_combat(old(self), final(self)),
            final(self).projectiles@ == old(self).projectiles@,
    {
        let (radius, _) = cannon_splash_params(level);
        let wave = self.wave;
        let ghost a = Area::Splash { x, y, radius, raw, wave };
        let ghost es0 = self.enemies@;
        let ghost r0 = *rng;
        let mut targets: Vec<(usize, u16, u16)> = Vec::new();
        let mut i: usize = 0;
        while i < self.enemies.len()
            invariant
                es0 == old(self).enemies@,
                combat_ready(old(self)),
                wave == old(self).wave,
                a == (Area::Splash { x, y, radius, raw, wave }),
                self.enemies@.len() == es0.len(),
                i <= es0.len(),
                forall|j: int|
                    0 <= j < i ==> #[trigger] self.enemies@[j] == if area_hit(es0[j], old(self).path@, a) {
                        struck(es0[j], splash_taken(es0[j], raw, wave) as int)
                    } else {
                        es0[j]
                    },
                forall|j: int| i <= j < es0.len() ==> #[trigger] self.enemies@[j] == es0[j],
                targets@ == picked(es0, old(self).path@, a, i as int),
                self.path@ == old(self).path@,
                self.fx == old(self).fx,
                *rng == r0,
                r0 == *old(rng),
                *log == *old(log),
                same_but_combat(old(self), self),
                self.projectiles@ == old(self).projectiles@,
            decreases es0.len() - i,
        {
            let e = self.enemies[i];
            assert(e == es0[i as int]);
            assert(e.path_i < self.path@.len());
            if e.hp > 0 {
                let (ex, ey) = self.path[e.path_i];
                let d = grid_distance(x, y, ex, ey);
                if d != 0 && d <= radius as u32 {
                    let tuning = enemy_tuning(e.kind, wave);
                    assert(tuning.splash_resist <= 30);
                    if raw > 0 && tuning.splash_resist > 0 {
                        assert(0 <= raw as int * tuning.splash_resist as int / 100 <= raw as int)
                            by (nonlinear_arith)
                            requires
                                raw > 0,
                                0 < tuning.splash_resist <= 30,
                        ;
                    }
                    let dmg = apply_damage_resist(raw, tuning.splash_resist);
                    if dmg > 0 {
                        let hp: i32 = if e.hp - dmg < 0 {
                            0
                        } else {
                            e.hp - dmg
                        };
                        self.enemies.set(i, Enemy { hp, ..e });
                        targets.push((i, ex, ey));
                    }
                }
            }
            i = i + 1;
        }
        proof {
            assert(self.enemies@ =~= es0.map_values(
                |e: Enemy| if area_hit(e, self.path@, a) {
                    struck(e, splash_taken(e, raw, wave) as int)
                } else {
                    e
                },
            ));
            assert forall|k: int| 0 <= k < self.enemies@.len() implies (#[trigger] self.enemies@[k]).hp
                > i32::MIN && self.enemies@[k].path_i < self.path@.len() by {
                assert(es0[k].hp > i32::MIN);
                assert(es0[k].path_i < self.path@.len());
            }
            assert(path_small(self.path@));
            lemma_picked_small(es0, self.path@, a, es0.len() as int);
        }
        let ghost ts = targets@;
        let ghost es1 = self.enemies@;
        let mut k: usize = 0;
        while k < targets.len()
            invariant
                ts == targets@,
                self.enemies@ == es1,
                r0 == *old(rng),
                k <= ts.len(),
                forall|m: int| 0 <= m < ts.len() ==> small((#[trigger] ts[m]).1, ts[m].2),
                self.fx.wf(),
                *rng == rng_iter(r0, k as nat),
                log.record == old(log).record,
                log.events@ == logged(old(log), dust_events(ts.take(k as int), r0)),
                self.fx@ == replay_fx_all(old(self).fx@, dust_events(ts.take(k as int), r0)),
                combat_ready(self),
                same_but_combat(old(self), self),
                self.projectiles@ == old(self).projectiles@,
            decreases ts.len() - k,
        {
            let (_, ex, ey) = targets[k];
            assert(small(ts[k as int].1, ts[k as int].2));
            let ghost r1 = *rng;
            let seed = rand_u32(rng);
            self.fx.spawn_dust(Vec2i::new(ex as i16, ey as i16), seed);
            let ev = FxEvent::Dust { x: ex, y: ey, seed };
            log.queue(ev);
            proof {
                reveal_with_fuel(rng_iter, 2);
                lemma_rng_iter_add(r0, k as nat, 1);
                assert(dust_events(ts.take(k + 1), r0) =~= dust_events(ts.take(k as int), r0).push(ev));
                lemma_replay_fx_push(old(self).fx@, dust_events(ts.take(k as int), r0), ev);
                if old(log).record {
                    assert(log.events@ =~= old(log).events@ + dust_events(ts.take(k + 1), r0));
                }
            }
            k = k + 1;
        }
        assert(ts.take(ts.len() as int) =~= ts);
    }
}

/// The live enemies at distance exactly `d` from `(x, y)` among the first
/// `n`, in order, with their cells and distance.
pub open spec fn ring(es: Seq<Enemy>, path: Seq<(u16, u16)>, x: u16, y: u16, d: int, n: int) -> Seq<
    (usize, u16, u16, u16),
>
    decreases n,
{
    if n <= 0 {
        seq![]
    } else {
        let r = ring(es, path, x, y, d, n - 1);
        let e = es[n - 1];
        let c = path[e.path_i as int];
        if e.hp > 0 && dist_to(e, path, x, y) == d {
            r.push(((n - 1) as usize, c.0, c.1, d as u16))
        } else {
            r
        }
    }
}

/// The live enemies at distance 1 to `d` from `(x, y)`, nearest first and
/// in order among equals.
pub open spec fn rings(es: Seq<Enemy>, path: Seq<(u16, u16)>, x: u16, y: u16, d: int) -> Seq<
    (usize, u16, u16, u16),
>
    decreases d,
{
    if d <= 0 {
        seq![]
    } else {
        rings(es, path, x, y, d - 1) + ring(es, path, x, y, d, es.len() as int)
    }
}

/// The targets a tesla hit on `(x, y)` arcs to: the live enemies within the
/// chain's radius (not on the struck cell), nearest first and in order
/// among equals, at most as many as the chain allows.
pub open spec fn spec_chain_targets(es: Seq<Enemy>, path: Seq<(u16, u16)>, x: u16, y: u16, level: u8) -> Seq<
    (usize, u16, u16, u16),
> {
    let (radius, max_targets, _) = spec_tesla_chain_params(level);
    first_n(rings(es, path, x, y, radius as int), max_targets as int)
}

/// The first `m` elements of `s` (all of them when it is shorter).
pub open spec fn first_n<A>(s: Seq<A>, m: int) -> Seq<A> {
    if s.len() <= m {
        s
    } else {
        s.take(m)
    }
}

proof fn lemma_first_n_push<A>(s: Seq<A>, e: A, m: int)
    requires
        0 <= m,
    ensures
        s.len() < m ==> first_n(s.push(e), m) == first_n(s, m).push(e),
        s.len() >= m ==> first_n(s.push(e), m) == first_n(s, m),
        first_n(s, m).len() == if s.len() < m {
            s.len() as int
        } else {
            m
        },
{
    if s.len() < m {
    } else if s.len() == m {
        assert(s.push(e).take(m) =~= s);
    } else {
        assert(s.push(e).take(m) =~= s.take(m));
    }
}

impl GameState {
    /// The targets a tesla hit on `(x, y)` arcs to (see
    /// `spec_chain_targets`), as `(enemy, x, y, distance)`.
    pub fn tesla_chain_targets(&self, x: u16, y: u16, level: u8) -> (r: Vec<(usize, u16, u16, u16)>)
        requires
            combat_ready(self),
            level <= 55,
        ensures
            r@ == spec_chain_targets(self.enemies@, self.path@, x, y, level),
    {
        let (radius, max_targets, _) = tesla_chain_params(level);
        let ghost es = self.enemies@;
        let ghost path = self.path@;
        let mut out: Vec<(usize, u16, u16, u16)> = Vec::new();
        let mut d: u16 = 1;
        while d <= radius
            invariant
                es == self.enemies@,
                path == self.path@,
                combat_ready(self),
                1 <= d <= radius + 1,
                radius <= 3,
                out@ == first_n(rings(es, path, x, y, d - 1), max_targets as int),
            decreases radius + 1 - d,
        {
            let mut i: usize = 0;
            while i < self.enemies.len()
                invariant
                    es == self.enemies@,
                    path == self.path@,
                    combat_ready(self),
                    1 <= d <= radius,
                    i <= es.len(),
                    out@ == first_n(
                        rings(es, path, x, y, d - 1) + ring(es, path, x, y, d as int, i as int),
                        max_targets as int,
                    ),
                decreases es.len() - i,
            {
                let e = self.enemies[i];
                assert(e.path_i < path.len());
                let ghost before = rings(es, path, x, y, d - 1) + ring(es, path, x, y, d as int, i as int);
                if e.hp > 0 {
                    let (ex, ey) = self.path[e.path_i];
                    let dist = grid_distance(x, y, ex, ey);
                    if dist == d as u32 {
                        let item = (i, ex, ey, d);
                        proof {
                            lemma_first_n_push(before, item, max_targets as int);
                            assert(rings(es, path, x, y, d - 1) + ring(es, path, x, y, d as int, i + 1)
                                =~= before.push(item));
                        }
                        if out.len() < max_targets {
                            out.push(item);
                        }
                    } else {
                        assert(ring(es, path, x, y, d as int, i + 1) == ring(es, path, x, y, d as int, i as int));
                    }
                } else {
                    assert(ring(es, path, x, y, d as int, i + 1) == ring(es, path, x, y, d as int, i as int));
                }
                i = i + 1;
            }
            assert(rings(es, path, x, y, d as int) == rings(es, path, x, y, d - 1) + ring(
                es,
                path,
                x,
                y,
                d as int,
                es.len() as int,
            ));
            d = d + 1;
        }
        out
    }

    /// One arc of a tesla chain from `(x, y)` to enemy `idx` on
    /// `(ex, ey)`: the enemy (if there is one at that index) takes `damage`
    /// (hit points stop at 0), with an arc and a flash recorded for peers,
    /// a draw each.
    pub fn chain_strike(
        &mut self,
        x: u16,
        y: u16,
        idx: usize,
        ex: u16,
        ey: u16,
        damage: i32,
        rng: &mut u64,
        log: &mut FxLog,
    )
        requires
            combat_ready(old(self)),
            damage > 0,
        ensures
            combat_ready(final(self)),
            final(self).enemies@ == if idx < old(self).enemies@.len() {
                old(self).enemies@.update(idx as int, struck(old(self).enemies@[idx as int], damage as int))
            } else {
                old(self).enemies@
            },
            *final(rng) == rng_iter(*old(rng), 2),
            final(log).record == old(log).record,
            final(log).events@ == logged(
                old(log),
                seq![
                    FxEvent::ArcLightning { from_x: x, from_y: y, to_x: ex, to_y: ey, seed: seed_n(*old(rng), 1) },
                    FxEvent::TargetFlash { x: ex, y: ey, seed: seed_n(*old(rng), 2) },
                ],
            ),
            final(self).fx@ == replay_fx(
                replay_fx(
                    old(self).fx@,
                    FxEvent::ArcLightning { from_x: x, from_y: y, to_x: ex, to_y: ey, seed: seed_n(*old(rng), 1) },
                ),
                FxEvent::TargetFlash { x: ex, y: ey, seed: seed_n(*old(rng), 2) },
            ),
            same_but_combat(old(self), final(self)),
            final(self).projectiles@ == old(self).projectiles@,
    {
        if idx < self.enemies.len() {
            let e = self.enemies[idx];
            let left = e.hp as i64 - damage as i64;
            let hp: i32 = if left < 0 {
                0
            } else {
                left as i32
            };
            self.enemies.set(idx, Enemy { hp, ..e });
            proof {
                assert forall|k: int| 0 <= k < self.enemies@.len() implies (#[trigger] self.enemies@[k]).hp
                    > i32::MIN && self.enemies@[k].path_i < self.path@.len() by {
                    assert(old(self).enemies@[k].hp > i32::MIN);
                    assert(old(self).enemies@[k].path_i < self.path@.len());
                }
            }
        }
        let arc_seed = rand_u32(rng);
        let flash_seed = rand_u32(rng);
        proof {
            reveal_with_fuel(rng_iter, 3);
        }
        self.fx.spawn_arc_lightning(Vec2i::new(x as i16, y as i16), Vec2i::new(ex as i16, ey as i16), arc_seed);
        self.fx.spawn_target_flash(Vec2i::new(ex as i16, ey as i16), flash_seed);
        let e1 = FxEvent::ArcLightning { from_x: x, from_y: y, to_x: ex, to_y: ey, seed: arc_seed };
        let e2 = FxEvent::TargetFlash { x: ex, y: ey, seed: flash_seed };
        log.queue(e1);
        log.queue(e2);
        proof {
            if old(log).record {
                assert(log.events@ =~= old(log).events@ + seq![e1, e2]);
            }
        }
    }
}

} // verus!
