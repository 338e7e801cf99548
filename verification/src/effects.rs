//! What towers' shots leave behind: launching projectiles and beams, the
//! marks of a hit, and the area effects of frost, cannon and tesla towers.
//! Every effect draws its seed from the match's generator, and the host
//! records each for its peers.
use vstd::prelude::*;

use crate::combat::{
    combat_ready, find_enemy, hits_small, proj_ok, small, strike_at, struck, FxLog, Hit,
};
use crate::fx::{plain_entity, spec_despawn, spec_spawn, tesla_beam_fx, FxData, FxKind, FxManager, FxState, Vec2i};
use crate::game::{enemies_on_path, scorable, Enemy, GameState, Projectile};
use crate::geom::{grid_distance, manhattan_spec};
use crate::kinds::TowerKind;
use crate::net_msg::FxEvent;
use crate::replay::{lemma_replay_fx_push, replay_fx, replay_fx_all, shot_entity};
use crate::rules::{frost_slow, projectile_step_cd, spec_frost_slow, spec_projectile_step_cd};
use crate::sim::{rand_u32, rng_iter, same_frame, spec_rng_output};

verus! {

/// The `k`-th number drawn (from 1) from the generator state `rng`.
pub open spec fn seed_n(rng: u64, k: nat) -> u32 {
    spec_rng_output(rng_iter(rng, k))
}

/// The log after `evs` (recorded only when recording).
pub open spec fn logged(log: &FxLog, evs: Seq<FxEvent>) -> Seq<FxEvent> {
    if log.record {
        log.events@ + evs
    } else {
        log.events@
    }
}

/// A position on the grid as an effect position.
pub open spec fn at(x: u16, y: u16) -> Vec2i {
    Vec2i { x: x as i16, y: y as i16 }
}

/// How long a projectile of each kind may fly.
pub open spec fn shot_ttl(kind: TowerKind) -> u16 {
    match kind {
        TowerKind::Sniper => 120,
        TowerKind::Cannon => 110,
        TowerKind::Tesla => 80,
        TowerKind::Frost => 90,
        TowerKind::Rapid => 70,
        TowerKind::Basic => 90,
    }
}

fn shot_ttl_exec(kind: TowerKind) -> (t: u16)
    ensures
        t == shot_ttl(kind),
{
    match kind {
        TowerKind::Sniper => 120,
        TowerKind::Cannon => 110,
        TowerKind::Tesla => 80,
        TowerKind::Frost => 90,
        TowerKind::Rapid => 70,
        TowerKind::Basic => 90,
    }
}

/// Only the enemies, projectiles and effects changed.
pub open spec fn same_but_combat(a: &GameState, b: &GameState) -> bool {
    &&& same_frame(a, b)
    &&& a.money == b.money
    &&& a.lives == b.lives
    &&& a.wave == b.wave
    &&& a.towers@ == b.towers@
    &&& a.pending_wave_start == b.pending_wave_start
    &&& a.prep_ticks == b.prep_ticks
}

fn queue_two(log: &mut FxLog, a: FxEvent, b: FxEvent)
    ensures
        final(log).record == old(log).record,
        final(log).events@ == logged(old(log), seq![a, b]),
{
    log.queue(a);
    log.queue(b);
    proof {
        if old(log).record {
            assert(final(log).events@ =~= old(log).events@ + seq![a, b]);
        }
    }
}

impl GameState {
    /// The two arcs of a tesla beam from `(from_x, from_y)` to
    /// `(to_x, to_y)`, each with its own seed.
    pub fn spawn_tesla_beam(&mut self, from_x: u16, from_y: u16, to_x: u16, to_y: u16, rng: &mut u64, log: &mut FxLog)
        requires
            old(self).fx.wf(),
        ensures
            final(self).fx.wf(),
            *final(rng) == rng_iter(*old(rng), 2),
            final(log).record == old(log).record,
            final(log).events@ == logged(
                old(log),
                seq![
                    FxEvent::ArcLightning { from_x, from_y, to_x, to_y, seed: seed_n(*old(rng), 1) },
                    FxEvent::ArcLightning { from_x, from_y, to_x, to_y, seed: seed_n(*old(rng), 2) },
                ],
            ),
            final(self).fx@ == tesla_beam_fx(
                old(self).fx@,
                at(from_x, from_y),
                at(to_x, to_y),
                seed_n(*old(rng), 1),
                seed_n(*old(rng), 2),
            ),
            same_but_combat(old(self), final(self)),
            final(self).enemies@ == old(self).enemies@,
            final(self).projectiles@ == old(self).projectiles@,
    {
        let ghost r0 = *rng;
        let seed1 = rand_u32(rng);
        let seed2 = rand_u32(rng);
        proof {
            reveal_with_fuel(rng_iter, 3);
        }
        self.fx.spawn_tesla_beam_fx(
            Vec2i::new(from_x as i16, from_y as i16),
            Vec2i::new(to_x as i16, to_y as i16),
            seed1,
            seed2,
        );
        queue_two(
            log,
            FxEvent::ArcLightning { from_x, from_y, to_x, to_y, seed: seed1 },
            FxEvent::ArcLightning { from_x, from_y, to_x, to_y, seed: seed2 },
        );
    }

    /// The mark where a shot of `kind` lands on `(x, y)`: a ring of dust for
    /// a cannon, a flash for a tesla, shards for frost, a cross otherwise.
    pub fn spawn_impact(&mut self, x: u16, y: u16, kind: TowerKind, level: u8, rng: &mut u64, log: &mut FxLog)
        requires
            old(self).fx.wf(),
            small(x, y),
        ensures
            final(self).fx.wf(),
            *final(rng) == rng_iter(*old(rng), 1),
            final(log).record == old(log).record,
            final(log).events@ == logged(
                old(log),
                seq![FxEvent::Impact { kind, x, y, seed: seed_n(*old(rng), 1) }],
            ),
            final(self).fx@ == replay_fx(old(self).fx@, FxEvent::Impact { kind, x, y, seed: seed_n(*old(rng), 1) }),
            same_but_combat(old(self), final(self)),
            final(self).enemies@ == old(self).enemies@,
            final(self).projectiles@ == old(self).projectiles@,
    {
        let pos = Vec2i::new(x as i16, y as i16);
        let seed = rand_u32(rng);
        proof {
            reveal_with_fuel(rng_iter, 2);
        }
        match kind {
            TowerKind::Cannon => {
                self.fx.spawn_impact_ring(pos, seed);
                self.fx.spawn_dust(pos, seed ^ 0xA53C);
            },
            TowerKind::Tesla => {
                self.fx.spawn_target_flash(pos, seed);
            },
            TowerKind::Frost => {
                self.fx.spawn_shatter(pos, seed);
            },
            _ => {
                self.fx.spawn_impact_cross(pos, kind, seed);
            },
        }
        log.queue(FxEvent::Impact { kind, x, y, seed });
        assert(seq![FxEvent::Impact { kind, x, y, seed }] == seq![FxEvent::Impact { kind, x, y, seed }]);
        proof {
            if old(log).record {
                assert(final(log).events@ =~= old(log).events@ + seq![FxEvent::Impact { kind, x, y, seed }]);
            }
        }
    }

    /// Launches a tower's shot from `(from_x, from_y)` at `(to_x, to_y)`.
    /// A tesla shot is a beam; a sniper shot is a tracer that strikes the
    /// first live enemy on the target cell at once and lands there; any
    /// other shot is a projectile that flies there (see `shot_ttl`), with a
    /// muzzle flash at the tower.
    pub fn spawn_projectile(
        &mut self,
        from_x: u16,
        from_y: u16,
        to_x: u16,
        to_y: u16,
        dmg: i32,
        kind: TowerKind,
        level: u8,
        rng: &mut u64,
        log: &mut FxLog,
    )
        requires
            combat_ready(old(self)),
            small(from_x, from_y),
            small(to_x, to_y),
            dmg >= 0,
        ensures
            combat_ready(final(self)),
            same_but_combat(old(self), final(self)),
            *final(rng) == rng_iter(*old(rng), 2),
            final(log).record == old(log).record,
            kind == TowerKind::Tesla ==> {
                &&& final(self).fx@ == tesla_beam_fx(
                    old(self).fx@,
                    at(from_x, from_y),
                    at(to_x, to_y),
                    seed_n(*old(rng), 1),
                    seed_n(*old(rng), 2),
                )
                &&& final(self).enemies@ == old(self).enemies@
                &&& final(self).projectiles@ == old(self).projectiles@
                &&& final(log).events@ == logged(
                    old(log),
                    seq![
                        FxEvent::ArcLightning { from_x, from_y, to_x, to_y, seed: seed_n(*old(rng), 1) },
                        FxEvent::ArcLightning { from_x, from_y, to_x, to_y, seed: seed_n(*old(rng), 2) },
                    ],
                )
            },
            kind == TowerKind::Sniper ==> {
                &&& final(self).fx@ == replay_fx(
                    replay_fx(
                        old(self).fx@,
                        FxEvent::TracerLine { kind, from_x, from_y, to_x, to_y, seed: seed_n(*old(rng), 1) },
                    ),
                    FxEvent::Impact { kind, x: to_x, y: to_y, seed: seed_n(*old(rng), 2) },
                )
                &&& final(self).enemies@ == strike_at(
                    old(self).enemies@,
                    old(self).path@,
                    to_x,
                    to_y,
                    dmg as int,
                )
                &&& final(self).projectiles@ == old(self).projectiles@
                &&& final(log).events@ == logged(
                    old(log),
                    seq![
                        FxEvent::TracerLine { kind, from_x, from_y, to_x, to_y, seed: seed_n(*old(rng), 1) },
                        FxEvent::Impact { kind, x: to_x, y: to_y, seed: seed_n(*old(rng), 2) },
                    ],
                )
            },
            kind != TowerKind::Tesla && kind != TowerKind::Sniper ==> {
                &&& final(self).enemies@ == old(self).enemies@
                &&& final(self).projectiles@.len() == old(self).projectiles@.len() + 1
                &&& final(self).projectiles@ == old(self).projectiles@.push(
                    Projectile {
                        x: from_x as i16,
                        y: from_y as i16,
                        tx: to_x as i16,
                        ty: to_y as i16,
                        ttl: shot_ttl(kind),
                        damage: dmg,
                        step_cd: spec_projectile_step_cd(kind),
                        kind,
                        source_level: level,
                        fx_id: spec_spawn(
                            old(self).fx@,
                            shot_entity(kind, at(from_x, from_y), at(to_x, to_y), shot_ttl(kind), seed_n(*old(rng), 1)),
                            false,
                        ).1,
                    },
                )
                &&& final(self).fx@ == replay_fx(
                    old(self).fx@,
                    FxEvent::Projectile {
                        kind,
                        from_x,
                        from_y,
                        to_x,
                        to_y,
                        ttl: shot_ttl(kind),
                        seed: seed_n(*old(rng), 1),
                        muzzle_seed: seed_n(*old(rng), 2),
                        tracer_seed: None,
                    },
                )
                &&& final(log).events@ == logged(
                    old(log),
                    seq![
                        FxEvent::Projectile {
                            kind,
                            from_x,
                            from_y,
                            to_x,
                            to_y,
                            ttl: shot_ttl(kind),
                            seed: seed_n(*old(rng), 1),
                            muzzle_seed: seed_n(*old(rng), 2),
                            tracer_seed: None,
                        },
                    ],
                )
            },
    {
        let ghost r0 = *rng;
        if kind == TowerKind::Tesla {
            self.spawn_tesla_beam(from_x, from_y, to_x, to_y, rng, log);
            return;
        }
        if kind == TowerKind::Sniper {
            let seed = rand_u32(rng);
            self.fx.spawn_tracer_line(
                kind,
                Vec2i::new(from_x as i16, from_y as i16),
                Vec2i::new(to_x as i16, to_y as i16),
                seed,
            );
            let ghost log1 = *log;
            log.queue(FxEvent::TracerLine { kind, from_x, from_y, to_x, to_y, seed });
            let ghost es0 = self.enemies@;
            crate::combat::strike_enemy_pub(&mut self.enemies, &self.path, to_x, to_y, dmg);
            proof {
                crate::combat::lemma_strike_scorable(es0, self.path@, to_x, to_y, dmg as int);
            }
            let ghost r1 = *rng;
            let ghost log2 = *log;
            self.spawn_impact(to_x, to_y, kind, level, rng, log);
            proof {
                reveal_with_fuel(rng_iter, 3);
                if old(log).record {
                    assert(log.events@ =~= old(log).events@ + seq![
                        FxEvent::TracerLine { kind, from_x, from_y, to_x, to_y, seed: seed_n(r0, 1) },
                        FxEvent::Impact { kind, x: to_x, y: to_y, seed: seed_n(r0, 2) },
                    ]);
                }
            }
            return;
        }
        let ttl = shot_ttl_exec(kind);
        let from = Vec2i::new(from_x as i16, from_y as i16);
        let to = Vec2i::new(to_x as i16, to_y as i16);
        let dir = Vec2i::new(crate::fx::signum(to.x - from.x), crate::fx::signum(to.y - from.y));
        let seed = rand_u32(rng);
        let fx_ttl: u8 = if ttl <= 255 {
            ttl as u8
        } else {
            255
        };
        let fx_id = self.fx.spawn_projectile(kind, from, to, fx_ttl, seed);
        self.projectiles.push(
            Projectile {
                x: from.x,
                y: from.y,
                tx: to.x,
                ty: to.y,
                ttl,
                damage: dmg,
                step_cd: projectile_step_cd(kind),
                kind,
                source_level: level,
                fx_id,
            },
        );
        let muzzle_seed = rand_u32(rng);
        self.fx.spawn_muzzle(kind, from, dir, muzzle_seed);
        log.queue(
            FxEvent::Projectile {
                kind,
                from_x,
                from_y,
                to_x,
                to_y,
                ttl,
                seed,
                muzzle_seed,
                tracer_seed: None,
            },
        );
        proof {
            reveal_with_fuel(rng_iter, 3);
            let e = FxEvent::Projectile {
                kind,
                from_x,
                from_y,
                to_x,
                to_y,
                ttl,
                seed,
                muzzle_seed,
                tracer_seed: None,
            };
            if old(log).record {
                assert(log.events@ =~= old(log).events@ + seq![e]);
            }
            assert forall|i: int| 0 <= i < self.projectiles@.len() implies proj_ok(
                #[trigger] self.projectiles@[i],
            ) by {
                if i < old(self).projectiles@.len() {
                    assert(self.projectiles@[i] == old(self).projectiles@[i]);
                }
            }
        }
    }
}

/// How long a frost mark lasts: the slow's ticks, at most 255.
pub open spec fn mark_ttl(ticks: u16) -> u8 {
    if ticks <= 255 {
        ticks as u8
    } else {
        255
    }
}

/// The frost marks of the first `n` hits: each frost hit that struck an
/// enemy marks it for as long as the frost tower's slow lasts.
pub open spec fn frost_marks(hs: Seq<Hit>, n: int) -> Seq<(usize, u8)>
    decreases n,
{
    if n <= 0 {
        seq![]
    } else {
        let m = frost_marks(hs, n - 1);
        let h = hs[n - 1];
        match h.target {
            Some((i, _)) => if h.kind == TowerKind::Frost {
                m.push((i, mark_ttl(spec_frost_slow(h.level).1)))
            } else {
                m
            },
            None => m,
        }
    }
}

/// How many of the first `n` hits struck an enemy.
pub open spec fn struck_count(hs: Seq<Hit>, n: int) -> nat
    decreases n,
{
    if n <= 0 {
        0
    } else {
        struck_count(hs, n - 1) + if hs[n - 1].target is Some {
            1nat
        } else {
            0
        }
    }
}

/// The overlay events of frost marks, seeded by consecutive draws from
/// `rng`.
pub open spec fn overlay_events(marks: Seq<(usize, u8)>, rng: u64) -> Seq<FxEvent> {
    Seq::new(
        marks.len(),
        |k: int| FxEvent::StatusOverlay { target: marks[k].0, ttl: marks[k].1, seed: seed_n(rng, (k + 1) as nat) },
    )
}

/// The impact events of hits, seeded by consecutive draws from `rng`.
pub open spec fn impact_events(hs: Seq<Hit>, rng: u64) -> Seq<FxEvent> {
    Seq::new(
        hs.len(),
        |k: int| FxEvent::Impact { kind: hs[k].kind, x: hs[k].x, y: hs[k].y, seed: seed_n(rng, (k + 1) as nat) },
    )
}

/// The effects after a flash on each enemy struck among the first `n`
/// hits, the flashes seeded by consecutive draws from `rng`.
pub open spec fn flashed(st: FxState, hs: Seq<Hit>, rng: u64, n: int) -> FxState
    decreases n,
{
    if n <= 0 {
        st
    } else {
        let prev = flashed(st, hs, rng, n - 1);
        let h = hs[n - 1];
        match h.target {
            Some((_, ekind)) => spec_spawn(
                prev,
                plain_entity(
                    FxKind::HitFlash,
                    at(h.x, h.y),
                    2,
                    90,
                    seed_n(rng, struck_count(hs, n - 1) + 1),
                    FxData::HitFlash { kind: ekind },
                ),
                false,
            ).0,
            None => prev,
        }
    }
}

/// The effects after landing the first `n` hits: each shows its impact
/// (seeded by consecutive draws from `rng`), then its shot's own effect is
/// removed.
pub open spec fn landed(st: FxState, hs: Seq<Hit>, rng: u64, n: int) -> FxState
    decreases n,
{
    if n <= 0 {
        st
    } else {
        let h = hs[n - 1];
        let s = replay_fx(
            landed(st, hs, rng, n - 1),
            FxEvent::Impact { kind: h.kind, x: h.x, y: h.y, seed: seed_n(rng, n as nat) },
        );
        match h.fx_id {
            Some(id) => spec_despawn(s, id),
            None => s,
        }
    }
}

impl GameState {
    /// The marks of the hits: first a frost overlay on each enemy a frost
    /// shot struck (recorded for peers), then a flash on each enemy struck,
    /// each with its own draw.
    pub fn mark_hits(&mut self, hits: &Vec<Hit>, rng: &mut u64, log: &mut FxLog)
        requires
            old(self).fx.wf(),
        ensures
            final(self).fx.wf(),
            *final(rng) == rng_iter(
                *old(rng),
                frost_marks(hits@, hits@.len() as int).len() + struck_count(hits@, hits@.len() as int),
            ),
            final(log).record == old(log).record,
            final(log).events@ == logged(
                old(log),
                overlay_events(frost_marks(hits@, hits@.len() as int), *old(rng)),
            ),
            final(self).fx@ == flashed(
                replay_fx_all(old(self).fx@, overlay_events(frost_marks(hits@, hits@.len() as int), *old(rng))),
                hits@,
                rng_iter(*old(rng), frost_marks(hits@, hits@.len() as int).len()),
                hits@.len() as int,
            ),
            same_but_combat(old(self), final(self)),
            final(self).enemies@ == old(self).enemies@,
            final(self).projectiles@ == old(self).projectiles@,
    {
        let ghost r0 = *rng;
        let ghost hs = hits@;
        let mut i: usize = 0;
        while i < hits.len()
            invariant
                hs == hits@,
                r0 == *old(rng),
                i <= hs.len(),
                self.fx.wf(),
                *rng == rng_iter(r0, frost_marks(hs, i as int).len()),
                log.record == old(log).record,
                log.events@ == logged(old(log), overlay_events(frost_marks(hs, i as int), r0)),
                self.fx@ == replay_fx_all(old(self).fx@, overlay_events(frost_marks(hs, i as int), r0)),
                same_but_combat(old(self), self),
                self.enemies@ == old(self).enemies@,
                self.projectiles@ == old(self).projectiles@,
            decreases hs.len() - i,
        {
            let h = hits[i];
            if h.kind == TowerKind::Frost {
                if let Some((target, _)) = h.target {
                    let (_, ticks) = frost_slow(h.level);
                    let ttl: u8 = if ticks <= 255 {
                        ticks as u8
                    } else {
                        255
                    };
                    let ghost before = frost_marks(hs, i as int);
                    let seed = rand_u32(rng);
                    self.fx.spawn_status_overlay(target, ttl, seed);
                    log.queue(FxEvent::StatusOverlay { target, ttl, seed });
                    proof {
                        let after = frost_marks(hs, i + 1);
                        assert(after == before.push((target, ttl)));
                        assert(overlay_events(after, r0) =~= overlay_events(before, r0).push(
                            FxEvent::StatusOverlay { target, ttl, seed },
                        ));
                        lemma_replay_fx_push(
                            old(self).fx@,
                            overlay_events(before, r0),
                            FxEvent::StatusOverlay { target, ttl, seed },
                        );
                    }
                }
            }
            i = i + 1;
        }
        let ghost n_marks = frost_marks(hs, hs.len() as int).len();
        let ghost mid = self.fx@;
        let ghost r1 = rng_iter(r0, n_marks);
        let mut i: usize = 0;
        while i < hits.len()
            invariant
                hs == hits@,
                i <= hs.len(),
                self.fx.wf(),
                r1 == rng_iter(r0, n_marks),
                *rng == rng_iter(r0, n_marks + struck_count(hs, i as int)),
                self.fx@ == flashed(mid, hs, r1, i as int),
                same_but_combat(old(self), self),
                self.enemies@ == old(self).enemies@,
                self.projectiles@ == old(self).projectiles@,
            decreases hs.len() - i,
        {
            let h = hits[i];
            if let Some((_, ekind)) = h.target {
                let seed = rand_u32(rng);
                proof {
                    lemma_rng_iter_add(r0, n_marks, struck_count(hs, i as int) + 1);
                }
                self.fx.spawn_hit_flash(Vec2i::new(h.x as i16, h.y as i16), ekind, seed);
            }
            i = i + 1;
        }
    }

    /// Where the hits land: an impact mark for each (recorded for peers,
    /// one draw each), and the projectile's own effect is removed.
    pub fn land_hits(&mut self, hits: &Vec<Hit>, rng: &mut u64, log: &mut FxLog)
        requires
            old(self).fx.wf(),
            hits_small(hits@),
        ensures
            final(self).fx.wf(),
            *final(rng) == rng_iter(*old(rng), hits@.len()),
            final(log).record == old(log).record,
            final(log).events@ == logged(old(log), impact_events(hits@, *old(rng))),
            final(self).fx@ == landed(old(self).fx@, hits@, *old(rng), hits@.len() as int),
            same_but_combat(old(self), final(self)),
            final(self).enemies@ == old(self).enemies@,
            final(self).projectiles@ == old(self).projectiles@,
    {
        let ghost r0 = *rng;
        let ghost hs = hits@;
        let mut i: usize = 0;
        while i < hits.len()
            invariant
                hs == hits@,
                r0 == *old(rng),
                hits_small(hs),
                i <= hs.len(),
                self.fx.wf(),
                *rng == rng_iter(r0, i as nat),
                log.record == old(log).record,
                log.events@ == logged(old(log), impact_events(hs.take(i as int), r0)),
                self.fx@ == landed(old(self).fx@, hs, r0, i as int),
                same_but_combat(old(self), self),
                self.enemies@ == old(self).enemies@,
                self.projectiles@ == old(self).projectiles@,
            decreases hs.len() - i,
        {
            let h = hits[i];
            assert(small(hs[i as int].x, hs[i as int].y));
            let ghost r1 = *rng;
            proof {
                lemma_rng_iter_add(r0, i as nat, 1);
            }
            self.spawn_impact(h.x, h.y, h.kind, h.level, rng, log);
            if let Some(id) = h.fx_id {
                self.fx.despawn(id);
            }
            proof {
                lemma_rng_iter_add(r0, i as nat, 1);
                assert(seed_n(r1, 1) == seed_n(r0, (i + 1) as nat));
                assert(impact_events(hs.take(i + 1), r0) =~= impact_events(hs.take(i as int), r0)
                    + seq![FxEvent::Impact { kind: h.kind, x: h.x, y: h.y, seed: seed_n(r1, 1) }]);
                if old(log).record {
                    assert(log.events@ =~= old(log).events@ + impact_events(hs.take(i + 1), r0));
                }
            }
            i = i + 1;
        }
        assert(hs.take(hs.len() as int) =~= hs);
    }
}

/// `n` steps and then `m` more are `n + m` steps.
pub proof fn lemma_rng_iter_add(x: u64, n: nat, m: nat)
    ensures
        rng_iter(rng_iter(x, n), m) == rng_iter(x, n + m),
    decreases m,
{
    if m > 0 {
        lemma_rng_iter_add(x, n, (m - 1) as nat);
    }
}

} // verus!
