//! How a peer replays the effects the host records: each event spawns the
//! same effects the host showed, and a projectile event also adds a
//! harmless projectile that carries its effect along.
use vstd::prelude::*;

use crate::effects::at;
use crate::fx::{
    muzzle_ttl, near_i16, overlaid, plain_entity, sign, spec_projectile_glyphs, spec_spawn,
    dust_entity, FxData, FxKind, FxState, Vec2i,
};
use crate::game::{GameState, Projectile};
use crate::kinds::TowerKind;
use crate::net_msg::FxEvent;
use crate::rules::{projectile_step_cd, spec_projectile_step_cd};

verus! {

/// The direction from `f` to `t`, one step on each axis.
pub open spec fn step_dir(f: Vec2i, t: Vec2i) -> Vec2i {
    Vec2i { x: sign(t.x - f.x), y: sign(t.y - f.y) }
}

/// An event whose positions the effects can hold: a projectile's
/// distance, and its muzzle one cell out, stay within `i16`; the centre of
/// a dust cloud (also a cannon's impact) is off the edges of `i16`.
pub open spec fn replayable(ev: FxEvent) -> bool {
    match ev {
        FxEvent::Projectile { from_x, from_y, to_x, to_y, .. } => {
            let f = at(from_x, from_y);
            let t = at(to_x, to_y);
            &&& i16::MIN <= t.x - f.x <= i16::MAX
            &&& i16::MIN <= t.y - f.y <= i16::MAX
            &&& i16::MIN <= f.x + step_dir(f, t).x <= i16::MAX
            &&& i16::MIN <= f.y + step_dir(f, t).y <= i16::MAX
        },
        FxEvent::Impact { kind: TowerKind::Cannon, x, y, .. } => near_i16(at(x, y)),
        FxEvent::Dust { x, y, .. } => near_i16(at(x, y)),
        _ => true,
    }
}

/// Whether the effects can hold `ev`'s positions (see `replayable`).
pub fn fx_event_replayable(ev: &FxEvent) -> (b: bool)
    ensures
        b == replayable(*ev),
{
    match *ev {
        FxEvent::Projectile { from_x, from_y, to_x, to_y, .. } => {
            let fx = from_x as i16 as i32;
            let fy = from_y as i16 as i32;
            let tx = to_x as i16 as i32;
            let ty = to_y as i16 as i32;
            let dx = tx - fx;
            let dy = ty - fy;
            let sx: i32 = if dx > 0 {
                1
            } else if dx < 0 {
                -1
            } else {
                0
            };
            let sy: i32 = if dy > 0 {
                1
            } else if dy < 0 {
                -1
            } else {
                0
            };
            -32768 <= dx && dx <= 32767 && -32768 <= dy && dy <= 32767 && -32768 <= fx + sx && fx
                + sx <= 32767 && -32768 <= fy + sy && fy + sy <= 32767
        },
        FxEvent::Impact { kind: TowerKind::Cannon, x, y, .. } => {
            let px = x as i16;
            let py = y as i16;
            i16::MIN < px && px < i16::MAX && i16::MIN < py && py < i16::MAX
        },
        FxEvent::Dust { x, y, .. } => {
            let px = x as i16;
            let py = y as i16;
            i16::MIN < px && px < i16::MAX && i16::MIN < py && py < i16::MAX
        },
        _ => true,
    }
}

/// The projectile effect a replayed shot spawns.
pub open spec fn shot_entity(kind: TowerKind, f: Vec2i, t: Vec2i, ttl: u16, seed: u32) -> crate::fx::FxEntity {
    let ttl_fx: u8 = if ttl <= 255 {
        ttl as u8
    } else {
        255
    };
    plain_entity(
        FxKind::Projectile,
        f,
        ttl_fx,
        80,
        seed,
        FxData::Projectile {
            kind,
            dir: step_dir(f, t),
            glyph_head: spec_projectile_glyphs(kind).0,
            glyph_trail: spec_projectile_glyphs(kind).1,
        },
    )
}

/// The effects after replaying `ev` on `a`. A projectile spawns its effect
/// (lasting at most 255 ticks), a muzzle flash one cell out and, with a
/// tracer seed, a tracer line. An impact shows the mark of its tower kind
/// (a ring and dust for a cannon, a flash for tesla, a shatter for frost,
/// a cross otherwise, the dust seed being `seed ^ 0xA53C`). An arc that
/// finds no slot leaves a flash at its end (seed `seed ^ 0x9E37`). The
/// other events spawn the effect they name.
pub open spec fn replay_fx(a: FxState, ev: FxEvent) -> FxState {
    match ev {
        FxEvent::Projectile { kind, from_x, from_y, to_x, to_y, ttl, seed, muzzle_seed, tracer_seed } => {
            let f = at(from_x, from_y);
            let t = at(to_x, to_y);
            let dir = step_dir(f, t);
            let s1 = spec_spawn(a, shot_entity(kind, f, t, ttl, seed), false).0;
            let s2 = spec_spawn(
                s1,
                plain_entity(
                    FxKind::MuzzleFlash,
                    Vec2i { x: (f.x + dir.x) as i16, y: (f.y + dir.y) as i16 },
                    muzzle_ttl(kind),
                    90,
                    muzzle_seed,
                    FxData::Muzzle { kind, dir },
                ),
                true,
            ).0;
            match tracer_seed {
                Some(ts) => spec_spawn(
                    s2,
                    plain_entity(FxKind::TracerLine, f, 1, 60, ts, FxData::TracerLine { kind, from: f, to: t }),
                    false,
                ).0,
                None => s2,
            }
        },
        FxEvent::TracerLine { kind, from_x, from_y, to_x, to_y, seed } => {
            let f = at(from_x, from_y);
            let t = at(to_x, to_y);
            spec_spawn(
                a,
                plain_entity(FxKind::TracerLine, f, 1, 60, seed, FxData::TracerLine { kind, from: f, to: t }),
                false,
            ).0
        },
        FxEvent::Impact { kind, x, y, seed } => {
            let p = at(x, y);
            match kind {
                TowerKind::Cannon => spec_spawn(
                    spec_spawn(
                        a,
                        plain_entity(FxKind::ImpactRing, p, 3, 100, seed, FxData::ImpactRing { max_radius: 2 }),
                        false,
                    ).0,
                    dust_entity(p, seed ^ 0xA53Cu32),
                    false,
                ).0,
                TowerKind::Tesla => spec_spawn(
                    a,
                    plain_entity(FxKind::TargetFlash, p, 1, 100, seed, FxData::NoData),
                    false,
                ).0,
                TowerKind::Frost => spec_spawn(
                    a,
                    plain_entity(FxKind::Shatter, p, 2, 100, seed, FxData::NoData),
                    false,
                ).0,
                _ => spec_spawn(
                    a,
                    plain_entity(FxKind::ImpactCross, p, 2, 100, seed, FxData::ImpactCross { kind }),
                    false,
                ).0,
            }
        },
        FxEvent::ArcLightning { from_x, from_y, to_x, to_y, seed } => {
            let f = at(from_x, from_y);
            let t = at(to_x, to_y);
            let (st1, r1) = spec_spawn(
                a,
                plain_entity(
                    FxKind::ArcLightning,
                    f,
                    2,
                    80,
                    seed,
                    FxData::ArcLightning { from: f, to: t, segments_max: 12 },
                ),
                false,
            );
            if r1 is Some {
                st1
            } else {
                spec_spawn(
                    st1,
                    plain_entity(FxKind::TargetFlash, t, 1, 100, seed ^ 0x9E37u32, FxData::NoData),
                    false,
                ).0
            }
        },
        FxEvent::TargetFlash { x, y, seed } => spec_spawn(
            a,
            plain_entity(FxKind::TargetFlash, at(x, y), 1, 100, seed, FxData::NoData),
            false,
        ).0,
        FxEvent::Dust { x, y, seed } => spec_spawn(a, dust_entity(at(x, y), seed), false).0,
        FxEvent::Shatter { x, y, seed } => spec_spawn(
            a,
            plain_entity(FxKind::Shatter, at(x, y), 2, 100, seed, FxData::NoData),
            false,
        ).0,
        FxEvent::StatusOverlay { target, ttl, seed } => overlaid(a, target, ttl, seed),
    }
}

/// The projectiles after replaying `ev` on effects `a` and projectiles
/// `pa`: a replayed shot whose effect found a slot adds a projectile
/// without damage that carries that effect along; nothing else adds one.
pub open spec fn replay_shots(a: FxState, pa: Seq<Projectile>, ev: FxEvent) -> Seq<Projectile> {
    match ev {
        FxEvent::Projectile { kind, from_x, from_y, to_x, to_y, ttl, seed, .. } => {
            let f = at(from_x, from_y);
            let t = at(to_x, to_y);
            match spec_spawn(a, shot_entity(kind, f, t, ttl, seed), false).1 {
                Some(i) => pa.push(
                    Projectile {
                        x: f.x,
                        y: f.y,
                        tx: t.x,
                        ty: t.y,
                        ttl,
                        damage: 0,
                        step_cd: spec_projectile_step_cd(kind),
                        kind,
                        source_level: 0,
                        fx_id: Some(i),
                    },
                ),
                None => pa,
            }
        },
        _ => pa,
    }
}

/// The effects after replaying `events` in order on `a`.
pub open spec fn replay_fx_all(a: FxState, events: Seq<FxEvent>) -> FxState
    decreases events.len(),
{
    if events.len() == 0 {
        a
    } else {
        replay_fx(replay_fx_all(a, events.drop_last()), events.last())
    }
}

/// The projectiles after replaying `events` in order on effects `a` and
/// projectiles `pa`.
pub open spec fn replay_shots_all(a: FxState, pa: Seq<Projectile>, events: Seq<FxEvent>) -> Seq<Projectile>
    decreases events.len(),
{
    if events.len() == 0 {
        pa
    } else {
        replay_shots(
            replay_fx_all(a, events.drop_last()),
            replay_shots_all(a, pa, events.drop_last()),
            events.last(),
        )
    }
}

/// Replaying events one after another is replaying them together.
pub proof fn lemma_replay_fx_append(a: FxState, xs: Seq<FxEvent>, ys: Seq<FxEvent>)
    ensures
        replay_fx_all(a, xs + ys) == replay_fx_all(replay_fx_all(a, xs), ys),
    decreases ys.len(),
{
    if ys.len() > 0 {
        assert((xs + ys).drop_last() =~= xs + ys.drop_last());
        lemma_replay_fx_append(a, xs, ys.drop_last());
    } else {
        assert(xs + ys =~= xs);
    }
}

/// Replaying one more event.
pub proof fn lemma_replay_fx_push(a: FxState, xs: Seq<FxEvent>, ev: FxEvent)
    ensures
        replay_fx_all(a, xs.push(ev)) == replay_fx(replay_fx_all(a, xs), ev),
{
    assert(xs.push(ev).drop_last() =~= xs);
}

/// Everything but the effects and projectiles is as before.
pub open spec fn same_but_effects(a: &GameState, b: &GameState) -> bool {
    &&& crate::sim::same_frame(a, b)
    &&& a.money == b.money
    &&& a.lives == b.lives
    &&& a.wave == b.wave
    &&& a.towers@ == b.towers@
    &&& a.enemies@ == b.enemies@
    &&& a.pending_wave_start == b.pending_wave_start
    &&& a.prep_ticks == b.prep_ticks
}

fn cell_pos(x: u16, y: u16) -> (p: Vec2i)
    ensures
        p == at(x, y),
{
    Vec2i { x: x as i16, y: y as i16 }
}

impl GameState {
    fn replay_one(&mut self, ev: FxEvent)
        requires
            old(self).wf(),
            replayable(ev),
        ensures
            final(self).wf(),
            same_but_effects(old(self), final(self)),
            final(self).fx@ == replay_fx(old(self).fx@, ev),
            final(self).projectiles@ == replay_shots(old(self).fx@, old(self).projectiles@, ev),
    {
        match ev {
            FxEvent::Projectile {
                kind,
                from_x,
                from_y,
                to_x,
                to_y,
                ttl,
                seed,
                muzzle_seed,
                tracer_seed,
            } => {
                let from = cell_pos(from_x, from_y);
                let to = cell_pos(to_x, to_y);
                let dir = Vec2i {
                    x: crate::fx::signum(to.x - from.x),
                    y: crate::fx::signum(to.y - from.y),
                };
                let ttl_fx: u8 = if ttl <= 255 {
                    ttl as u8
                } else {
                    255
                };
                let fx_id = self.fx.spawn_projectile(kind, from, to, ttl_fx, seed);
                self.fx.spawn_muzzle(kind, from, dir, muzzle_seed);
                match tracer_seed {
                    Some(ts) => self.fx.spawn_tracer_line(kind, from, to, ts),
                    None => {},
                }
                match fx_id {
                    Some(id) => {
                        self.projectiles.push(
                            Projectile {
                                x: from.x,
                                y: from.y,
                                tx: to.x,
                                ty: to.y,
                                ttl,
                                damage: 0,
                                step_cd: projectile_step_cd(kind),
                                kind,
                                source_level: 0,
                                fx_id: Some(id),
                            },
                        );
                    },
                    None => {},
                }
            },
            FxEvent::TracerLine { kind, from_x, from_y, to_x, to_y, seed } => {
                self.fx.spawn_tracer_line(kind, cell_pos(from_x, from_y), cell_pos(to_x, to_y), seed);
            },
            FxEvent::Impact { kind, x, y, seed } => {
                let pos = cell_pos(x, y);
                match kind {
                    TowerKind::Cannon => {
                        self.fx.spawn_impact_ring(pos, seed);
                        self.fx.spawn_dust(pos, seed ^ 0xA53C);
                    },
                    TowerKind::Tesla => {
                        self.fx.spawn_target_flash(pos, seed);
                    },
                    TowerKind::Frost => {
                        self.fx.spawn_shatter(pos, seed);
                    },
                    _ => {
                        self.fx.spawn_impact_cross(pos, kind, seed);
                    },
                }
            },
            FxEvent::ArcLightning { from_x, from_y, to_x, to_y, seed } => {
                self.fx.spawn_arc_lightning(cell_pos(from_x, from_y), cell_pos(to_x, to_y), seed);
            },
            FxEvent::TargetFlash { x, y, seed } => {
                self.fx.spawn_target_flash(cell_pos(x, y), seed);
            },
            FxEvent::Dust { x, y, seed } => {
                self.fx.spawn_dust(cell_pos(x, y), seed);
            },
            FxEvent::Shatter { x, y, seed } => {
                self.fx.spawn_shatter(cell_pos(x, y), seed);
            },
            FxEvent::StatusOverlay { target, ttl, seed } => {
                self.fx.spawn_status_overlay(target, ttl, seed);
            },
        }
    }

    /// Replays the host's effects, in order, while a linked match is on
    /// screen (see `replay_fx`, `replay_shots`); otherwise nothing happens.
    pub fn apply_fx_events(&mut self, events: Vec<FxEvent>, in_game: bool, linked: bool)
        requires
            old(self).wf(),
            in_game && linked ==> forall|i: int| 0 <= i < events@.len() ==> replayable(#[trigger] events@[i]),
        ensures
            final(self).wf(),
            !(in_game && linked) ==> *final(self) == *old(self),
            same_but_effects(old(self), final(self)),
            in_game && linked ==> final(self).fx@ == replay_fx_all(old(self).fx@, events@),
            in_game && linked ==> final(self).projectiles@ == replay_shots_all(
                old(self).fx@,
                old(self).projectiles@,
                events@,
            ),
    {
        if !(in_game && linked) {
            return;
        }
        let mut i: usize = 0;
        while i < events.len()
            invariant
                in_game && linked,
                i <= events@.len(),
                self.wf(),
                same_but_effects(old(self), self),
                forall|k: int| 0 <= k < events@.len() ==> replayable(#[trigger] events@[k]),
                self.fx@ == replay_fx_all(old(self).fx@, events@.take(i as int)),
                self.projectiles@ == replay_shots_all(old(self).fx@, old(self).projectiles@, events@.take(i as int)),
            decreases events@.len() - i,
        {
            let ev = events[i];
            proof {
                assert(events@.take(i + 1).drop_last() =~= events@.take(i as int));
            }
            self.replay_one(ev);
            i = i + 1;
        }
        assert(events@.take(events@.len() as int) =~= events@);
    }
}

} // verus!
