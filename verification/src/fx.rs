//! Visual effects: a fixed pool of effect slots with a free list, per-kind
//! caps, and replacement of the least important effect when the pool is full.
use vstd::prelude::*;

use crate::fxplan::{
    all_drawable, area_fits, entity_fits, entity_fits_exec, entity_strokes, lemma_frame_within_budget, frame_from, frame_slots, plan_entity, FrameCtx,
    FrameState, Stroke,
};
use crate::game::Enemy;
use crate::kinds::{EnemyKind, TowerKind};
use crate::view::{lod_for, lod_from_zoom, MapViewport, Rect};

verus! {

pub const MAX_FX_ACTIVE: usize = 5000;

pub const MAX_PRIMITIVES_PER_FRAME: usize = 2500;

pub const MAX_ARC_LIGHTNING: u16 = 20;

pub const MAX_IMPACT_RING: u16 = 30;

pub const MAX_DUST: u16 = 100;

pub const MAX_PROJECTILE: u16 = 2000;

pub const MAX_HIT_FLASH: u16 = 200;

pub const MAX_ENEMY_DEATH: u16 = 100;

pub const MAX_DUST_CELLS: usize = 6;

pub const FX_KIND_COUNT: usize = 12;

/// A grid position or direction.
#[derive(Debug, Clone, Copy, PartialEq, Eq, Structural)]
pub struct Vec2i {
    pub x: i16,
    pub y: i16,
}

impl Vec2i {
    pub fn new(x: i16, y: i16) -> (v: Vec2i)
        ensures
            v == (Vec2i { x, y }),
    {
        Vec2i { x, y }
    }
}

#[derive(Debug, Clone, Copy, PartialEq, Eq, Structural)]
pub enum FxKind {
    MuzzleFlash,
    TracerLine,
    Projectile,
    ImpactCross,
    ImpactRing,
    Dust,
    ArcLightning,
    TargetFlash,
    Shatter,
    StatusOverlay,
    HitFlash,
    EnemyDeath,
}

/// The position of a kind in the per-kind tables.
pub open spec fn fx_kind_index(k: FxKind) -> int {
    match k {
        FxKind::MuzzleFlash => 0,
        FxKind::TracerLine => 1,
        FxKind::Projectile => 2,
        FxKind::ImpactCross => 3,
        FxKind::ImpactRing => 4,
        FxKind::Dust => 5,
        FxKind::ArcLightning => 6,
        FxKind::TargetFlash => 7,
        FxKind::Shatter => 8,
        FxKind::StatusOverlay => 9,
        FxKind::HitFlash => 10,
        FxKind::EnemyDeath => 11,
    }
}

impl FxKind {
    pub fn index(self) -> (i: usize)
        ensures
            i == fx_kind_index(self),
            i < FX_KIND_COUNT,
    {
        match self {
            FxKind::MuzzleFlash => 0,
            FxKind::TracerLine => 1,
            FxKind::Projectile => 2,
            FxKind::ImpactCross => 3,
            FxKind::ImpactRing => 4,
            FxKind::Dust => 5,
            FxKind::ArcLightning => 6,
            FxKind::TargetFlash => 7,
            FxKind::Shatter => 8,
            FxKind::StatusOverlay => 9,
            FxKind::HitFlash => 10,
            FxKind::EnemyDeath => 11,
        }
    }
}

#[derive(Debug, Clone, Copy, PartialEq, Eq, Structural)]
pub enum StatusOverlayKind {
    Frost,
}

/// What an effect needs beyond its kind, position and timing.
#[allow(inconsistent_fields)]
#[derive(Debug, Clone, Copy)]
pub enum FxData {
    NoData,
    Muzzle { kind: TowerKind, dir: Vec2i },
    TracerLine { kind: TowerKind, from: Vec2i, to: Vec2i },
    Projectile { kind: TowerKind, dir: Vec2i, glyph_head: &'static str, glyph_trail: &'static str },
    ImpactCross { kind: TowerKind },
    ImpactRing { max_radius: u8 },
    Dust { count: u8, cells: [Vec2i; 6] },
    ArcLightning { from: Vec2i, to: Vec2i, segments_max: u8 },
    StatusOverlay { target: usize, kind: StatusOverlayKind },
    HitFlash { kind: EnemyKind },
    EnemyDeath { kind: EnemyKind },
}

/// One effect: `ttl` ticks left to live, `age` ticks lived, and a
/// `priority` (0..=100) that decides what is drawn first and what may be
/// replaced.
#[derive(Debug, Clone, Copy)]
pub struct FxEntity {
    pub kind: FxKind,
    pub pos: Vec2i,
    pub ttl: u8,
    pub age: u8,
    pub priority: u8,
    pub seed: u32,
    pub data: FxData,
}

/// The placeholder held by a slot that was never used: a muzzle flash at
/// the origin with no data, no time to live, age, priority or seed.
pub open spec fn empty_entity() -> FxEntity {
    FxEntity {
        kind: FxKind::MuzzleFlash,
        pos: Vec2i { x: 0, y: 0 },
        ttl: 0,
        age: 0,
        priority: 0,
        seed: 0,
        data: FxData::NoData,
    }
}

impl FxEntity {
    /// The placeholder held by a slot that was never used (see
    /// `empty_entity`).
    pub fn empty() -> (e: FxEntity)
        ensures
            e == empty_entity(),
            e.ttl == 0 && e.age == 0 && e.priority == 0 && e.seed == 0,
            e.kind == FxKind::MuzzleFlash,
            e.pos == (Vec2i { x: 0, y: 0 }),
            e.data is NoData,
    {
        FxEntity {
            kind: FxKind::MuzzleFlash,
            pos: Vec2i { x: 0, y: 0 },
            ttl: 0,
            age: 0,
            priority: 0,
            seed: 0,
            data: FxData::NoData,
        }
    }
}

#[derive(Debug, Clone, Copy)]
pub struct FxSlot {
    pub entity: FxEntity,
    pub active: bool,
}

impl FxSlot {
    /// A free slot holding the placeholder effect.
    pub fn new() -> (s: FxSlot)
        ensures
            !s.active,
            s.entity == empty_entity(),
    {
        FxSlot { entity: FxEntity::empty(), active: false }
    }
}

/// Counters of the last frame drawn.
#[derive(Debug, Clone, Copy)]
pub struct FxFrameStats {
    pub primitives_drawn: u16,
    pub culled_by_budget: u16,
    pub culled_by_kind: u16,
    pub active_by_kind: [u16; 12],
}

impl FxFrameStats {
    pub open spec fn is_zero(self) -> bool {
        &&& self.primitives_drawn == 0
        &&& self.culled_by_budget == 0
        &&& self.culled_by_kind == 0
        &&& forall|k: int| 0 <= k < 12 ==> #[trigger] self.active_by_kind@[k] == 0
    }

    pub fn zero() -> (s: FxFrameStats)
        ensures
            s.is_zero(),
    {
        FxFrameStats {
            primitives_drawn: 0,
            culled_by_budget: 0,
            culled_by_kind: 0,
            active_by_kind: [0u16; 12],
        }
    }
}

/// The per-kind caps: 0 means uncapped.
pub open spec fn spec_max_by_kind(k: int) -> u16 {
    if k == 6 {
        MAX_ARC_LIGHTNING
    } else if k == 4 {
        MAX_IMPACT_RING
    } else if k == 5 {
        MAX_DUST
    } else if k == 2 {
        MAX_PROJECTILE
    } else if k == 10 {
        MAX_HIT_FLASH
    } else if k == 11 {
        MAX_ENEMY_DEATH
    } else {
        0
    }
}

/// The per-kind cap of an effect kind (0 means uncapped).
pub fn max_by_kind(k: usize) -> (m: u16)
    ensures
        m == spec_max_by_kind(k as int),
{
    if k == 6 {
        MAX_ARC_LIGHTNING
    } else if k == 4 {
        MAX_IMPACT_RING
    } else if k == 5 {
        MAX_DUST
    } else if k == 2 {
        MAX_PROJECTILE
    } else if k == 10 {
        MAX_HIT_FLASH
    } else if k == 11 {
        MAX_ENEMY_DEATH
    } else {
        0
    }
}

/// Whether a slot counts as a live effect of kind `k`.
pub open spec fn slot_counts(s: FxSlot, k: int) -> nat {
    if s.active && fx_kind_index(s.entity.kind) == k {
        1
    } else {
        0
    }
}

/// The number of live effects of kind `k`.
pub open spec fn count_kind(s: Seq<FxSlot>, k: int) -> nat
    decreases s.len(),
{
    if s.len() == 0 {
        0
    } else {
        count_kind(s.drop_last(), k) + slot_counts(s.last(), k)
    }
}

/// The indices of the inactive slots, in increasing order.
pub open spec fn inactive_indices(s: Seq<FxSlot>) -> Seq<usize>
    decreases s.len(),
{
    if s.len() == 0 {
        Seq::empty()
    } else if !s.last().active {
        inactive_indices(s.drop_last()).push((s.len() - 1) as usize)
    } else {
        inactive_indices(s.drop_last())
    }
}

/// What a slot shows: its effect when active.
pub open spec fn slot_view(s: FxSlot) -> Option<FxEntity> {
    if s.active {
        Some(s.entity)
    } else {
        None
    }
}

/// The enemy an effect marks, when it is a status overlay.
pub open spec fn overlay_target(s: Option<FxEntity>) -> Option<usize> {
    match s {
        Some(e) => match e.data {
            FxData::StatusOverlay { target, .. } => Some(target),
            _ => None,
        },
        None => None,
    }
}

/// No two live status overlays mark the same enemy.
pub open spec fn overlays_unique(v: Seq<Option<FxEntity>>) -> bool {
    forall|i: int, j: int|
        0 <= i < v.len() && 0 <= j < v.len() && i != j && (#[trigger] overlay_target(v[i])) is Some
            ==> overlay_target(v[i]) != #[trigger] overlay_target(v[j])
}

/// Every capped kind has no more live effects than its cap.
pub open spec fn within_caps(counts: Seq<u16>) -> bool {
    forall|k: int|
        0 <= k < 12 && spec_max_by_kind(k) > 0 ==> #[trigger] counts[k] <= spec_max_by_kind(k)
}

/// Whether `e` may join the effects `v` without a second overlay on an enemy.
pub open spec fn overlay_fits(v: Seq<Option<FxEntity>>, e: FxEntity) -> bool {
    overlay_target(Some(e)) is Some ==> forall|j: int|
        0 <= j < v.len() ==> #[trigger] overlay_target(v[j]) != overlay_target(Some(e))
}

/// Whether a kind has room for one more live effect.
pub open spec fn below_cap(counts: Seq<u16>, k: int) -> bool {
    spec_max_by_kind(k) == 0 || counts[k] < spec_max_by_kind(k)
}

proof fn lemma_unique_update(v: Seq<Option<FxEntity>>, i: int, x: Option<FxEntity>)
    requires
        overlays_unique(v),
        0 <= i < v.len(),
        overlay_target(x) is None || overlay_target(x) == overlay_target(v[i]) || forall|j: int|
            0 <= j < v.len() ==> #[trigger] overlay_target(v[j]) != overlay_target(x),
    ensures
        overlays_unique(v.update(i, x)),
{
    let w = v.update(i, x);
    assert forall|a: int, b: int|
        0 <= a < w.len() && 0 <= b < w.len() && a != b && (#[trigger] overlay_target(w[a])) is Some implies overlay_target(w[a]) != #[trigger] overlay_target(w[b]) by {
        if a == i {
            assert(overlay_target(v[b]) == overlay_target(w[b]));
            if overlay_target(x) == overlay_target(v[i]) {
                assert(overlay_target(v[i]) != overlay_target(v[b]));
            }
        } else if b == i {
            assert(overlay_target(v[a]) == overlay_target(w[a]));
            if overlay_target(x) == overlay_target(v[i]) {
                assert(overlay_target(v[a]) != overlay_target(v[i]));
            } else if overlay_target(x) is Some {
                assert(overlay_target(v[a]) != overlay_target(x));
            }
        } else {
            assert(overlay_target(v[a]) != overlay_target(v[b]));
        }
    }
}

/// Where no slot shows another overlay than before, overlays stay unique.
proof fn lemma_unique_shrink(v: Seq<Option<FxEntity>>, w: Seq<Option<FxEntity>>)
    requires
        overlays_unique(v),
        v.len() == w.len(),
        forall|i: int|
            0 <= i < w.len() ==> #[trigger] overlay_target(w[i]) is None || overlay_target(w[i])
                == overlay_target(v[i]),
    ensures
        overlays_unique(w),
{
    assert forall|a: int, b: int|
        0 <= a < w.len() && 0 <= b < w.len() && a != b && (#[trigger] overlay_target(w[a])) is Some implies overlay_target(w[a]) != #[trigger] overlay_target(w[b]) by {
        assert(overlay_target(w[a]) == overlay_target(v[a]));
        if overlay_target(w[b]) is Some {
            assert(overlay_target(w[b]) == overlay_target(v[b]));
            assert(overlay_target(v[a]) != overlay_target(v[b]));
        }
    }
}

proof fn lemma_first_overlay_none(v: Seq<Option<FxEntity>>, n: int, target: usize)
    requires
        0 <= n <= v.len(),
        first_overlay(v, n, target) is None,
    ensures
        forall|j: int| 0 <= j < n ==> #[trigger] overlay_target(v[j]) != Some(target),
    decreases n,
{
    if n > 0 {
        lemma_first_overlay_none(v, n - 1, target);
    }
}

/// A spawn only ever takes the slot of a live effect whose priority is not
/// above the newcomer's.
pub proof fn lemma_replace_candidate_priority(slots: Seq<Option<FxEntity>>, n: int, prio: u8)
    requires
        0 <= n <= slots.len(),
    ensures
        replace_candidate(slots, n, prio) matches Some(i) ==> 0 <= i < n && slots[i] is Some
            && slots[i].unwrap().priority <= prio,
    decreases n,
{
    if n > 0 {
        lemma_replace_candidate_priority(slots, n - 1, prio);
    }
}

/// The abstract state of the effect pool.
pub struct FxState {
    /// The effect held by each slot, `None` for a free slot.
    pub slots: Seq<Option<FxEntity>>,
    /// Free slots; spawning takes the last one.
    pub free_list: Seq<usize>,
    /// Live effects per kind.
    pub active_counts: Seq<u16>,
    /// Spawns refused by a per-kind cap since the last tick.
    pub spawn_culled_by_kind: u16,
    /// The counters of the last frame drawn.
    pub stats: FxFrameStats,
}

pub struct FxManager {
    slots: Vec<FxSlot>,
    free_list: Vec<usize>,
    max_primitives_per_frame: usize,
    max_active: usize,
    stats: FxFrameStats,
    active_counts: [u16; 12],
    spawn_culled_by_kind: u16,
}

impl View for FxManager {
    type V = FxState;

    closed spec fn view(&self) -> FxState {
        FxState {
            slots: self.slots@.map_values(|s: FxSlot| slot_view(s)),
            free_list: self.free_list@,
            active_counts: self.active_counts@,
            spawn_culled_by_kind: self.spawn_culled_by_kind,
            stats: self.stats,
        }
    }
}

/// The best slot to give up for an effect of priority `prio` among the first
/// `n` slots: the active slot of lowest priority not above `prio`, the oldest
/// among those, the first among equals.
pub open spec fn replace_candidate(slots: Seq<Option<FxEntity>>, n: int, prio: u8) -> Option<int>
    decreases n,
{
    if n <= 0 {
        None
    } else {
        let best = replace_candidate(slots, n - 1, prio);
        match slots[n - 1] {
            None => best,
            Some(e) => if e.priority > prio {
                best
            } else {
                match best {
                    None => Some(n - 1),
                    Some(b) => {
                        let be = slots[b].unwrap();
                        if e.priority < be.priority || (e.priority == be.priority && e.age
                            > be.age) {
                            Some(n - 1)
                        } else {
                            best
                        }
                    },
                }
            },
        }
    }
}

/// The pool after spawning `e`, and the slot it went to.
pub open spec fn spec_spawn(st: FxState, e: FxEntity, allow_replace: bool) -> (FxState, Option<
    usize,
>) {
    let k = fx_kind_index(e.kind);
    let cap = spec_max_by_kind(k);
    if cap > 0 && st.active_counts[k] >= cap {
        (
            FxState {
                spawn_culled_by_kind: if st.spawn_culled_by_kind < u16::MAX {
                    (st.spawn_culled_by_kind + 1) as u16
                } else {
                    u16::MAX
                },
                ..st
            },
            None,
        )
    } else if st.free_list.len() > 0 {
        let idx = st.free_list.last();
        (
            FxState {
                slots: st.slots.update(idx as int, Some(e)),
                free_list: st.free_list.drop_last(),
                active_counts: st.active_counts.update(k, (st.active_counts[k] + 1) as u16),
                ..st
            },
            Some(idx),
        )
    } else if !allow_replace {
        (st, None)
    } else {
        match replace_candidate(st.slots, st.slots.len() as int, e.priority) {
            None => (st, None),
            Some(idx) => {
                let old_k = fx_kind_index(st.slots[idx].unwrap().kind);
                let counts1 = st.active_counts.update(
                    old_k,
                    (st.active_counts[old_k] - 1) as u16,
                );
                (
                    FxState {
                        slots: st.slots.update(idx, Some(e)),
                        active_counts: counts1.update(k, (counts1[k] + 1) as u16),
                        ..st
                    },
                    Some(idx as usize),
                )
            },
        }
    }
}

proof fn lemma_count_update(s: Seq<FxSlot>, i: int, v: FxSlot, k: int)
    requires
        0 <= i < s.len(),
    ensures
        count_kind(s.update(i, v), k) + slot_counts(s[i], k) == count_kind(s, k) + slot_counts(
            v,
            k,
        ),
    decreases s.len(),
{
    if i == s.len() - 1 {
        assert(s.update(i, v).drop_last() =~= s.drop_last());
    } else {
        lemma_count_update(s.drop_last(), i, v, k);
        assert(s.update(i, v).drop_last() =~= s.drop_last().update(i, v));
    }
}

proof fn lemma_count_bound(s: Seq<FxSlot>, k: int)
    ensures
        count_kind(s, k) <= s.len(),
    decreases s.len(),
{
    if s.len() > 0 {
        lemma_count_bound(s.drop_last(), k);
    }
}

proof fn lemma_inactive_indices(s: Seq<FxSlot>)
    requires
        s.len() <= usize::MAX,
    ensures
        inactive_indices(s).no_duplicates(),
        forall|j: int|
            0 <= j < inactive_indices(s).len() ==> (#[trigger] inactive_indices(s)[j]) < s.len()
                && !s[inactive_indices(s)[j] as int].active,
        forall|i: int|
            0 <= i < s.len() && !s[i].active ==> #[trigger] inactive_indices(s).contains(
                i as usize,
            ),
        forall|j1: int, j2: int|
            0 <= j1 < j2 < inactive_indices(s).len() ==> inactive_indices(s)[j1]
                < inactive_indices(s)[j2],
    decreases s.len(),
{
    if s.len() > 0 {
        let p = s.drop_last();
        lemma_inactive_indices(p);
        let ip = inactive_indices(p);
        assert forall|j: int| 0 <= j < ip.len() implies ip[j] < p.len() && s[ip[j] as int]
            == p[ip[j] as int] by {}
        if !s.last().active {
            assert forall|i: int| 0 <= i < s.len() && !s[i].active implies #[trigger] inactive_indices(
                s,
            ).contains(i as usize) by {
                if i < p.len() {
                    assert(!p[i].active);
                    assert(ip.contains(i as usize));
                    let j = choose|j: int| 0 <= j < ip.len() && ip[j] == i as usize;
                    assert(inactive_indices(s)[j] == i as usize);
                } else {
                    assert(inactive_indices(s)[ip.len() as int] == i as usize);
                }
            }
        } else {
            assert forall|i: int| 0 <= i < s.len() && !s[i].active implies #[trigger] inactive_indices(
                s,
            ).contains(i as usize) by {
                assert(i < p.len());
                assert(!p[i].active);
                assert(ip.contains(i as usize));
            }
        }
    }
}

impl FxManager {
    /// The pool's invariant: 5000 slots, the free list holds each inactive
    /// slot exactly once and nothing else, the per-kind counters count the
    /// live effects and stay within the caps, and no two live overlays mark
    /// the same enemy.
    pub closed spec fn wf(&self) -> bool {
        &&& self.slots@.len() == MAX_FX_ACTIVE
        &&& self.max_active == MAX_FX_ACTIVE
        &&& self.max_primitives_per_frame == MAX_PRIMITIVES_PER_FRAME
        &&& self.free_list@.no_duplicates()
        &&& forall|j: int|
            0 <= j < self.free_list@.len() ==> (#[trigger] self.free_list@[j]) < self.slots@.len()
                && !self.slots@[self.free_list@[j] as int].active
        &&& forall|i: int|
            0 <= i < self.slots@.len() && !self.slots@[i].active ==> #[trigger] self.free_list@.contains(
                i as usize,
            )
        &&& forall|k: int| 0 <= k < 12 ==> #[trigger] self.active_counts@[k] == count_kind(self.slots@, k)
        &&& within_caps(self.active_counts@)
        &&& overlays_unique(self@.slots)
    }

    /// The number of slots.
    pub open spec fn spec_capacity(&self) -> nat {
        self@.slots.len()
    }
}

/// The number of effects of kind `k` among the slots of a pool view.
pub open spec fn view_count(v: Seq<Option<FxEntity>>, k: int) -> nat
    decreases v.len(),
{
    if v.len() == 0 {
        0
    } else {
        view_count(v.drop_last(), k) + match v.last() {
            Some(e) => if fx_kind_index(e.kind) == k {
                1nat
            } else {
                0nat
            },
            None => 0nat,
        }
    }
}

/// The indices of the free slots of a pool view, in increasing order.
pub open spec fn free_indices(v: Seq<Option<FxEntity>>) -> Seq<usize>
    decreases v.len(),
{
    if v.len() == 0 {
        Seq::empty()
    } else if v.last() is None {
        free_indices(v.drop_last()).push((v.len() - 1) as usize)
    } else {
        free_indices(v.drop_last())
    }
}

proof fn lemma_view_of_slots(s: Seq<FxSlot>, k: int)
    ensures
        count_kind(s, k) == view_count(s.map_values(|x: FxSlot| slot_view(x)), k),
        inactive_indices(s) == free_indices(s.map_values(|x: FxSlot| slot_view(x))),
    decreases s.len(),
{
    if s.len() > 0 {
        lemma_view_of_slots(s.drop_last(), k);
        assert(s.map_values(|x: FxSlot| slot_view(x)).drop_last() =~= s.drop_last().map_values(
            |x: FxSlot| slot_view(x),
        ));
    }
}

/// The slot after one tick: its time to live runs down, its age up, and it
/// is freed when no time is left.
pub open spec fn tick_slot(s: Option<FxEntity>) -> Option<FxEntity> {
    match s {
        None => None,
        Some(e) => if e.ttl <= 1 {
            None
        } else {
            Some(
                FxEntity {
                    ttl: (e.ttl - 1) as u8,
                    age: if e.age < 255 {
                        (e.age + 1) as u8
                    } else {
                        255u8
                    },
                    ..e
                },
            )
        },
    }
}

/// A slot after `k` ticks.
pub open spec fn tick_slot_n(s: Option<FxEntity>, k: nat) -> Option<FxEntity>
    decreases k,
{
    if k == 0 {
        s
    } else {
        tick_slot(tick_slot_n(s, (k - 1) as nat))
    }
}

/// An effect with `t >= 1` ticks to live that nothing else touches is live
/// after `k` ticks exactly when `k < t`: its time to live is then `t - k`,
/// its age has grown by `k` (stopping at 255), and nothing else about it
/// changed.
pub proof fn lemma_ticks_until_expiry(e: FxEntity, k: nat)
    requires
        e.ttl >= 1,
    ensures
        (tick_slot_n(Some(e), k) is Some) == (k < e.ttl),
        k < e.ttl ==> tick_slot_n(Some(e), k) == Some(
            FxEntity {
                ttl: (e.ttl - k) as u8,
                age: if e.age + k <= 255 {
                    (e.age + k) as u8
                } else {
                    255u8
                },
                ..e
            },
        ),
    decreases k,
{
    if k > 0 {
        lemma_ticks_until_expiry(e, (k - 1) as nat);
    }
}

proof fn lemma_count_push(s: Seq<FxSlot>, x: FxSlot, k: int)
    ensures
        count_kind(s.push(x), k) == count_kind(s, k) + slot_counts(x, k),
{
    assert(s.push(x).drop_last() =~= s);
}

proof fn lemma_inactive_push(s: Seq<FxSlot>, x: FxSlot)
    ensures
        inactive_indices(s.push(x)) == if x.active {
            inactive_indices(s)
        } else {
            inactive_indices(s).push(s.len() as usize)
        },
{
    assert(s.push(x).drop_last() =~= s);
}

impl FxManager {
    /// A pool of 5000 free slots; the free list hands them out from the
    /// highest index down.
    pub fn new() -> (m: FxManager)
        ensures
            m.wf(),
            m@.slots == Seq::new(MAX_FX_ACTIVE as nat, |i: int| None::<FxEntity>),
            m@.free_list == Seq::new(MAX_FX_ACTIVE as nat, |i: int| i as usize),
            forall|k: int| 0 <= k < 12 ==> #[trigger] m@.active_counts[k] == 0,
            m@.spawn_culled_by_kind == 0,
            m@.stats.is_zero(),
    {
        let mut slots: Vec<FxSlot> = Vec::new();
        let mut free_list: Vec<usize> = Vec::new();
        let mut idx: usize = 0;
        while idx < MAX_FX_ACTIVE
            invariant
                idx <= MAX_FX_ACTIVE,
                slots@.len() == idx,
                free_list@ == Seq::new(idx as nat, |i: int| i as usize),
                forall|i: int| 0 <= i < idx ==> !(#[trigger] slots@[i]).active,
                forall|k: int| 0 <= k < 12 ==> #[trigger] count_kind(slots@, k) == 0,
            decreases MAX_FX_ACTIVE - idx,
        {
            let ghost before = slots@;
            let slot = FxSlot::new();
            slots.push(slot);
            proof {
                assert forall|k: int| 0 <= k < 12 implies #[trigger] count_kind(slots@, k) == 0 by {
                    lemma_count_push(before, slot, k);
                }
            }
            free_list.push(idx);
            assert(free_list@ =~= Seq::new((idx + 1) as nat, |i: int| i as usize));
            idx = idx + 1;
        }
        let m = FxManager {
            slots,
            free_list,
            max_primitives_per_frame: MAX_PRIMITIVES_PER_FRAME,
            max_active: MAX_FX_ACTIVE,
            stats: FxFrameStats::zero(),
            active_counts: [0u16; 12],
            spawn_culled_by_kind: 0,
        };
        proof {
            assert(m@.slots =~= Seq::new(MAX_FX_ACTIVE as nat, |i: int| None::<FxEntity>));
            assert forall|i: int|
                0 <= i < m.slots@.len() && !m.slots@[i].active implies #[trigger] m.free_list@.contains(
                i as usize,
            ) by {
                assert(m.free_list@[i] == i as usize);
            }
        }
        m
    }

    /// The counters of the last frame drawn.
    pub fn stats(&self) -> (s: FxFrameStats)
        ensures
            s == self@.stats,
    {
        self.stats
    }

    /// The effect held by slot `id`, if any.
    pub fn get(&self, id: usize) -> (r: Option<FxEntity>)
        requires
            self.wf(),
        ensures
            r == (if id < self@.slots.len() {
                self@.slots[id as int]
            } else {
                None
            }),
    {
        if id < self.slots.len() && self.slots[id].active {
            Some(self.slots[id].entity)
        } else {
            None
        }
    }

    /// Rebuilds the free list from the slots, in increasing index order.
    fn rebuild_free_list(&mut self)
        requires
            old(self).slots@.len() == MAX_FX_ACTIVE,
        ensures
            final(self).free_list@ == inactive_indices(old(self).slots@),
            final(self).slots == old(self).slots,
            final(self).active_counts == old(self).active_counts,
            final(self).spawn_culled_by_kind == old(self).spawn_culled_by_kind,
            final(self).max_active == old(self).max_active,
            final(self).max_primitives_per_frame == old(self).max_primitives_per_frame,
            final(self).stats == old(self).stats,
    {
        self.free_list.clear();
        let mut idx: usize = 0;
        while idx < self.slots.len()
            invariant
                idx <= self.slots@.len(),
                self.slots == old(self).slots,
                self.free_list@ == inactive_indices(self.slots@.take(idx as int)),
                self.active_counts == old(self).active_counts,
                self.spawn_culled_by_kind == old(self).spawn_culled_by_kind,
                self.max_active == old(self).max_active,
                self.max_primitives_per_frame == old(self).max_primitives_per_frame,
                self.stats == old(self).stats,
            decreases self.slots@.len() - idx,
        {
            proof {
                assert(self.slots@.take(idx + 1) =~= self.slots@.take(idx as int).push(
                    self.slots@[idx as int],
                ));
                lemma_inactive_push(self.slots@.take(idx as int), self.slots@[idx as int]);
            }
            if !self.slots[idx].active {
                self.free_list.push(idx);
            }
            idx = idx + 1;
        }
        assert(self.slots@.take(self.slots@.len() as int) =~= self.slots@);
    }

    /// Frees every slot and resets the counters.
    pub fn clear(&mut self)
        requires
            old(self).wf(),
        ensures
            final(self).wf(),
            final(self)@.slots == Seq::new(MAX_FX_ACTIVE as nat, |i: int| None::<FxEntity>),
            final(self)@.free_list == Seq::new(MAX_FX_ACTIVE as nat, |i: int| i as usize),
            forall|k: int| 0 <= k < 12 ==> #[trigger] final(self)@.active_counts[k] == 0,
            final(self)@.spawn_culled_by_kind == 0,
            final(self)@.stats.is_zero(),
    {
        let mut i: usize = 0;
        while i < self.slots.len()
            invariant
                i <= self.slots@.len(),
                self.slots@.len() == MAX_FX_ACTIVE,
                self.max_active == MAX_FX_ACTIVE,
                self.max_primitives_per_frame == MAX_PRIMITIVES_PER_FRAME,
                forall|j: int| 0 <= j < i ==> !(#[trigger] self.slots@[j]).active,
            decreases self.slots@.len() - i,
        {
            let mut slot = self.slots[i];
            slot.active = false;
            self.slots.set(i, slot);
            i = i + 1;
        }
        self.free_list.clear();
        let mut idx: usize = 0;
        while idx < self.max_active
            invariant
                idx <= self.max_active,
                self.max_active == MAX_FX_ACTIVE,
                self.max_primitives_per_frame == MAX_PRIMITIVES_PER_FRAME,
                self.slots@.len() == MAX_FX_ACTIVE,
                forall|j: int| 0 <= j < self.slots@.len() ==> !(#[trigger] self.slots@[j]).active,
                self.free_list@ == Seq::new(idx as nat, |i: int| i as usize),
            decreases self.max_active - idx,
        {
            self.free_list.push(idx);
            assert(self.free_list@ =~= Seq::new((idx + 1) as nat, |i: int| i as usize));
            idx = idx + 1;
        }
        self.stats = FxFrameStats::zero();
        self.active_counts = [0u16; 12];
        self.spawn_culled_by_kind = 0;
        proof {
            assert(self@.slots =~= Seq::new(MAX_FX_ACTIVE as nat, |i: int| None::<FxEntity>));
            assert forall|k: int| 0 <= k < 12 implies #[trigger] self.active_counts@[k] == count_kind(
                self.slots@,
                k,
            ) by {
                lemma_count_zero(self.slots@, k);
            }
            assert forall|i: int|
                0 <= i < self.slots@.len() && !self.slots@[i].active implies #[trigger] self.free_list@.contains(
                i as usize,
            ) by {
                assert(self.free_list@[i] == i as usize);
            }
        }
    }
}

proof fn lemma_count_ge_slot(s: Seq<FxSlot>, i: int, k: int)
    requires
        0 <= i < s.len(),
    ensures
        count_kind(s, k) >= slot_counts(s[i], k),
{
    lemma_count_update(s, i, FxSlot { entity: s[i].entity, active: false }, k);
}

proof fn lemma_map_update(s: Seq<FxSlot>, i: int, v: FxSlot)
    requires
        0 <= i < s.len(),
    ensures
        s.update(i, v).map_values(|x: FxSlot| slot_view(x)) =~= s.map_values(
            |x: FxSlot| slot_view(x),
        ).update(i, slot_view(v)),
{
}

impl FxManager {
    /// Puts `entity` into slot `idx`, which must be free, keeping the pool's
    /// invariant but for the free list, which still holds `idx` last.
    fn fill_free_slot(&mut self, idx: usize, entity: FxEntity)
        requires
            old(self).wf(),
            old(self).free_list@.len() > 0,
            old(self).free_list@.last() == idx,
            below_cap(old(self)@.active_counts, fx_kind_index(entity.kind)),
            overlay_fits(old(self)@.slots, entity),
        ensures
            final(self).wf(),
            final(self)@.slots == old(self)@.slots.update(idx as int, Some(entity)),
            final(self)@.free_list == old(self)@.free_list.drop_last(),
            final(self)@.active_counts == old(self)@.active_counts.update(
                fx_kind_index(entity.kind),
                (old(self)@.active_counts[fx_kind_index(entity.kind)] + 1) as u16,
            ),
            final(self)@.spawn_culled_by_kind == old(self)@.spawn_culled_by_kind,
            final(self)@.stats == old(self)@.stats,
    {
        let ghost old_slots = self.slots@;
        let ghost old_view = self@.slots;
        let ghost old_free = self.free_list@;
        let k = entity.kind.index();
        proof {
            assert(old_free[old_free.len() - 1] == idx);
            lemma_count_bound(old_slots, k as int);
            lemma_unique_update(old_view, idx as int, Some(entity));
        }
        self.free_list.pop();
        let slot = FxSlot { entity, active: true };
        self.slots.set(idx, slot);
        self.active_counts[k] = self.active_counts[k] + 1;
        proof {
            lemma_map_update(old_slots, idx as int, slot);
            assert forall|kk: int| 0 <= kk < 12 implies #[trigger] self.active_counts@[kk]
                == count_kind(self.slots@, kk) by {
                lemma_count_update(old_slots, idx as int, slot, kk);
            }
            assert forall|j: int| 0 <= j < self.free_list@.len() implies (
            #[trigger] self.free_list@[j]) < self.slots@.len() && !self.slots@[self.free_list@[
                j
            ] as int].active by {
                assert(self.free_list@[j] == old_free[j]);
                assert(old_free[j] != old_free[old_free.len() - 1]);
            }
            assert forall|i: int|
                0 <= i < self.slots@.len() && !self.slots@[i].active implies #[trigger] self.free_list@.contains(
                i as usize,
            ) by {
                assert(i != idx);
                assert(old_free.contains(i as usize));
                let j = choose|j: int| 0 <= j < old_free.len() && old_free[j] == i as usize;
                assert(j != old_free.len() - 1);
                assert(self.free_list@[j] == i as usize);
            }
            assert forall|a: int, b: int|
                0 <= a < self.free_list@.len() && 0 <= b < self.free_list@.len() && a != b implies self.free_list@[a]
                != self.free_list@[b] by {
                assert(old_free[a] != old_free[b]);
            }
        }
    }

    /// Replaces the effect in the active slot `idx` by `entity`.
    fn replace_slot(&mut self, idx: usize, entity: FxEntity)
        requires
            old(self).wf(),
            idx < old(self).slots@.len(),
            old(self).slots@[idx as int].active,
            below_cap(old(self)@.active_counts, fx_kind_index(entity.kind)),
            overlay_fits(old(self)@.slots, entity),
        ensures
            final(self).wf(),
            ({
                let old_k = fx_kind_index(old(self)@.slots[idx as int].unwrap().kind);
                let k = fx_kind_index(entity.kind);
                let counts1 = old(self)@.active_counts.update(
                    old_k,
                    (old(self)@.active_counts[old_k] - 1) as u16,
                );
                final(self)@.active_counts == counts1.update(k, (counts1[k] + 1) as u16)
            }),
            final(self)@.slots == old(self)@.slots.update(idx as int, Some(entity)),
            final(self)@.free_list == old(self)@.free_list,
            final(self)@.spawn_culled_by_kind == old(self)@.spawn_culled_by_kind,
            final(self)@.stats == old(self)@.stats,
    {
        let ghost old_slots = self.slots@;
        let ghost old_view = self@.slots;
        let old_k = self.slots[idx].entity.kind.index();
        let k = entity.kind.index();
        proof {
            lemma_count_ge_slot(old_slots, idx as int, old_k as int);
            lemma_count_bound(old_slots, k as int);
            lemma_unique_update(old_view, idx as int, Some(entity));
        }
        self.active_counts[old_k] = self.active_counts[old_k] - 1;
        self.active_counts[k] = self.active_counts[k] + 1;
        let slot = FxSlot { entity, active: true };
        self.slots.set(idx, slot);
        proof {
            lemma_map_update(old_slots, idx as int, slot);
            assert forall|kk: int| 0 <= kk < 12 implies #[trigger] self.active_counts@[kk]
                == count_kind(self.slots@, kk) by {
                lemma_count_update(old_slots, idx as int, slot, kk);
            }
            assert forall|j: int| 0 <= j < self.free_list@.len() implies (
            #[trigger] self.free_list@[j]) < self.slots@.len() && !self.slots@[self.free_list@[
                j
            ] as int].active by {
                assert(self.free_list@[j] != idx);
            }
        }
    }

    /// Spawns `entity` and returns its slot.  A kind at its cap refuses the
    /// effect (and counts the refusal); otherwise the last free slot takes it;
    /// with no free slot, and only when `allow_replace`, the least important
    /// effect of priority not above the new one's gives up its slot.
    fn spawn_entity_with_id(&mut self, entity: FxEntity, allow_replace: bool) -> (r: Option<usize>)
        requires
            old(self).wf(),
            overlay_fits(old(self)@.slots, entity),
        ensures
            final(self).wf(),
            (final(self)@, r) == spec_spawn(old(self)@, entity, allow_replace),
    {
        let k = entity.kind.index();
        let cap = max_by_kind(k);
        if cap > 0 && self.active_counts[k] >= cap {
            self.spawn_culled_by_kind = self.spawn_culled_by_kind.saturating_add(1);
            return None;
        }
        let n = self.free_list.len();
        if n > 0 {
            let idx = self.free_list[n - 1];
            self.fill_free_slot(idx, entity);
            return Some(idx);
        }
        if !allow_replace {
            return None;
        }
        let ghost v = self@.slots;
        let mut cand: Option<usize> = None;
        let mut best_prio: u8 = 0;
        let mut best_age: u8 = 0;
        let mut i: usize = 0;
        while i < self.slots.len()
            invariant
                i <= self.slots@.len(),
                v == self@.slots,
                v.len() == self.slots@.len(),
                match cand {
                    None => replace_candidate(v, i as int, entity.priority) is None,
                    Some(b) => replace_candidate(v, i as int, entity.priority) == Some(b as int)
                        && b < i && v[b as int] is Some && v[b as int].unwrap().priority
                        == best_prio && v[b as int].unwrap().age == best_age,
                },
            decreases self.slots@.len() - i,
        {
            let slot = self.slots[i];
            if slot.active {
                let prio = slot.entity.priority;
                if prio <= entity.priority {
                    match cand {
                        None => {
                            cand = Some(i);
                            best_prio = prio;
                            best_age = slot.entity.age;
                        },
                        Some(_) => {
                            if prio < best_prio || (prio == best_prio && slot.entity.age
                                > best_age) {
                                cand = Some(i);
                                best_prio = prio;
                                best_age = slot.entity.age;
                            }
                        },
                    }
                }
            }
            i = i + 1;
        }
        match cand {
            Some(idx) => {
                self.replace_slot(idx, entity);
                Some(idx)
            },
            None => None,
        }
    }
}

/// The effect after a projectile effect moved: its position, and the
/// direction it keeps when it carries one.
pub open spec fn moved_projectile(e: FxEntity, pos: Vec2i, dir: Vec2i) -> FxEntity {
    FxEntity {
        pos,
        data: match e.data {
            FxData::Projectile { kind, glyph_head, glyph_trail, .. } => FxData::Projectile {
                kind,
                dir,
                glyph_head,
                glyph_trail,
            },
            other => other,
        },
        ..e
    }
}

/// The effects after marking enemy `target` for `ttl` ticks: an overlay
/// already on it lasts the longer of the two and takes the new seed; else
/// a new overlay is spawned.
pub open spec fn overlaid(st: FxState, target: usize, ttl: u8, seed: u32) -> FxState {
    match first_overlay(st.slots, st.slots.len() as int, target) {
        Some(i) => {
            let e = st.slots[i].unwrap();
            FxState {
                slots: st.slots.update(
                    i,
                    Some(
                        FxEntity {
                            ttl: if e.ttl >= ttl {
                                e.ttl
                            } else {
                                ttl
                            },
                            seed,
                            ..e
                        },
                    ),
                ),
                ..st
            }
        },
        None => spec_spawn(st, status_overlay_entity(target, ttl, seed), false).0,
    }
}

/// The first live frost overlay on `target` among the first `n` slots.
pub open spec fn first_overlay(v: Seq<Option<FxEntity>>, n: int, target: usize) -> Option<int>
    decreases n,
{
    if n <= 0 {
        None
    } else {
        match first_overlay(v, n - 1, target) {
            Some(i) => Some(i),
            None => match v[n - 1] {
                Some(e) => match e.data {
                    FxData::StatusOverlay { target: t, .. } => if t == target {
                        Some(n - 1)
                    } else {
                        None
                    },
                    _ => None,
                },
                None => None,
            },
        }
    }
}

impl FxManager {
    /// Advances every live effect by one tick; effects whose time runs out
    /// are freed, the free list is rebuilt in increasing index order, and
    /// the count of refused spawns starts over.
    pub fn tick(&mut self)
        requires
            old(self).wf(),
        ensures
            final(self).wf(),
            final(self)@.slots == old(self)@.slots.map_values(|s: Option<FxEntity>| tick_slot(s)),
            final(self)@.free_list == free_indices(final(self)@.slots),
            forall|k: int| 0 <= k < 12 ==> #[trigger] final(self)@.active_counts[k] == view_count(final(self)@.slots, k),
            final(self)@.spawn_culled_by_kind == 0,
            final(self)@.stats == old(self)@.stats,
    {
        self.spawn_culled_by_kind = 0;
        let ghost old_v = self@.slots;
        let mut i: usize = 0;
        while i < self.slots.len()
            invariant
                i <= self.slots@.len(),
                self.slots@.len() == MAX_FX_ACTIVE,
                self.max_active == MAX_FX_ACTIVE,
                self.max_primitives_per_frame == MAX_PRIMITIVES_PER_FRAME,
                self.spawn_culled_by_kind == 0,
                self.stats == old(self).stats,
                old_v.len() == MAX_FX_ACTIVE,
                forall|j: int| 0 <= j < i ==> #[trigger] self@.slots[j] == tick_slot(old_v[j]),
                forall|j: int| i <= j < MAX_FX_ACTIVE ==> #[trigger] self@.slots[j] == old_v[j],
                forall|k: int|
                    0 <= k < 12 ==> #[trigger] self.active_counts@[k] == count_kind(self.slots@, k),
                within_caps(self.active_counts@),
            decreases self.slots@.len() - i,
        {
            let mut slot = self.slots[i];
            assert(self@.slots[i as int] == old_v[i as int]);
            assert(self@.slots[i as int] == slot_view(self.slots@[i as int]));
            if slot.active {
                let ghost before = self.slots@;
                slot.entity.ttl = slot.entity.ttl.saturating_sub(1);
                slot.entity.age = slot.entity.age.saturating_add(1);
                if slot.entity.ttl == 0 {
                    let k = slot.entity.kind.index();
                    proof {
                        lemma_count_ge_slot(before, i as int, k as int);
                    }
                    self.active_counts[k] = self.active_counts[k] - 1;
                    slot.active = false;
                }
                self.slots.set(i, slot);
                proof {
                    lemma_map_update(before, i as int, slot);
                    assert forall|kk: int| 0 <= kk < 12 implies #[trigger] self.active_counts@[kk]
                        == count_kind(self.slots@, kk) by {
                        lemma_count_update(before, i as int, slot, kk);
                    }
                    assert(before[i as int].active);
                    assert(old_v[i as int] == Some(before[i as int].entity));
                    assert(self@.slots[i as int] == slot_view(slot));
                    assert(slot_view(slot) == tick_slot(old_v[i as int]));
                }
            } else {
                proof {
                    assert(old_v[i as int] is None);
                }
            }
            i = i + 1;
        }
        assert(self@.slots =~= old_v.map_values(|s: Option<FxEntity>| tick_slot(s)));
        proof {
            assert forall|j: int| 0 <= j < self@.slots.len() implies #[trigger] overlay_target(
                self@.slots[j],
            ) is None || overlay_target(self@.slots[j]) == overlay_target(old_v[j]) by {
                assert(self@.slots[j] == tick_slot(old_v[j]));
            }
            lemma_unique_shrink(old_v, self@.slots);
        }
        self.rebuild_free_list();
        proof {
            lemma_inactive_indices(self.slots@);
            lemma_view_of_slots(self.slots@, 0);
            lemma_fx_wf_facts(&*self);
        }
    }

    /// Whether every live effect can be drawn (see `all_drawable`).
    pub fn drawable(&self) -> (b: bool)
        requires
            self.wf(),
        ensures
            b == all_drawable(self@.slots),
    {
        let mut i: usize = 0;
        while i < self.slots.len()
            invariant
                self.wf(),
                i <= self.slots@.len(),
                forall|j: int|
                    0 <= j < i && #[trigger] self@.slots[j] is Some ==> self@.slots[j]->0.priority <= 100
                        && entity_fits(self@.slots[j]->0),
            decreases self.slots@.len() - i,
        {
            let s = self.slots[i];
            proof {
                assert(self@.slots[i as int] == slot_view(s));
            }
            if s.active {
                if s.entity.priority > 100 || !entity_fits_exec(&s.entity) {
                    proof {
                        assert(self@.slots[i as int] is Some);
                    }
                    return false;
                }
            }
            i = i + 1;
        }
        true
    }

    /// Draws a frame: the live effects, highest priority first and in slot
    /// order among equals, each as far as the frame's budget of strokes
    /// goes (an effect met once the budget is spent is counted as culled);
    /// the frame's counters are kept (strokes drawn, effects culled, spawns
    /// refused since the last tick, live effects per kind).
    pub fn render_plan(
        &mut self,
        zoom: u16,
        area: Rect,
        vp: MapViewport,
        enemies: &Vec<Enemy>,
        path: &Vec<(u16, u16)>,
    ) -> (r: Vec<Stroke>)
        requires
            old(self).wf(),
            area_fits(area, vp),
            all_drawable(old(self)@.slots),
        ensures
            final(self).wf(),
            ({
                let c = FrameCtx {
                    lod: lod_for(zoom),
                    zoom,
                    area,
                    vp,
                    enemies: enemies@,
                    path: path@,
                };
                let f = frame_from(
                    old(self)@.slots,
                    100,
                    FrameState { strokes: seq![], left: MAX_PRIMITIVES_PER_FRAME as int, culled: 0 },
                    c,
                );
                &&& r@ == f.strokes
                &&& final(self)@.stats.primitives_drawn == MAX_PRIMITIVES_PER_FRAME - f.left
                &&& final(self)@.stats.culled_by_budget == f.culled as u16
                &&& f.culled > 0 ==> final(self)@.stats.primitives_drawn == MAX_PRIMITIVES_PER_FRAME
            }),
            final(self)@.stats.primitives_drawn <= MAX_PRIMITIVES_PER_FRAME,
            final(self)@.stats.culled_by_kind == old(self)@.spawn_culled_by_kind,
            final(self)@.stats.active_by_kind@ == old(self)@.active_counts,
            forall|k: int| 0 <= k < 12 ==> #[trigger] final(self)@.stats.active_by_kind@[k] == view_count(old(self)@.slots, k),
            final(self)@.slots == old(self)@.slots,
            final(self)@.free_list == old(self)@.free_list,
            final(self)@.active_counts == old(self)@.active_counts,
            final(self)@.spawn_culled_by_kind == old(self)@.spawn_culled_by_kind,
    {
        let lod = lod_from_zoom(zoom);
        let ghost c = FrameCtx { lod, zoom, area, vp, enemies: enemies@, path: path@ };
        let ghost slots = self@.slots;
        let mut out: Vec<Stroke> = Vec::new();
        let mut left: i64 = MAX_PRIMITIVES_PER_FRAME as i64;
        let mut culled: u32 = 0;
        let ghost start = FrameState { strokes: seq![], left: MAX_PRIMITIVES_PER_FRAME as int, culled: 0 };
        let mut p: i64 = 100;
        while p >= 0
            invariant
                -1 <= p <= 100,
                self.wf(),
                self@.slots == slots,
                slots == old(self)@.slots,
                area_fits(area, vp),
                all_drawable(slots),
                c == (FrameCtx { lod, zoom, area, vp, enemies: enemies@, path: path@ }),
                frame_from(slots, 100, start, c) == frame_from(
                    slots,
                    p as int,
                    FrameState { strokes: out@, left: left as int, culled: culled as nat },
                    c,
                ),
                0 <= left <= MAX_PRIMITIVES_PER_FRAME,
                culled <= (100 - p) * MAX_FX_ACTIVE,
            decreases p + 1,
        {
            let ghost before = FrameState { strokes: out@, left: left as int, culled: culled as nat };
            let mut i: usize = 0;
            while i < self.slots.len()
                invariant
                    0 <= p <= 100,
                    self.wf(),
                    self@.slots == slots,
                    i <= slots.len(),
                    area_fits(area, vp),
                    all_drawable(slots),
                    frame_slots(slots, p as int, i as int, before, c) == (FrameState {
                        strokes: out@,
                        left: left as int,
                        culled: culled as nat,
                    }),
                    0 <= left <= MAX_PRIMITIVES_PER_FRAME,
                    culled <= (100 - p) * MAX_FX_ACTIVE + i,
                    c == (FrameCtx { lod, zoom, area, vp, enemies: enemies@, path: path@ }),
                decreases slots.len() - i,
            {
                let s = self.slots[i];
                proof {
                    assert(self@.slots[i as int] == slot_view(s));
                }
                if s.active && s.entity.priority as i64 == p {
                    if left <= 0 {
                        culled = culled + 1;
                    } else {
                        let mut es: Vec<Stroke> = Vec::new();
                        plan_entity(&mut es, &s.entity, lod, zoom, area, vp, enemies, path);
                        let ghost full = es@;
                        let n: usize = if es.len() <= left as usize {
                            es.len()
                        } else {
                            left as usize
                        };
                        let mut k: usize = 0;
                        let ghost out0 = out@;
                        while k < n
                            invariant
                                k <= n,
                                n <= es@.len(),
                                es@ == full,
                                out@ == out0 + full.take(k as int),
                            decreases n - k,
                        {
                            out.push(es[k]);
                            proof {
                                assert(full.take(k + 1) =~= full.take(k as int).push(full[k as int]));
                            }
                            k = k + 1;
                        }
                        left = left - n as i64;
                        proof {
                            let prev = frame_slots(slots, p as int, i as int, before, c);
                            assert(out@ =~= prev.strokes + entity_strokes(
                                s.entity,
                                c.lod,
                                c.zoom,
                                c.area,
                                c.vp,
                                c.enemies,
                                c.path,
                            ).take(n as int));
                        }
                    }
                }
                i = i + 1;
            }
            p = p - 1;
        }
        self.stats = FxFrameStats {
            primitives_drawn: (MAX_PRIMITIVES_PER_FRAME as i64 - left) as u16,
            culled_by_budget: culled as u16,
            culled_by_kind: self.spawn_culled_by_kind,
            active_by_kind: self.active_counts,
        };
        proof {
            lemma_fx_wf_facts(&*self);
            lemma_frame_within_budget(slots, 100, start, c);
        }
        out
    }

    /// Frees slot `id` if it holds an effect; the slot goes back on the free
    /// list.
    pub fn despawn(&mut self, id: usize)
        requires
            old(self).wf(),
        ensures
            final(self).wf(),
            final(self)@ == spec_despawn(old(self)@, id),
    {
        if id < self.slots.len() && self.slots[id].active {
            let ghost before = self.slots@;
            let ghost before_view = self@.slots;
            let ghost old_free = self.free_list@;
            proof {
                lemma_unique_update(before_view, id as int, None);
            }
            let mut slot = self.slots[id];
            let k = slot.entity.kind.index();
            proof {
                lemma_count_ge_slot(before, id as int, k as int);
            }
            self.active_counts[k] = self.active_counts[k] - 1;
            slot.active = false;
            self.slots.set(id, slot);
            self.free_list.push(id);
            proof {
                lemma_map_update(before, id as int, slot);
                assert forall|kk: int| 0 <= kk < 12 implies #[trigger] self.active_counts@[kk]
                    == count_kind(self.slots@, kk) by {
                    lemma_count_update(before, id as int, slot, kk);
                }
                assert(!old_free.contains(id));
                assert forall|j: int| 0 <= j < self.free_list@.len() implies (
                #[trigger] self.free_list@[j]) < self.slots@.len() && !self.slots@[self.free_list@[
                    j
                ] as int].active by {
                    if j < old_free.len() {
                        assert(self.free_list@[j] == old_free[j]);
                    }
                }
                assert forall|i: int|
                    0 <= i < self.slots@.len() && !self.slots@[i].active implies #[trigger] self.free_list@.contains(
                    i as usize,
                ) by {
                    if i == id {
                        assert(self.free_list@[old_free.len() as int] == id);
                    } else {
                        assert(old_free.contains(i as usize));
                        let j = choose|j: int| 0 <= j < old_free.len() && old_free[j] == i as usize;
                        assert(self.free_list@[j] == i as usize);
                    }
                }
                assert forall|a: int, b: int|
                    0 <= a < self.free_list@.len() && 0 <= b < self.free_list@.len() && a
                        != b implies self.free_list@[a] != self.free_list@[b] by {
                    if a < old_free.len() && b < old_free.len() {
                        assert(old_free[a] != old_free[b]);
                    } else if a < old_free.len() {
                        assert(old_free.contains(old_free[a]));
                    } else if b < old_free.len() {
                        assert(old_free.contains(old_free[b]));
                    }
                }
            }
        }
    }

    /// Moves the projectile effect in slot `id` (if that slot holds one) to
    /// `pos`, heading `dir`.
    pub fn update_projectile_pos(&mut self, id: usize, pos: Vec2i, dir: Vec2i)
        requires
            old(self).wf(),
        ensures
            final(self).wf(),
            final(self)@ == spec_move_projectile(old(self)@, id, pos, dir),
    {
        if id < self.slots.len() {
            let mut slot = self.slots[id];
            if slot.active && slot.entity.kind == FxKind::Projectile {
                let ghost before = self.slots@;
                let ghost before_view = self@.slots;
                slot.entity.pos = pos;
                slot.entity.data = match slot.entity.data {
                    FxData::Projectile { kind, glyph_head, glyph_trail, .. } => FxData::Projectile {
                        kind,
                        dir,
                        glyph_head,
                        glyph_trail,
                    },
                    other => other,
                };
                self.slots.set(id, slot);
                proof {
                    assert(before_view[id as int] == Some(before[id as int].entity));
                    assert(overlay_target(Some(slot.entity)) == overlay_target(before_view[id as int]));
                    lemma_unique_update(before_view, id as int, Some(slot.entity));
                    lemma_map_update(before, id as int, slot);
                    assert forall|kk: int| 0 <= kk < 12 implies #[trigger] self.active_counts@[kk]
                        == count_kind(self.slots@, kk) by {
                        lemma_count_update(before, id as int, slot, kk);
                    }
                }
            }
        }
    }

    /// Refreshes the frost overlay already shown on enemy `target` (its time
    /// to live becomes at least `ttl`, its seed `seed`), or spawns a new one.
    pub fn spawn_status_overlay(&mut self, target: usize, ttl: u8, seed: u32)
        requires
            old(self).wf(),
        ensures
            final(self).wf(),
            final(self)@ == overlaid(old(self)@, target, ttl, seed),
    {
        let ghost v = self@.slots;
        let mut i: usize = 0;
        while i < self.slots.len()
            invariant
                i <= self.slots@.len(),
                self.wf(),
                v == self@.slots,
                first_overlay(v, i as int, target) is None,
                self@ == old(self)@,
            decreases self.slots@.len() - i,
        {
            let slot = self.slots[i];
            if slot.active {
                match slot.entity.data {
                    FxData::StatusOverlay { target: t, .. } => {
                        if t == target {
                            let ghost before = self.slots@;
                            let mut updated = slot;
                            if ttl > updated.entity.ttl {
                                updated.entity.ttl = ttl;
                            }
                            updated.entity.seed = seed;
                            self.slots.set(i, updated);
                            proof {
                                assert(v[i as int] == Some(slot.entity));
                                lemma_unique_update(v, i as int, Some(updated.entity));
                                lemma_map_update(before, i as int, updated);
                                assert forall|kk: int| 0 <= kk < 12 implies #[trigger] self.active_counts@[kk]
                                    == count_kind(self.slots@, kk) by {
                                    lemma_count_update(before, i as int, updated, kk);
                                }
                                lemma_first_overlay_found(v, i as int, target);
                            }
                            return;
                        }
                    },
                    _ => {},
                }
            }
            i = i + 1;
        }
        let entity = FxEntity {
            kind: FxKind::StatusOverlay,
            pos: Vec2i { x: 0, y: 0 },
            ttl,
            age: 0,
            priority: 20,
            seed,
            data: FxData::StatusOverlay { target, kind: StatusOverlayKind::Frost },
        };
        proof {
            lemma_first_overlay_none(v, v.len() as int, target);
        }
        self.spawn_entity_with_id(entity, false);
    }
}

proof fn lemma_first_overlay_found(v: Seq<Option<FxEntity>>, i: int, target: usize)
    requires
        0 <= i < v.len(),
        first_overlay(v, i, target) is None,
        first_overlay(v, i + 1, target) is Some,
    ensures
        first_overlay(v, v.len() as int, target) == Some(i),
    decreases v.len() - i,
{
    lemma_first_overlay_stable(v, i + 1, v.len() as int, target);
}

proof fn lemma_first_overlay_stable(v: Seq<Option<FxEntity>>, a: int, b: int, target: usize)
    requires
        0 <= a <= b <= v.len(),
        first_overlay(v, a, target) is Some,
    ensures
        first_overlay(v, b, target) == first_overlay(v, a, target),
    decreases b - a,
{
    if a < b {
        lemma_first_overlay_stable(v, a, b - 1, target);
    }
}

/// The frost overlay effect on enemy `target`.
pub open spec fn status_overlay_entity(target: usize, ttl: u8, seed: u32) -> FxEntity {
    FxEntity {
        kind: FxKind::StatusOverlay,
        pos: Vec2i { x: 0, y: 0 },
        ttl,
        age: 0,
        priority: 20,
        seed,
        data: FxData::StatusOverlay { target, kind: StatusOverlayKind::Frost },
    }
}

/// The glyphs and lifetime of a tower's muzzle flash.
#[derive(Debug, Clone, Copy)]
pub struct MuzzleProfile {
    pub glyph_main: &'static str,
    pub glyph_fade: Option<&'static str>,
    pub ttl: u8,
}

impl MuzzleProfile {
    pub fn new(glyph_main: &'static str, glyph_fade: Option<&'static str>, ttl: u8) -> (p: MuzzleProfile)
        ensures
            p.glyph_main == glyph_main,
            p.glyph_fade == glyph_fade,
            p.ttl == ttl,
    {
        MuzzleProfile { glyph_main, glyph_fade, ttl }
    }
}

/// How long a tower's muzzle flash lasts.
pub open spec fn muzzle_ttl(kind: TowerKind) -> u8 {
    match kind {
        TowerKind::Basic => 2,
        TowerKind::Sniper => 1,
        TowerKind::Rapid => 1,
        TowerKind::Cannon => 3,
        TowerKind::Tesla => 2,
        TowerKind::Frost => 2,
    }
}

/// The muzzle flash of each tower kind: its glyph, the glyph it fades to
/// (none for a sniper) and how long it lasts.
pub open spec fn spec_muzzle_profile(kind: TowerKind) -> MuzzleProfile {
    match kind {
        TowerKind::Basic => MuzzleProfile { glyph_main: "┼", glyph_fade: Some("▒"), ttl: 2 },
        TowerKind::Sniper => MuzzleProfile { glyph_main: "━", glyph_fade: None, ttl: 1 },
        TowerKind::Rapid => MuzzleProfile { glyph_main: "▪", glyph_fade: Some("·"), ttl: 1 },
        TowerKind::Cannon => MuzzleProfile { glyph_main: "◉", glyph_fade: Some("▓"), ttl: 3 },
        TowerKind::Tesla => MuzzleProfile { glyph_main: "╬", glyph_fade: Some("╫"), ttl: 2 },
        TowerKind::Frost => MuzzleProfile { glyph_main: "✦", glyph_fade: Some("░"), ttl: 2 },
    }
}

/// The muzzle flash of each tower kind (see `spec_muzzle_profile`).
pub fn muzzle_profile(kind: TowerKind) -> (p: MuzzleProfile)
    ensures
        p == spec_muzzle_profile(kind),
        p.ttl == muzzle_ttl(kind),
{
    match kind {
        TowerKind::Basic => MuzzleProfile::new("┼", Some("▒"), 2),
        TowerKind::Sniper => MuzzleProfile::new("━", None, 1),
        TowerKind::Rapid => MuzzleProfile::new("▪", Some("·"), 1),
        TowerKind::Cannon => MuzzleProfile::new("◉", Some("▓"), 3),
        TowerKind::Tesla => MuzzleProfile::new("╬", Some("╫"), 2),
        TowerKind::Frost => MuzzleProfile::new("✦", Some("░"), 2),
    }
}

/// The head and trail glyphs of each tower's projectile.
pub open spec fn spec_projectile_glyphs(kind: TowerKind) -> (&'static str, &'static str) {
    match kind {
        TowerKind::Basic => ("•", "·"),
        TowerKind::Sniper => ("─", "─"),
        TowerKind::Rapid => ("▪", "·"),
        TowerKind::Cannon => ("●", "◍"),
        TowerKind::Tesla => ("╋", "╌"),
        TowerKind::Frost => ("◆", "░"),
    }
}

/// The head and trail glyphs of each tower's projectile.
pub fn projectile_glyphs(kind: TowerKind) -> (g: (&'static str, &'static str))
    ensures
        g == spec_projectile_glyphs(kind),
{
    match kind {
        TowerKind::Basic => ("•", "·"),
        TowerKind::Sniper => ("─", "─"),
        TowerKind::Rapid => ("▪", "·"),
        TowerKind::Cannon => ("●", "◍"),
        TowerKind::Tesla => ("╋", "╌"),
        TowerKind::Frost => ("◆", "░"),
    }
}

/// One xorshift32 step (shifts 13, 17, 5).
pub open spec fn spec_xorshift32(x: u32) -> u32 {
    let a = x ^ (x << 13u32);
    let b = a ^ (a >> 17u32);
    b ^ (b << 5u32)
}

/// One xorshift32 step (shifts 13, 17, 5).
pub fn xorshift32(x: u32) -> (r: u32)
    ensures
        r == spec_xorshift32(x),
{
    let mut x = x;
    x = x ^ (x << 13u32);
    x = x ^ (x >> 17u32);
    x = x ^ (x << 5u32);
    x
}

/// The sign of a coordinate difference: -1, 0 or 1.
pub open spec fn sign(v: int) -> i16 {
    if v > 0 {
        1
    } else if v < 0 {
        -1i16
    } else {
        0
    }
}

/// The sign of `v`.
pub fn signum(v: i16) -> (s: i16)
    ensures
        s == sign(v as int),
{
    if v > 0 {
        1
    } else if v < 0 {
        -1
    } else {
        0
    }
}

/// The offsets around a dust cloud's centre, in the order they are tried.
pub open spec fn dust_offset(i: int) -> Vec2i {
    if i == 0 {
        Vec2i { x: -1i16, y: 0 }
    } else if i == 1 {
        Vec2i { x: 1, y: 0 }
    } else if i == 2 {
        Vec2i { x: 0, y: -1i16 }
    } else if i == 3 {
        Vec2i { x: 0, y: 1 }
    } else if i == 4 {
        Vec2i { x: -1i16, y: -1i16 }
    } else {
        Vec2i { x: 1, y: 1 }
    }
}

/// The seed after `n` xorshift32 steps.
pub open spec fn xorshift32_iter(x: u32, n: nat) -> u32
    decreases n,
{
    if n == 0 {
        x
    } else {
        spec_xorshift32(xorshift32_iter(x, (n - 1) as nat))
    }
}

/// The cells of a dust cloud among the first `n` offsets: an offset is kept
/// unless the seed after as many xorshift steps is a multiple of 3.
pub open spec fn dust_kept(center: Vec2i, seed: u32, n: nat) -> Seq<Vec2i>
    decreases n,
{
    if n == 0 {
        Seq::empty()
    } else {
        let prev = dust_kept(center, seed, (n - 1) as nat);
        if xorshift32_iter(seed, n) % 3 == 0 {
            prev
        } else {
            let off = dust_offset(n - 1);
            prev.push(Vec2i { x: (center.x + off.x) as i16, y: (center.y + off.y) as i16 })
        }
    }
}

/// The cells of a dust cloud: the kept offsets, or the centre alone when
/// none is kept.
pub open spec fn dust_cells(center: Vec2i, seed: u32) -> Seq<Vec2i> {
    if dust_kept(center, seed, 6).len() == 0 {
        seq![center]
    } else {
        dust_kept(center, seed, 6)
    }
}

proof fn lemma_dust_kept_len(center: Vec2i, seed: u32, n: nat)
    ensures
        dust_kept(center, seed, n).len() <= n,
    decreases n,
{
    if n > 0 {
        lemma_dust_kept_len(center, seed, (n - 1) as nat);
    }
}

/// A position's coordinates stay within `i16` when moved by one cell.
pub open spec fn near_i16(p: Vec2i) -> bool {
    i16::MIN < p.x < i16::MAX && i16::MIN < p.y < i16::MAX
}

/// Cell `i` of a dust cloud's array: its `i`-th cell, or the origin past
/// the last.
pub open spec fn dust_slot(center: Vec2i, seed: u32, i: int) -> Vec2i {
    if i < dust_cells(center, seed).len() {
        dust_cells(center, seed)[i]
    } else {
        Vec2i { x: 0, y: 0 }
    }
}

/// The dust cloud effect around `center`.
pub open spec fn dust_entity(center: Vec2i, seed: u32) -> FxEntity {
    FxEntity {
        kind: FxKind::Dust,
        pos: center,
        ttl: 3,
        age: 0,
        priority: 40,
        seed,
        data: FxData::Dust {
            count: dust_cells(center, seed).len() as u8,
            cells: [
                dust_slot(center, seed, 0),
                dust_slot(center, seed, 1),
                dust_slot(center, seed, 2),
                dust_slot(center, seed, 3),
                dust_slot(center, seed, 4),
                dust_slot(center, seed, 5),
            ],
        },
    }
}

/// A plain effect of the given kind, timing and priority, with no data.
pub open spec fn plain_entity(kind: FxKind, pos: Vec2i, ttl: u8, priority: u8, seed: u32, data: FxData) -> FxEntity {
    FxEntity { kind, pos, ttl, age: 0, priority, seed, data }
}

/// The pool after moving the projectile effect in slot `id` to `pos`,
/// heading `dir`; any other slot content, or a missing slot, stays.
pub open spec fn spec_move_projectile(st: FxState, id: usize, pos: Vec2i, dir: Vec2i) -> FxState {
    if id < st.slots.len() && st.slots[id as int] is Some && st.slots[id as int].unwrap().kind
        == FxKind::Projectile {
        FxState {
            slots: st.slots.update(id as int, Some(moved_projectile(st.slots[id as int].unwrap(), pos, dir))),
            ..st
        }
    } else {
        st
    }
}

/// The pool after freeing slot `id`: an effect there is removed and the
/// slot goes back on the free list; a free or missing slot changes
/// nothing.
pub open spec fn spec_despawn(st: FxState, id: usize) -> FxState {
    if id < st.slots.len() && st.slots[id as int] is Some {
        let k = fx_kind_index(st.slots[id as int].unwrap().kind);
        FxState {
            slots: st.slots.update(id as int, None),
            free_list: st.free_list.push(id),
            active_counts: st.active_counts.update(k, (st.active_counts[k] - 1) as u16),
            ..st
        }
    } else {
        st
    }
}

/// The effects after a tesla beam from `from` to `to`: a lasting arc
/// (seed `seed1`), a one-tick arc (seed `seed2`) and a flash at the target
/// (seed `seed1 ^ 0xBEEF`).
pub open spec fn tesla_beam_fx(a: FxState, from: Vec2i, to: Vec2i, seed1: u32, seed2: u32) -> FxState {
    let arc = FxData::ArcLightning { from, to, segments_max: 12 };
    let st1 = spec_spawn(a, plain_entity(FxKind::ArcLightning, from, 3, 85, seed1, arc), false).0;
    let st2 = spec_spawn(st1, plain_entity(FxKind::ArcLightning, from, 1, 85, seed2, arc), false).0;
    spec_spawn(st2, plain_entity(FxKind::TargetFlash, to, 1, 100, seed1 ^ 0xBEEFu32, FxData::NoData), false).0
}

impl FxManager {
    fn spawn_entity(&mut self, entity: FxEntity, allow_replace: bool) -> (r: Option<usize>)
        requires
            old(self).wf(),
            overlay_fits(old(self)@.slots, entity),
        ensures
            final(self).wf(),
            (final(self)@, r) == spec_spawn(old(self)@, entity, allow_replace),
    {
        self.spawn_entity_with_id(entity, allow_replace)
    }

    /// The flash at a tower's muzzle, one cell from the tower in the firing
    /// direction; it may take the slot of a less important effect.
    pub fn spawn_muzzle(&mut self, kind: TowerKind, tower_pos: Vec2i, dir: Vec2i, seed: u32)
        requires
            old(self).wf(),
            i16::MIN <= tower_pos.x + dir.x <= i16::MAX,
            i16::MIN <= tower_pos.y + dir.y <= i16::MAX,
        ensures
            final(self).wf(),
            final(self)@ == spec_spawn(
                old(self)@,
                plain_entity(
                    FxKind::MuzzleFlash,
                    Vec2i { x: (tower_pos.x + dir.x) as i16, y: (tower_pos.y + dir.y) as i16 },
                    muzzle_ttl(kind),
                    90,
                    seed,
                    FxData::Muzzle { kind, dir },
                ),
                true,
            ).0,
    {
        let profile = muzzle_profile(kind);
        let pos = Vec2i::new(tower_pos.x + dir.x, tower_pos.y + dir.y);
        let entity = FxEntity {
            kind: FxKind::MuzzleFlash,
            pos,
            ttl: profile.ttl,
            age: 0,
            priority: 90,
            seed,
            data: FxData::Muzzle { kind, dir },
        };
        self.spawn_entity(entity, true);
    }

    /// A one-tick tracer line from `from` to `to`.
    pub fn spawn_tracer_line(&mut self, kind: TowerKind, from: Vec2i, to: Vec2i, seed: u32)
        requires
            old(self).wf(),
        ensures
            final(self).wf(),
            final(self)@ == spec_spawn(
                old(self)@,
                plain_entity(FxKind::TracerLine, from, 1, 60, seed, FxData::TracerLine { kind, from, to }),
                false,
            ).0,
    {
        let entity = FxEntity {
            kind: FxKind::TracerLine,
            pos: from,
            ttl: 1,
            age: 0,
            priority: 60,
            seed,
            data: FxData::TracerLine { kind, from, to },
        };
        self.spawn_entity(entity, false);
    }

    /// A projectile effect at `from` heading towards `to`; returns its slot
    /// so that the projectile's moves can update it.
    pub fn spawn_projectile(&mut self, kind: TowerKind, from: Vec2i, to: Vec2i, ttl: u8, seed: u32) -> (r: Option<usize>)
        requires
            old(self).wf(),
            i16::MIN <= to.x - from.x <= i16::MAX,
            i16::MIN <= to.y - from.y <= i16::MAX,
        ensures
            final(self).wf(),
            (final(self)@, r) == spec_spawn(
                old(self)@,
                plain_entity(
                    FxKind::Projectile,
                    from,
                    ttl,
                    80,
                    seed,
                    FxData::Projectile {
                        kind,
                        dir: Vec2i { x: sign(to.x - from.x), y: sign(to.y - from.y) },
                        glyph_head: spec_projectile_glyphs(kind).0,
                        glyph_trail: spec_projectile_glyphs(kind).1,
                    },
                ),
                false,
            ),
    {
        let dir = Vec2i::new(signum(to.x - from.x), signum(to.y - from.y));
        let (glyph_head, glyph_trail) = projectile_glyphs(kind);
        let entity = FxEntity {
            kind: FxKind::Projectile,
            pos: from,
            ttl,
            age: 0,
            priority: 80,
            seed,
            data: FxData::Projectile { kind, dir, glyph_head, glyph_trail },
        };
        self.spawn_entity_with_id(entity, false)
    }

    /// The cross shown where a bullet hits.
    pub fn spawn_impact_cross(&mut self, pos: Vec2i, kind: TowerKind, seed: u32)
        requires
            old(self).wf(),
        ensures
            final(self).wf(),
            final(self)@ == spec_spawn(
                old(self)@,
                plain_entity(FxKind::ImpactCross, pos, 2, 100, seed, FxData::ImpactCross { kind }),
                false,
            ).0,
    {
        let entity = FxEntity {
            kind: FxKind::ImpactCross,
            pos,
            ttl: 2,
            age: 0,
            priority: 100,
            seed,
            data: FxData::ImpactCross { kind },
        };
        self.spawn_entity(entity, false);
    }

    /// The ring of a cannon shell's blast.
    pub fn spawn_impact_ring(&mut self, pos: Vec2i, seed: u32)
        requires
            old(self).wf(),
        ensures
            final(self).wf(),
            final(self)@ == spec_spawn(
                old(self)@,
                plain_entity(FxKind::ImpactRing, pos, 3, 100, seed, FxData::ImpactRing { max_radius: 2 }),
                false,
            ).0,
    {
        let entity = FxEntity {
            kind: FxKind::ImpactRing,
            pos,
            ttl: 3,
            age: 0,
            priority: 100,
            seed,
            data: FxData::ImpactRing { max_radius: 2 },
        };
        self.spawn_entity(entity, false);
    }

    /// A dust cloud around `center` (see `dust_cells`).
    pub fn spawn_dust(&mut self, center: Vec2i, seed: u32)
        requires
            old(self).wf(),
            near_i16(center),
        ensures
            final(self).wf(),
            final(self)@ == spec_spawn(old(self)@, dust_entity(center, seed), false).0,
    {
        let mut cells = [Vec2i { x: 0, y: 0 }; 6];
        let mut count: u8 = 0;
        let mut seed_state = seed;
        let mut i: usize = 0;
        while i < 6
            invariant
                i <= 6,
                near_i16(center),
                cells@.len() == 6,
                count as int == dust_kept(center, seed, i as nat).len(),
                seed_state == xorshift32_iter(seed, i as nat),
                forall|j: int| 0 <= j < count ==> #[trigger] cells@[j] == dust_kept(center, seed, i as nat)[j],
                forall|j: int| count <= j < 6 ==> #[trigger] cells@[j] == (Vec2i { x: 0, y: 0 }),
            decreases 6 - i,
        {
            proof {
                lemma_dust_kept_len(center, seed, i as nat);
            }
            let off = dust_offset_exec(i);
            seed_state = xorshift32(seed_state);
            if seed_state % 3 != 0 {
                cells[count as usize] = Vec2i::new(center.x + off.x, center.y + off.y);
                count = count + 1;
            }
            i = i + 1;
        }
        if count == 0 {
            count = 1;
            cells[0] = center;
        }
        let entity = FxEntity {
            kind: FxKind::Dust,
            pos: center,
            ttl: 3,
            age: 0,
            priority: 40,
            seed,
            data: FxData::Dust { count, cells },
        };
        proof {
            lemma_dust_kept_len(center, seed, 6);
            assert(cells@ =~= dust_entity(center, seed).data->Dust_cells@);
            assert(cells == dust_entity(center, seed).data->Dust_cells);
            assert(count as int == dust_cells(center, seed).len());
        }
        assert(entity == dust_entity(center, seed));
        self.spawn_entity(entity, false);
    }

    /// A lightning arc from `from` to `to`; when the arc cannot be shown, a
    /// flash at `to` (seed `seed ^ 0x9E37`) stands in for it.
    pub fn spawn_arc_lightning(&mut self, from: Vec2i, to: Vec2i, seed: u32)
        requires
            old(self).wf(),
        ensures
            final(self).wf(),
            ({
                let (st1, r1) = spec_spawn(
                    old(self)@,
                    plain_entity(
                        FxKind::ArcLightning,
                        from,
                        2,
                        80,
                        seed,
                        FxData::ArcLightning { from, to, segments_max: 12 },
                    ),
                    false,
                );
                if r1 is Some {
                    final(self)@ == st1
                } else {
                    final(self)@ == spec_spawn(
                        st1,
                        plain_entity(FxKind::TargetFlash, to, 1, 100, seed ^ 0x9E37u32, FxData::NoData),
                        false,
                    ).0
                }
            }),
    {
        let entity = FxEntity {
            kind: FxKind::ArcLightning,
            pos: from,
            ttl: 2,
            age: 0,
            priority: 80,
            seed,
            data: FxData::ArcLightning { from, to, segments_max: 12 },
        };
        if self.spawn_entity(entity, false).is_none() {
            self.spawn_target_flash(to, seed ^ 0x9E37);
        }
    }

    /// The beam of a tesla tower: a lasting arc (seed `seed1`), a flickering
    /// one-tick arc (seed `seed2`), and a flash at the target.
    pub fn spawn_tesla_beam_fx(&mut self, from: Vec2i, to: Vec2i, seed1: u32, seed2: u32)
        requires
            old(self).wf(),
        ensures
            final(self).wf(),
            final(self)@ == tesla_beam_fx(old(self)@, from, to, seed1, seed2),
    {
        let arc1 = FxEntity {
            kind: FxKind::ArcLightning,
            pos: from,
            ttl: 3,
            age: 0,
            priority: 85,
            seed: seed1,
            data: FxData::ArcLightning { from, to, segments_max: 12 },
        };
        self.spawn_entity(arc1, false);
        let arc2 = FxEntity {
            kind: FxKind::ArcLightning,
            pos: from,
            ttl: 1,
            age: 0,
            priority: 85,
            seed: seed2,
            data: FxData::ArcLightning { from, to, segments_max: 12 },
        };
        self.spawn_entity(arc2, false);
        self.spawn_target_flash(to, seed1 ^ 0xBEEF);
    }

    /// A one-tick flash on a target cell.
    pub fn spawn_target_flash(&mut self, pos: Vec2i, seed: u32)
        requires
            old(self).wf(),
        ensures
            final(self).wf(),
            final(self)@ == spec_spawn(
                old(self)@,
                plain_entity(FxKind::TargetFlash, pos, 1, 100, seed, FxData::NoData),
                false,
            ).0,
    {
        let entity = FxEntity {
            kind: FxKind::TargetFlash,
            pos,
            ttl: 1,
            age: 0,
            priority: 100,
            seed,
            data: FxData::NoData,
        };
        self.spawn_entity(entity, false);
    }

    /// The shatter of a frost shell.
    pub fn spawn_shatter(&mut self, pos: Vec2i, seed: u32)
        requires
            old(self).wf(),
        ensures
            final(self).wf(),
            final(self)@ == spec_spawn(
                old(self)@,
                plain_entity(FxKind::Shatter, pos, 2, 100, seed, FxData::NoData),
                false,
            ).0,
    {
        let entity = FxEntity {
            kind: FxKind::Shatter,
            pos,
            ttl: 2,
            age: 0,
            priority: 100,
            seed,
            data: FxData::NoData,
        };
        self.spawn_entity(entity, false);
    }

    /// The flash of an enemy that was hit.
    pub fn spawn_hit_flash(&mut self, pos: Vec2i, kind: EnemyKind, seed: u32)
        requires
            old(self).wf(),
        ensures
            final(self).wf(),
            final(self)@ == spec_spawn(
                old(self)@,
                plain_entity(FxKind::HitFlash, pos, 2, 90, seed, FxData::HitFlash { kind }),
                false,
            ).0,
    {
        let entity = FxEntity {
            kind: FxKind::HitFlash,
            pos,
            ttl: 2,
            age: 0,
            priority: 90,
            seed,
            data: FxData::HitFlash { kind },
        };
        self.spawn_entity(entity, false);
    }

    /// The death animation of an enemy; it may take the slot of a less
    /// important effect.
    pub fn spawn_enemy_death(&mut self, pos: Vec2i, kind: EnemyKind, seed: u32)
        requires
            old(self).wf(),
        ensures
            final(self).wf(),
            final(self)@ == spec_spawn(
                old(self)@,
                plain_entity(FxKind::EnemyDeath, pos, 4, 60, seed, FxData::EnemyDeath { kind }),
                true,
            ).0,
    {
        let entity = FxEntity {
            kind: FxKind::EnemyDeath,
            pos,
            ttl: 4,
            age: 0,
            priority: 60,
            seed,
            data: FxData::EnemyDeath { kind },
        };
        self.spawn_entity(entity, true);
    }
}

fn dust_offset_exec(i: usize) -> (v: Vec2i)
    requires
        i < 6,
    ensures
        v == dust_offset(i as int),
{
    if i == 0 {
        Vec2i { x: -1, y: 0 }
    } else if i == 1 {
        Vec2i { x: 1, y: 0 }
    } else if i == 2 {
        Vec2i { x: 0, y: -1 }
    } else if i == 3 {
        Vec2i { x: 0, y: 1 }
    } else if i == 4 {
        Vec2i { x: -1, y: -1 }
    } else {
        Vec2i { x: 1, y: 1 }
    }
}

proof fn lemma_count_zero(s: Seq<FxSlot>, k: int)
    requires
        forall|j: int| 0 <= j < s.len() ==> !(#[trigger] s[j]).active,
    ensures
        count_kind(s, k) == 0,
    decreases s.len(),
{
    if s.len() > 0 {
        lemma_count_zero(s.drop_last(), k);
    }
}

/// What holds of every pool the public calls hand out, since each of them
/// keeps the pool well-formed: 5000 slots, a free list of exactly the free
/// slots, per-kind counters that count the live effects and never exceed the
/// caps, and never two live frost overlays on one enemy.
pub proof fn lemma_fx_wf_facts(m: &FxManager)
    requires
        m.wf(),
    ensures
        m@.slots.len() == MAX_FX_ACTIVE,
        m@.active_counts.len() == 12,
        m@.free_list.no_duplicates(),
        forall|j: int|
            0 <= j < m@.free_list.len() ==> (#[trigger] m@.free_list[j]) < m@.slots.len()
                && m@.slots[m@.free_list[j] as int] is None,
        forall|i: int|
            0 <= i < m@.slots.len() && m@.slots[i] is None ==> #[trigger] m@.free_list.contains(
                i as usize,
            ),
        forall|k: int| 0 <= k < 12 ==> #[trigger] m@.active_counts[k] == view_count(m@.slots, k),
        within_caps(m@.active_counts),
        overlays_unique(m@.slots),
{
    assert forall|k: int| 0 <= k < 12 implies #[trigger] m@.active_counts[k] == view_count(
        m@.slots,
        k,
    ) by {
        lemma_view_of_slots(m.slots@, k);
    }
    assert forall|i: int| 0 <= i < m@.slots.len() && m@.slots[i] is None implies #[trigger] m@.free_list.contains(
        i as usize,
    ) by {
        assert(!m.slots@[i].active);
    }
}

} // verus!
