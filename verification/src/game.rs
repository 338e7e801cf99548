//! The state of a match and the rules that read it: where towers stand,
//! what may be built, and which enemy a tower aims at.
use vstd::prelude::*;

use crate::fx::FxManager;
use crate::geom::{manhattan, manhattan_spec};
use crate::kinds::{EnemyKind, TargetMode, TowerKind};
use crate::rules::{
    enemy_tuning, spec_enemy_tuning, spec_tower_cost, spec_tower_footprint, spec_tower_stats,
    spec_upgrade_delta, tower_cost, tower_footprint, tower_stats_for, upgrade_delta_for, Stats,
    UpgradeDelta, MAX_PRICED_WAVE,
};

verus! {

#[derive(Debug, Clone, Copy, PartialEq, Eq)]
pub struct Tower {
    pub x: u16,
    pub y: u16,
    pub kind: TowerKind,
    pub level: u8,
    /// Ticks until the tower may fire.
    pub cooldown: u16,
    pub target_mode: TargetMode,
    /// Countdown after a shot (10 to 0; 0 is idle).
    pub fire_age: u8,
    /// Direction of the last shot.
    pub fire_dir: (i16, i16),
}

#[derive(Debug, Clone, Copy, PartialEq, Eq, Structural)]
pub struct Enemy {
    pub kind: EnemyKind,
    /// Index of the path cell the enemy stands on.
    pub path_i: usize,
    pub hp: i32,
    /// Ticks until the next step.
    pub move_cd: u16,
    pub slow_ticks: u16,
    pub slow_percent: u8,
    pub reward: i32,
    pub rewarded: bool,
    pub escaped: bool,
}

#[derive(Debug, Clone, Copy, PartialEq, Eq, Structural)]
pub struct Projectile {
    pub x: i16,
    pub y: i16,
    pub tx: i16,
    pub ty: i16,
    pub ttl: u16,
    pub damage: i32,
    /// Ticks until the projectile moves one cell.
    pub step_cd: u16,
    pub kind: TowerKind,
    pub source_level: u8,
    pub fx_id: Option<usize>,
}

/// A map: its grid and the path enemies walk, cell by cell.
#[derive(Debug, Clone)]
pub struct MapSpec {
    pub name: &'static str,
    pub grid_w: u16,
    pub grid_h: u16,
    pub path: Vec<(u16, u16)>,
}

pub struct GameState {
    pub running: bool,
    /// 1..=4: how many cooldown ticks pass per tick.
    pub speed: u8,
    pub money: i32,
    pub lives: i32,
    pub wave: i32,
    pub grid_w: u16,
    pub grid_h: u16,
    pub selected_cell: Option<(u16, u16)>,
    pub build_kind: Option<TowerKind>,
    pub map_name: String,
    pub pending_build: Option<(u16, u16)>,
    pub path: Vec<(u16, u16)>,
    pub towers: Vec<Tower>,
    pub enemies: Vec<Enemy>,
    pub projectiles: Vec<Projectile>,
    pub fx: FxManager,
    pub pending_wave_start: bool,
    pub prep_ticks: u32,
}

/// Every enemy stands on a cell of the path.
pub open spec fn enemies_on_path(enemies: Seq<Enemy>, path: Seq<(u16, u16)>) -> bool {
    forall|i: int| 0 <= i < enemies.len() ==> (#[trigger] enemies[i]).path_i < path.len()
}

/// A tower of `kind` at `(x, y)` ends within the coordinate range: the
/// first column and row past its footprint are still coordinates.
pub open spec fn spec_footprint_fits(x: u16, y: u16, kind: TowerKind) -> bool {
    let (fw, fh) = spec_tower_footprint(kind);
    x + fw <= u16::MAX && y + fh <= u16::MAX
}

/// Whether a tower of `kind` at `(x, y)` ends within the coordinate range.
pub fn footprint_fits(x: u16, y: u16, kind: TowerKind) -> (b: bool)
    ensures
        b == spec_footprint_fits(x, y, kind),
{
    let (fw, fh) = tower_footprint(kind);
    (x as u32) + (fw as u32) <= 0xffff && (y as u32) + (fh as u32) <= 0xffff
}

/// Every tower's footprint fits within the coordinate range.
pub open spec fn towers_in_range(towers: Seq<Tower>) -> bool {
    forall|i: int|
        0 <= i < towers.len() ==> spec_footprint_fits(
            (#[trigger] towers[i]).x,
            towers[i].y,
            towers[i].kind,
        )
}

impl GameState {
    /// The state's invariant: enemies stand on the path, towers fit in the
    /// coordinate range, the effect pool is well formed, and the wave is
    /// within the range for which prices are computed.
    pub open spec fn wf(&self) -> bool {
        &&& enemies_on_path(self.enemies@, self.path@)
        &&& towers_in_range(self.towers@)
        &&& self.fx.wf()
        &&& self.wave <= MAX_PRICED_WAVE
    }
}

/// The path passes through `(x, y)`.
pub open spec fn spec_is_path(path: Seq<(u16, u16)>, x: u16, y: u16) -> bool {
    exists|i: int| 0 <= i < path.len() && path[i] == (x, y)
}

/// Whether the path passes through `(x, y)`.
pub fn is_path(path: &Vec<(u16, u16)>, x: u16, y: u16) -> (b: bool)
    ensures
        b == spec_is_path(path@, x, y),
{
    let mut i: usize = 0;
    while i < path.len()
        invariant
            i <= path@.len(),
            forall|j: int| 0 <= j < i ==> path@[j] != (x, y),
        decreases path@.len() - i,
    {
        let (px, py) = path[i];
        if px == x && py == y {
            return true;
        }
        i = i + 1;
    }
    false
}

/// The enemy is alive and stands on `(x, y)`.
pub open spec fn enemy_on(e: Enemy, path: Seq<(u16, u16)>, x: u16, y: u16) -> bool {
    e.hp > 0 && path[e.path_i as int] == (x, y)
}

/// The index of the first live enemy standing on `(x, y)`.
pub fn enemy_index_at(enemies: &Vec<Enemy>, path: &Vec<(u16, u16)>, x: u16, y: u16) -> (r: Option<
    usize,
>)
    requires
        enemies_on_path(enemies@, path@),
    ensures
        match r {
            Some(i) => i < enemies@.len() && enemy_on(enemies@[i as int], path@, x, y) && forall|
                j: int,
            | 0 <= j < i ==> !enemy_on(#[trigger] enemies@[j], path@, x, y),
            None => forall|j: int|
                0 <= j < enemies@.len() ==> !enemy_on(#[trigger] enemies@[j], path@, x, y),
        },
{
    let mut i: usize = 0;
    while i < enemies.len()
        invariant
            i <= enemies@.len(),
            enemies_on_path(enemies@, path@),
            forall|j: int| 0 <= j < i ==> !enemy_on(#[trigger] enemies@[j], path@, x, y),
        decreases enemies@.len() - i,
    {
        let e = enemies[i];
        if e.hp > 0 {
            let (ex, ey) = path[e.path_i];
            if ex == x && ey == y {
                return Some(i);
            }
        }
        i = i + 1;
    }
    None
}

/// The tower's footprint covers `(x, y)`.
pub open spec fn covers(t: Tower, x: u16, y: u16) -> bool {
    let (fw, fh) = spec_tower_footprint(t.kind);
    x >= t.x && x < t.x + fw && y >= t.y && y < t.y + fh
}

/// A tower covers the block of cells from its anchor: a single cell for
/// Basic, Sniper and Tesla towers, two cells side by side for a Rapid
/// tower, and a 2x2 block for Cannon and Frost towers.
pub proof fn lemma_tower_cells(t: Tower, x: u16, y: u16)
    ensures
        (t.kind == TowerKind::Basic || t.kind == TowerKind::Sniper || t.kind == TowerKind::Tesla)
            ==> (covers(t, x, y) <==> x == t.x && y == t.y),
        t.kind == TowerKind::Rapid ==> (covers(t, x, y) <==> (x == t.x || x == t.x + 1) && y == t.y),
        (t.kind == TowerKind::Cannon || t.kind == TowerKind::Frost) ==> (covers(t, x, y) <==> (x
            == t.x || x == t.x + 1) && (y == t.y || y == t.y + 1)),
{
}

/// No tower can be built with any cell of its block on a cell that a
/// tower already covers, nor on the path.
pub proof fn lemma_no_build_over_towers(g: &GameState, x: u16, y: u16, kind: TowerKind, dev_mode: bool, j: int, cx: u16, cy: u16)
    requires
        spec_can_build_at(g, x, y, kind, dev_mode),
        spec_footprint_fits(x, y, kind),
        x <= cx,
        y <= cy,
        cx == x || ((kind == TowerKind::Rapid || kind == TowerKind::Cannon || kind == TowerKind::Frost)
            && cx == x + 1),
        cy == y || ((kind == TowerKind::Cannon || kind == TowerKind::Frost) && cy == y + 1),
    ensures
        0 <= j < g.towers@.len() ==> !covers(g.towers@[j], cx, cy),
        !spec_is_path(g.path@, cx, cy),
{
    let dx = cx - x;
    let dy = cy - y;
    assert(cell_free(g.path@, g.towers@, (x + dx) as u16, (y + dy) as u16));
}

/// The index of the first tower whose footprint covers `(x, y)`.
pub fn tower_index_at(towers: &Vec<Tower>, x: u16, y: u16) -> (r: Option<usize>)
    requires
        towers_in_range(towers@),
    ensures
        match r {
            Some(i) => i < towers@.len() && covers(towers@[i as int], x, y) && forall|j: int|
                0 <= j < i ==> !covers(#[trigger] towers@[j], x, y),
            None => forall|j: int| 0 <= j < towers@.len() ==> !covers(#[trigger] towers@[j], x, y),
        },
{
    let mut i: usize = 0;
    while i < towers.len()
        invariant
            i <= towers@.len(),
            towers_in_range(towers@),
            forall|j: int| 0 <= j < i ==> !covers(#[trigger] towers@[j], x, y),
        decreases towers@.len() - i,
    {
        let t = towers[i];
        let (fw, fh) = tower_footprint(t.kind);
        if x >= t.x && x < t.x + fw && y >= t.y && y < t.y + fh {
            return Some(i);
        }
        i = i + 1;
    }
    None
}

/// The stats of a tower at its level.
pub fn tower_stats(t: &Tower) -> (s: Stats)
    ensures
        s == spec_tower_stats(t.kind, t.level),
{
    tower_stats_for(t.kind, t.level)
}

/// What upgrading the tower would change.
pub fn upgrade_delta(t: &Tower) -> (d: UpgradeDelta)
    requires
        t.level < 255,
    ensures
        d == spec_upgrade_delta(t.kind, t.level),
{
    upgrade_delta_for(t.kind, t.level)
}

/// The cell is free to build on: not on the path and not under a tower.
pub open spec fn cell_free(path: Seq<(u16, u16)>, towers: Seq<Tower>, x: u16, y: u16) -> bool {
    !spec_is_path(path, x, y) && forall|j: int| 0 <= j < towers.len() ==> !covers(
        #[trigger] towers[j],
        x,
        y,
    )
}

/// A tower of `kind` fits at `(x, y)`: every cell of its footprint is free.
pub open spec fn footprint_free(
    path: Seq<(u16, u16)>,
    towers: Seq<Tower>,
    x: u16,
    y: u16,
    kind: TowerKind,
) -> bool {
    let (fw, fh) = spec_tower_footprint(kind);
    forall|dx: int, dy: int|
        0 <= dx < fw && 0 <= dy < fh ==> #[trigger] cell_free(
            path,
            towers,
            (x + dx) as u16,
            (y + dy) as u16,
        )
}

/// A tower of `kind` may be built at `(x, y)`: it fits, and it is paid for
/// (in developer mode building is free).
pub open spec fn spec_can_build_at(g: &GameState, x: u16, y: u16, kind: TowerKind, dev_mode: bool) -> bool {
    footprint_free(g.path@, g.towers@, x, y, kind) && (dev_mode || g.money >= spec_tower_cost(
        kind,
        g.wave,
    ))
}

/// The fresh tower a build places.
pub open spec fn new_tower(x: u16, y: u16, kind: TowerKind) -> Tower {
    Tower {
        x,
        y,
        kind,
        level: 1,
        cooldown: 0,
        target_mode: TargetMode::Primeiro,
        fire_age: 0,
        fire_dir: (0, 0),
    }
}

/// Everything of the state but the money and the towers is as before.
pub open spec fn same_but_towers_money(a: &GameState, b: &GameState) -> bool {
    &&& a.running == b.running
    &&& a.speed == b.speed
    &&& a.lives == b.lives
    &&& a.wave == b.wave
    &&& a.grid_w == b.grid_w
    &&& a.grid_h == b.grid_h
    &&& a.selected_cell == b.selected_cell
    &&& a.build_kind == b.build_kind
    &&& a.map_name@ == b.map_name@
    &&& a.pending_build == b.pending_build
    &&& a.path@ == b.path@
    &&& a.enemies@ == b.enemies@
    &&& a.projectiles@ == b.projectiles@
    &&& a.fx@ == b.fx@
    &&& a.pending_wave_start == b.pending_wave_start
    &&& a.prep_ticks == b.prep_ticks
}

impl GameState {
    /// Whether the path passes through `(x, y)`.
    pub fn is_path(&self, x: u16, y: u16) -> (b: bool)
        ensures
            b == spec_is_path(self.path@, x, y),
    {
        is_path(&self.path, x, y)
    }

    /// Whether a tower of `kind` may be built at `(x, y)`.
    pub fn can_build_at(&self, x: u16, y: u16, kind: TowerKind, dev_mode: bool) -> (b: bool)
        requires
            self.wf(),
            spec_footprint_fits(x, y, kind),
        ensures
            b == spec_can_build_at(self, x, y, kind, dev_mode),
    {
        let (fw, fh) = tower_footprint(kind);
        let mut dy: u16 = 0;
        while dy < fh
            invariant
                (fw, fh) == spec_tower_footprint(kind),
                dy <= fh,
                spec_footprint_fits(x, y, kind),
                forall|ddx: int, ddy: int|
                    0 <= ddx < fw && 0 <= ddy < dy ==> #[trigger] cell_free(
                        self.path@,
                        self.towers@,
                        (x + ddx) as u16,
                        (y + ddy) as u16,
                    ),
            decreases fh - dy,
        {
            let mut dx: u16 = 0;
            while dx < fw
                invariant
                    (fw, fh) == spec_tower_footprint(kind),
                    dx <= fw,
                    dy < fh,
                    spec_footprint_fits(x, y, kind),
                    forall|ddx: int, ddy: int|
                        0 <= ddx < fw && 0 <= ddy < dy ==> #[trigger] cell_free(
                            self.path@,
                            self.towers@,
                            (x + ddx) as u16,
                            (y + ddy) as u16,
                        ),
                    forall|ddx: int|
                        0 <= ddx < dx ==> #[trigger] cell_free(
                            self.path@,
                            self.towers@,
                            (x + ddx) as u16,
                            (y + dy) as u16,
                        ),
                decreases fw - dx,
            {
                let cx = x + dx;
                let cy = y + dy;
                if is_path(&self.path, cx, cy) {
                    assert(!cell_free(self.path@, self.towers@, cx, cy));
                    return false;
                }
                let mut j: usize = 0;
                while j < self.towers.len()
                    invariant
                        j <= self.towers@.len(),
                        (fw, fh) == spec_tower_footprint(kind),
                        dx < fw,
                        dy < fh,
                        cx == x + dx,
                        cy == y + dy,
                        forall|k: int| 0 <= k < j ==> !covers(#[trigger] self.towers@[k], cx, cy),
                    decreases self.towers@.len() - j,
                {
                    let t = self.towers[j];
                    let (tw, th) = tower_footprint(t.kind);
                    if cx >= t.x && (cx as u32) < t.x as u32 + tw as u32 && cy >= t.y && (cy as u32)
                        < t.y as u32 + th as u32 {
                        assert(covers(self.towers@[j as int], cx, cy));
                        assert(!cell_free(self.path@, self.towers@, cx, cy));
                        assert(!cell_free(
                            self.path@,
                            self.towers@,
                            (x + dx as int) as u16,
                            (y + dy as int) as u16,
                        ));
                        return false;
                    }
                    j = j + 1;
                }
                assert(cell_free(self.path@, self.towers@, cx, cy));
                dx = dx + 1;
            }
            dy = dy + 1;
        }
        dev_mode || self.money >= tower_cost(kind, self.wave)
    }

    /// Builds a tower of `kind` at `(x, y)` when allowed, paying its price
    /// unless in developer mode; says whether it was built.
    pub fn build_at(&mut self, x: u16, y: u16, kind: TowerKind, dev_mode: bool) -> (built: bool)
        requires
            old(self).wf(),
            spec_footprint_fits(x, y, kind),
        ensures
            final(self).wf(),
            built == spec_can_build_at(old(self), x, y, kind, dev_mode),
            same_but_towers_money(old(self), final(self)),
            built ==> final(self).towers@ == old(self).towers@.push(new_tower(x, y, kind)),
            built ==> final(self).money == if dev_mode {
                old(self).money as int
            } else {
                old(self).money - spec_tower_cost(kind, old(self).wave)
            },
            !built ==> final(self).towers@ == old(self).towers@ && final(self).money == old(
                self,
            ).money,
    {
        if !self.can_build_at(x, y, kind, dev_mode) {
            return false;
        }
        if !dev_mode {
            let cost = tower_cost(kind, self.wave);
            self.money = self.money - cost;
        }
        self.towers.push(
            Tower {
                x,
                y,
                kind,
                level: 1,
                cooldown: 0,
                target_mode: TargetMode::Primeiro,
                fire_age: 0,
                fire_dir: (0, 0),
            },
        );
        true
    }
}


/// A tower's preference for an enemy under its target mode: progress along
/// the path, hit points, speed, danger or healing, each favouring closer
/// enemies where the mode says so.
pub open spec fn spec_score_target(tower: Tower, enemy: Enemy, path_len: int, dist: u16, wave: i32) -> int {
    let tuning = spec_enemy_tuning(enemy.kind, wave);
    let cd = if tuning.move_cd >= 1 {
        tuning.move_cd as int
    } else {
        1
    };
    let speed_score: int = if 1000int / cd >= 1 {
        1000int / cd
    } else {
        1
    };
    let progress = enemy.path_i as int;
    match tower.target_mode {
        TargetMode::Primeiro => progress * 1000 - dist,
        TargetMode::Ultimo => (path_len - progress) * 1000 - dist,
        TargetMode::MaisForte => enemy.hp as int,
        TargetMode::MaisFraco => -enemy.hp,
        TargetMode::MaisRapido => speed_score,
        TargetMode::MaisLento => -speed_score,
        TargetMode::MaisPerigoso => {
            let healer_bonus = if enemy.kind == EnemyKind::Healer {
                120int
            } else {
                0
            };
            let shield_bonus = if enemy.kind == EnemyKind::Shielded {
                60int
            } else {
                0
            };
            progress * 120 + trunc_div4(enemy.hp as int) + healer_bonus + shield_bonus - dist
        },
        TargetMode::MaisCurador => {
            let healer_weight = if enemy.kind == EnemyKind::Healer {
                2000int
            } else {
                0
            };
            healer_weight + progress * 50 - dist
        },
    }
}

/// Division by 4 rounding toward zero.
pub open spec fn trunc_div4(v: int) -> int {
    if v >= 0 {
        v / 4
    } else {
        -((-v) / 4)
    }
}

/// Paths and path positions are short enough for scores to fit in `i32`.
pub const MAX_PATH_LEN: usize = 100_000;

/// The score of `enemy` for `tower` (see `spec_score_target`).
pub fn score_target(tower: &Tower, enemy: &Enemy, path_len: usize, dist: u16, wave: i32) -> (s: i32)
    requires
        1 <= path_len <= MAX_PATH_LEN,
        enemy.path_i < path_len,
        wave <= MAX_PRICED_WAVE,
        enemy.hp > i32::MIN,
    ensures
        s == spec_score_target(*tower, *enemy, path_len as int, dist, wave),
{
    let tuning = enemy_tuning(enemy.kind, wave);
    let cd: i32 = if tuning.move_cd >= 1 {
        tuning.move_cd as i32
    } else {
        1
    };
    let q = 1000 / cd;
    let speed_score = if q >= 1 {
        q
    } else {
        1
    };
    let progress = enemy.path_i as i32;
    let path_len = path_len as i32;
    match tower.target_mode {
        TargetMode::Primeiro => progress * 1000 - dist as i32,
        TargetMode::Ultimo => (path_len - progress) * 1000 - dist as i32,
        TargetMode::MaisForte => enemy.hp,
        TargetMode::MaisFraco => -enemy.hp,
        TargetMode::MaisRapido => speed_score,
        TargetMode::MaisLento => -speed_score,
        TargetMode::MaisPerigoso => {
            let healer_bonus: i32 = if enemy.kind == EnemyKind::Healer {
                120
            } else {
                0
            };
            let shield_bonus: i32 = if enemy.kind == EnemyKind::Shielded {
                60
            } else {
                0
            };
            progress * 120 + enemy.hp / 4 + healer_bonus + shield_bonus - dist as i32
        },
        TargetMode::MaisCurador => {
            let healer_weight: i32 = if enemy.kind == EnemyKind::Healer {
                2000
            } else {
                0
            };
            healer_weight + progress * 50 - dist as i32
        },
    }
}

/// All coordinates are small enough for Manhattan distances to fit in `u16`.
pub open spec fn small_coords(path: Seq<(u16, u16)>, x: u16, y: u16) -> bool {
    &&& x <= 30000
    &&& y <= 30000
    &&& forall|i: int| 0 <= i < path.len() ==> (#[trigger] path[i]).0 <= 30000 && path[i].1 <= 30000
}

/// A live sneak stands within two cells of the tower.
pub open spec fn sneak_near(tower: Tower, enemies: Seq<Enemy>, path: Seq<(u16, u16)>) -> bool {
    exists|i: int|
        0 <= i < enemies.len() && (#[trigger] enemies[i]).hp > 0 && enemies[i].kind
            == EnemyKind::Sneak && manhattan_spec(
            tower.x,
            tower.y,
            path[enemies[i].path_i as int].0,
            path[enemies[i].path_i as int].1,
        ) <= 2
}

/// A tower's range, one shorter (but at least 1) while a sneak is near.
pub open spec fn spec_effective_range(tower: Tower, enemies: Seq<Enemy>, path: Seq<(u16, u16)>, range: u16) -> u16 {
    if sneak_near(tower, enemies, path) && range > 1 {
        (range - 1) as u16
    } else {
        range
    }
}

/// The tower's range as sneaks nearby shorten it.
pub fn effective_tower_range(tower: &Tower, enemies: &Vec<Enemy>, path: &Vec<(u16, u16)>, range: u16) -> (r: u16)
    requires
        enemies_on_path(enemies@, path@),
        small_coords(path@, tower.x, tower.y),
    ensures
        r == spec_effective_range(*tower, enemies@, path@, range),
{
    let mut i: usize = 0;
    while i < enemies.len()
        invariant
            i <= enemies@.len(),
            enemies_on_path(enemies@, path@),
            small_coords(path@, tower.x, tower.y),
            forall|j: int|
                0 <= j < i ==> !((#[trigger] enemies@[j]).hp > 0 && enemies@[j].kind
                    == EnemyKind::Sneak && manhattan_spec(
                    tower.x,
                    tower.y,
                    path@[enemies@[j].path_i as int].0,
                    path@[enemies@[j].path_i as int].1,
                ) <= 2),
        decreases enemies@.len() - i,
    {
        let e = enemies[i];
        if e.hp > 0 && e.kind == EnemyKind::Sneak {
            let (ex, ey) = path[e.path_i];
            if manhattan(tower.x, tower.y, ex, ey) <= 2 {
                return if range > 1 {
                    range - 1
                } else {
                    range
                };
            }
        }
        i = i + 1;
    }
    range
}

/// The best target among the first `n` enemies within `reach`, as
/// `(x, y, score, path_i, dist)`: the highest score, then the furthest along
/// the path, then the closest; earlier enemies win full ties.
pub open spec fn best_target(
    tower: Tower,
    enemies: Seq<Enemy>,
    path: Seq<(u16, u16)>,
    reach: u16,
    wave: i32,
    n: int,
) -> Option<(u16, u16, int, usize, u16)>
    decreases n,
{
    if n <= 0 {
        None
    } else {
        let best = best_target(tower, enemies, path, reach, wave, n - 1);
        let e = enemies[n - 1];
        let (ex, ey) = path[e.path_i as int];
        let dist = manhattan_spec(tower.x, tower.y, ex, ey) as u16;
        if e.hp <= 0 || dist > reach {
            best
        } else {
            let score = spec_score_target(tower, e, if path.len() >= 1 {
                path.len() as int
            } else {
                1
            }, dist, wave);
            match best {
                None => Some((ex, ey, score, e.path_i, dist)),
                Some((_, _, bs, bp, bd)) => if score > bs || (score == bs && (e.path_i > bp || (
                e.path_i == bp && dist < bd))) {
                    Some((ex, ey, score, e.path_i, dist))
                } else {
                    best
                },
            }
        }
    }
}

/// The cell a tower fires at: the best live enemy within its effective range.
pub open spec fn spec_acquire_target(
    tower: Tower,
    enemies: Seq<Enemy>,
    path: Seq<(u16, u16)>,
    range: u16,
    wave: i32,
) -> Option<(u16, u16)> {
    match best_target(
        tower,
        enemies,
        path,
        spec_effective_range(tower, enemies, path, range),
        wave,
        enemies.len() as int,
    ) {
        Some((x, y, _, _, _)) => Some((x, y)),
        None => None,
    }
}

/// The cell enemy `e` stands on.
pub open spec fn enemy_cell(e: Enemy, path: Seq<(u16, u16)>) -> (u16, u16) {
    path[e.path_i as int]
}

/// Enemy `e` is alive and within grid distance `reach` of the tower.
pub open spec fn live_within(tower: Tower, e: Enemy, path: Seq<(u16, u16)>, reach: u16) -> bool {
    &&& e.hp > 0
    &&& manhattan_spec(tower.x, tower.y, enemy_cell(e, path).0, enemy_cell(e, path).1) as u16 <= reach
}

/// The tower's score of enemy `e` where it stands.
pub open spec fn target_score(tower: Tower, e: Enemy, path: Seq<(u16, u16)>, wave: i32) -> int {
    let (ex, ey) = enemy_cell(e, path);
    spec_score_target(
        tower,
        e,
        if path.len() >= 1 {
            path.len() as int
        } else {
            1
        },
        manhattan_spec(tower.x, tower.y, ex, ey) as u16,
        wave,
    )
}

/// The choice among the first `n` enemies is a live one within reach with
/// the best score, and there is none exactly when no enemy is live within
/// reach.
proof fn lemma_best_target(
    tower: Tower,
    enemies: Seq<Enemy>,
    path: Seq<(u16, u16)>,
    reach: u16,
    wave: i32,
    n: int,
)
    requires
        0 <= n <= enemies.len(),
    ensures
        best_target(tower, enemies, path, reach, wave, n) is None <==> forall|j: int|
            0 <= j < n ==> !live_within(tower, #[trigger] enemies[j], path, reach),
        best_target(tower, enemies, path, reach, wave, n) matches Some((x, y, s, p, d)) ==> exists|i: int|
            0 <= i < n && live_within(tower, #[trigger] enemies[i], path, reach) && enemy_cell(
                enemies[i],
                path,
            ) == (x, y) && s == target_score(tower, enemies[i], path, wave) && forall|j: int|
                0 <= j < n && live_within(tower, #[trigger] enemies[j], path, reach) ==> target_score(
                    tower,
                    enemies[j],
                    path,
                    wave,
                ) <= s,
    decreases n,
{
    if n > 0 {
        lemma_best_target(tower, enemies, path, reach, wave, n - 1);
        let best = best_target(tower, enemies, path, reach, wave, n - 1);
        let e = enemies[n - 1];
        if live_within(tower, e, path, reach) {
            let sc = target_score(tower, e, path, wave);
            match best {
                None => {
                    assert(live_within(tower, enemies[n - 1], path, reach));
                },
                Some((bx, by, bs, bp, bd)) => {
                    let i0 = choose|i: int|
                        0 <= i < n - 1 && live_within(tower, #[trigger] enemies[i], path, reach)
                            && enemy_cell(enemies[i], path) == (bx, by) && bs == target_score(
                            tower,
                            enemies[i],
                            path,
                            wave,
                        ) && forall|j: int|
                            0 <= j < n - 1 && live_within(tower, #[trigger] enemies[j], path, reach)
                                ==> target_score(tower, enemies[j], path, wave) <= bs;
                    assert(live_within(tower, enemies[i0], path, reach));
                    assert(live_within(tower, enemies[n - 1], path, reach));
                },
            }
        }
    }
}

/// Where the tower fires: at nothing exactly when no enemy is live within
/// its effective range, and otherwise at the cell of such an enemy.
pub open spec fn fires_at_one_of(
    tower: Tower,
    enemies: Seq<Enemy>,
    path: Seq<(u16, u16)>,
    range: u16,
    wave: i32,
    i: int,
) -> bool {
    let reach = spec_effective_range(tower, enemies, path, range);
    &&& 0 <= i < enemies.len()
    &&& live_within(tower, enemies[i], path, reach)
    &&& spec_acquire_target(tower, enemies, path, range, wave) == Some(enemy_cell(enemies[i], path))
}

/// Target modes by hit points: a tower set to the strongest fires at a
/// live enemy within its effective range that no other such enemy beats in
/// hit points; one set to the weakest at one that none undercuts; and it
/// holds fire only when no enemy is live within range.
pub proof fn lemma_target_by_hit_points(
    tower: Tower,
    enemies: Seq<Enemy>,
    path: Seq<(u16, u16)>,
    range: u16,
    wave: i32,
)
    ensures
        ({
            let reach = spec_effective_range(tower, enemies, path, range);
            &&& spec_acquire_target(tower, enemies, path, range, wave) is None <==> forall|j: int|
                0 <= j < enemies.len() ==> !live_within(tower, #[trigger] enemies[j], path, reach)
            &&& tower.target_mode == TargetMode::MaisForte && spec_acquire_target(
                tower,
                enemies,
                path,
                range,
                wave,
            ) is Some ==> exists|i: int|
                fires_at_one_of(tower, enemies, path, range, wave, i) && forall|j: int|
                    0 <= j < enemies.len() && live_within(tower, #[trigger] enemies[j], path, reach)
                        ==> enemies[j].hp <= enemies[i].hp
            &&& tower.target_mode == TargetMode::MaisFraco && spec_acquire_target(
                tower,
                enemies,
                path,
                range,
                wave,
            ) is Some ==> exists|i: int|
                fires_at_one_of(tower, enemies, path, range, wave, i) && forall|j: int|
                    0 <= j < enemies.len() && live_within(tower, #[trigger] enemies[j], path, reach)
                        ==> enemies[j].hp >= enemies[i].hp
        }),
{
    let reach = spec_effective_range(tower, enemies, path, range);
    let n = enemies.len() as int;
    lemma_best_target(tower, enemies, path, reach, wave, n);
    if let Some((x, y, sc, p, d)) = best_target(tower, enemies, path, reach, wave, n) {
        let i = choose|i: int|
            0 <= i < n && live_within(tower, #[trigger] enemies[i], path, reach) && enemy_cell(
                enemies[i],
                path,
            ) == (x, y) && sc == target_score(tower, enemies[i], path, wave) && forall|j: int|
                0 <= j < n && live_within(tower, #[trigger] enemies[j], path, reach) ==> target_score(
                    tower,
                    enemies[j],
                    path,
                    wave,
                ) <= sc;
        assert(fires_at_one_of(tower, enemies, path, range, wave, i));
        assert forall|j: int|
            0 <= j < n && live_within(tower, #[trigger] enemies[j], path, reach) implies (
            tower.target_mode == TargetMode::MaisForte ==> enemies[j].hp <= enemies[i].hp) && (
            tower.target_mode == TargetMode::MaisFraco ==> enemies[j].hp >= enemies[i].hp) by {
            assert(target_score(tower, enemies[j], path, wave) <= sc);
        }
    }
}

/// How many steps an enemy takes per 1000 ticks at its wave's tuning
/// (at least one).
pub open spec fn steps_per_1000(e: Enemy, wave: i32) -> int {
    let cd = spec_enemy_tuning(e.kind, wave).move_cd as int;
    let q: int = 1000int / (if cd >= 1 { cd } else { 1int });
    if q >= 1 { q } else { 1 }
}

/// Target modes by speed: a tower set to the fastest fires at a live enemy
/// within range that no other such enemy outpaces, one set to the slowest
/// at one that none is slower than.
pub proof fn lemma_target_by_speed(
    tower: Tower,
    enemies: Seq<Enemy>,
    path: Seq<(u16, u16)>,
    range: u16,
    wave: i32,
)
    ensures
        ({
            let reach = spec_effective_range(tower, enemies, path, range);
            &&& tower.target_mode == TargetMode::MaisRapido && spec_acquire_target(
                tower,
                enemies,
                path,
                range,
                wave,
            ) is Some ==> exists|i: int|
                fires_at_one_of(tower, enemies, path, range, wave, i) && forall|j: int|
                    0 <= j < enemies.len() && live_within(tower, #[trigger] enemies[j], path, reach)
                        ==> steps_per_1000(enemies[j], wave) <= steps_per_1000(enemies[i], wave)
            &&& tower.target_mode == TargetMode::MaisLento && spec_acquire_target(
                tower,
                enemies,
                path,
                range,
                wave,
            ) is Some ==> exists|i: int|
                fires_at_one_of(tower, enemies, path, range, wave, i) && forall|j: int|
                    0 <= j < enemies.len() && live_within(tower, #[trigger] enemies[j], path, reach)
                        ==> steps_per_1000(enemies[j], wave) >= steps_per_1000(enemies[i], wave)
        }),
{
    let reach = spec_effective_range(tower, enemies, path, range);
    let n = enemies.len() as int;
    lemma_best_target(tower, enemies, path, reach, wave, n);
    if let Some((x, y, sc, p, d)) = best_target(tower, enemies, path, reach, wave, n) {
        let i = choose|i: int|
            0 <= i < n && live_within(tower, #[trigger] enemies[i], path, reach) && enemy_cell(
                enemies[i],
                path,
            ) == (x, y) && sc == target_score(tower, enemies[i], path, wave) && forall|j: int|
                0 <= j < n && live_within(tower, #[trigger] enemies[j], path, reach) ==> target_score(
                    tower,
                    enemies[j],
                    path,
                    wave,
                ) <= sc;
        assert(fires_at_one_of(tower, enemies, path, range, wave, i));
        assert forall|j: int|
            0 <= j < n && live_within(tower, #[trigger] enemies[j], path, reach) implies (
            tower.target_mode == TargetMode::MaisRapido ==> steps_per_1000(enemies[j], wave)
                <= steps_per_1000(enemies[i], wave)) && (tower.target_mode == TargetMode::MaisLento
                ==> steps_per_1000(enemies[j], wave) >= steps_per_1000(enemies[i], wave)) by {
            assert(target_score(tower, enemies[j], path, wave) <= sc);
        }
    }
}

/// Target modes by progress: with a range below 1000 cells, a tower set to
/// the first enemy fires at a live enemy within range that none is ahead
/// of on the path, and one set to the last at one that none is behind.
pub proof fn lemma_target_by_progress(
    tower: Tower,
    enemies: Seq<Enemy>,
    path: Seq<(u16, u16)>,
    range: u16,
    wave: i32,
)
    requires
        range < 1000,
    ensures
        ({
            let reach = spec_effective_range(tower, enemies, path, range);
            &&& tower.target_mode == TargetMode::Primeiro && spec_acquire_target(
                tower,
                enemies,
                path,
                range,
                wave,
            ) is Some ==> exists|i: int|
                fires_at_one_of(tower, enemies, path, range, wave, i) && forall|j: int|
                    0 <= j < enemies.len() && live_within(tower, #[trigger] enemies[j], path, reach)
                        ==> enemies[j].path_i <= enemies[i].path_i
            &&& tower.target_mode == TargetMode::Ultimo && spec_acquire_target(
                tower,
                enemies,
                path,
                range,
                wave,
            ) is Some ==> exists|i: int|
                fires_at_one_of(tower, enemies, path, range, wave, i) && forall|j: int|
                    0 <= j < enemies.len() && live_within(tower, #[trigger] enemies[j], path, reach)
                        ==> enemies[j].path_i >= enemies[i].path_i
        }),
{
    let reach = spec_effective_range(tower, enemies, path, range);
    let n = enemies.len() as int;
    lemma_best_target(tower, enemies, path, reach, wave, n);
    assert(reach <= range);
    if let Some((x, y, sc, p, d)) = best_target(tower, enemies, path, reach, wave, n) {
        let i = choose|i: int|
            0 <= i < n && live_within(tower, #[trigger] enemies[i], path, reach) && enemy_cell(
                enemies[i],
                path,
            ) == (x, y) && sc == target_score(tower, enemies[i], path, wave) && forall|j: int|
                0 <= j < n && live_within(tower, #[trigger] enemies[j], path, reach) ==> target_score(
                    tower,
                    enemies[j],
                    path,
                    wave,
                ) <= sc;
        assert(fires_at_one_of(tower, enemies, path, range, wave, i));
        assert forall|j: int|
            0 <= j < n && live_within(tower, #[trigger] enemies[j], path, reach) implies (
            tower.target_mode == TargetMode::Primeiro ==> enemies[j].path_i <= enemies[i].path_i) && (
            tower.target_mode == TargetMode::Ultimo ==> enemies[j].path_i >= enemies[i].path_i) by {
            assert(target_score(tower, enemies[j], path, wave) <= sc);
        }
    }
}

/// The enemies a tower may score: on the path, with hit points above the
/// least `i32`.
pub open spec fn scorable(enemies: Seq<Enemy>, path: Seq<(u16, u16)>) -> bool {
    &&& enemies_on_path(enemies, path)
    &&& 1 <= path.len() <= MAX_PATH_LEN
    &&& forall|i: int| 0 <= i < enemies.len() ==> (#[trigger] enemies[i]).hp > i32::MIN
}

/// The cell a tower fires at (see `spec_acquire_target`).
pub fn acquire_target(tower: &Tower, enemies: &Vec<Enemy>, path: &Vec<(u16, u16)>, range: u16, wave: i32) -> (r: Option<(u16, u16)>)
    requires
        scorable(enemies@, path@),
        small_coords(path@, tower.x, tower.y),
        wave <= MAX_PRICED_WAVE,
    ensures
        r == spec_acquire_target(*tower, enemies@, path@, range, wave),
{
    let reach = effective_tower_range(tower, enemies, path, range);
    let path_len = path.len();
    let mut best: Option<(u16, u16, i32, usize, u16)> = None;
    let mut i: usize = 0;
    while i < enemies.len()
        invariant
            i <= enemies@.len(),
            scorable(enemies@, path@),
            small_coords(path@, tower.x, tower.y),
            wave <= MAX_PRICED_WAVE,
            path_len == path@.len(),
            match best {
                None => best_target(*tower, enemies@, path@, reach, wave, i as int) is None,
                Some((x, y, s, p, d)) => best_target(*tower, enemies@, path@, reach, wave, i as int)
                    == Some((x, y, s as int, p, d)),
            },
        decreases enemies@.len() - i,
    {
        let e = enemies[i];
        if e.hp > 0 {
            let (ex, ey) = path[e.path_i];
            let dist = manhattan(tower.x, tower.y, ex, ey);
            if dist <= reach {
                let score = score_target(tower, &e, path_len, dist, wave);
                match best {
                    None => {
                        best = Some((ex, ey, score, e.path_i, dist));
                    },
                    Some((_, _, bs, bp, bd)) => {
                        if score > bs || (score == bs && (e.path_i > bp || (e.path_i == bp && dist
                            < bd))) {
                            best = Some((ex, ey, score, e.path_i, dist));
                        }
                    },
                }
            }
        }
        i = i + 1;
    }
    match best {
        Some((x, y, _, _, _)) => Some((x, y)),
        None => None,
    }
}
} // verus!
