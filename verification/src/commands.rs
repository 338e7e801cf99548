//! The player's commands on a running match, from the keyboard or from a
//! peer: build, upgrade, sell, aim, pause, speed and early waves; and the
//! snapshot the host shares.
use vstd::prelude::*;

use crate::game::{
    covers, enemies_on_path, new_tower, spec_can_build_at, spec_footprint_fits, tower_index_at, towers_in_range, Enemy,
    GameState, Tower,
};
use crate::kinds::{target_mode_rank, TargetMode, TowerKind};
use crate::net_msg::{GameSnapshot, NetCmd};
use crate::rules::{spec_tower_upgrade_cost, tower_upgrade_cost, MAX_PRICED_WAVE};
use crate::sim::{MAX_FIELD_ENEMIES, same_frame, sat_add_i32, spec_next_speed, start_wave_outcome};

verus! {

/// Why a command was refused.
#[derive(Debug, Clone, Copy, PartialEq, Eq, Structural)]
pub enum CmdError {
    NotInGame,
    BuildRefused,
    NoTowerToUpgrade,
    NotEnoughMoney,
    TowerAtMax,
    NoTowerToSell,
    NoTowerToAim,
}

impl CmdError {
    /// The message shown to the player.
    pub fn message(&self) -> (m: &'static str)
        ensures
            m@ == match *self {
                CmdError::NotInGame => "host ainda nao iniciou o jogo"@,
                CmdError::BuildRefused => "nao foi possivel construir"@,
                CmdError::NoTowerToUpgrade => "sem torre para upgrade"@,
                CmdError::NotEnoughMoney => "dinheiro insuficiente"@,
                CmdError::TowerAtMax => "torre no max"@,
                CmdError::NoTowerToSell => "sem torre para vender"@,
                CmdError::NoTowerToAim => "sem torre para ajustar alvo"@,
            },
    {
        match *self {
            CmdError::NotInGame => "host ainda nao iniciou o jogo",
            CmdError::BuildRefused => "nao foi possivel construir",
            CmdError::NoTowerToUpgrade => "sem torre para upgrade",
            CmdError::NotEnoughMoney => "dinheiro insuficiente",
            CmdError::TowerAtMax => "torre no max",
            CmdError::NoTowerToSell => "sem torre para vender",
            CmdError::NoTowerToAim => "sem torre para ajustar alvo",
        }
    }
}

/// Towers stop at this level.
pub const MAX_TOWER_LEVEL: u8 = 9;

/// The bounty for selling a tower.
pub const SELL_REFUND: i32 = 20;

/// `i` is the first tower whose footprint covers `(x, y)`.
pub open spec fn first_at(ts: Seq<Tower>, x: u16, y: u16, i: int) -> bool {
    0 <= i < ts.len() && covers(ts[i], x, y) && forall|j: int| 0 <= j < i ==> !covers(#[trigger] ts[j], x, y)
}

/// The first tower whose footprint covers `(x, y)`.
pub open spec fn tower_at(ts: Seq<Tower>, x: u16, y: u16) -> Option<int> {
    if exists|i: int| first_at(ts, x, y, i) {
        Some(choose|i: int| first_at(ts, x, y, i))
    } else {
        None
    }
}

proof fn lemma_first_at_unique(ts: Seq<Tower>, x: u16, y: u16, i: int, k: int)
    requires
        first_at(ts, x, y, i),
        first_at(ts, x, y, k),
    ensures
        i == k,
{
    if i < k {
        assert(!covers(ts[i], x, y));
    } else if k < i {
        assert(!covers(ts[k], x, y));
    }
}

pub(crate) fn find_tower(towers: &Vec<Tower>, x: u16, y: u16) -> (r: Option<usize>)
    requires
        towers_in_range(towers@),
    ensures
        match r {
            Some(i) => tower_at(towers@, x, y) == Some(i as int),
            None => tower_at(towers@, x, y) is None,
        },
{
    let r = tower_index_at(towers, x, y);
    proof {
        match r {
            Some(i) => {
                assert(first_at(towers@, x, y, i as int));
                let k = choose|k: int| first_at(towers@, x, y, k);
                lemma_first_at_unique(towers@, x, y, i as int, k);
            },
            None => {
                assert forall|i: int| !first_at(towers@, x, y, i) by {
                    if 0 <= i < towers@.len() {
                        assert(!covers(towers@[i], x, y));
                    }
                }
            },
        }
    }
    r
}

/// Everything of the state but the money and the towers is as before.
pub open spec fn same_but_money_towers(a: &GameState, b: &GameState) -> bool {
    &&& same_frame(a, b)
    &&& a.lives == b.lives
    &&& a.wave == b.wave
    &&& a.enemies@ == b.enemies@
    &&& a.projectiles@ == b.projectiles@
    &&& a.fx@ == b.fx@
    &&& a.pending_wave_start == b.pending_wave_start
    &&& a.prep_ticks == b.prep_ticks
}

/// What upgrading the tower at `(x, y)` does: refused without a tower there,
/// without the money (outside developer mode) or at the top level; else
/// the tower goes up a level and its price is paid.
pub open spec fn upgrade_outcome(
    a: &GameState,
    b: &GameState,
    x: u16,
    y: u16,
    dev_mode: bool,
    r: Result<(), CmdError>,
) -> bool {
    &&& same_but_money_towers(a, b)
    &&& match tower_at(a.towers@, x, y) {
        None => r == Err::<(), CmdError>(CmdError::NoTowerToUpgrade) && b.money == a.money
            && b.towers@ == a.towers@,
        Some(i) => {
            let t = a.towers@[i];
            let cost = spec_tower_upgrade_cost(t.kind, a.wave);
            if !dev_mode && a.money < cost {
                r == Err::<(), CmdError>(CmdError::NotEnoughMoney) && b.money == a.money
                    && b.towers@ == a.towers@
            } else if t.level >= MAX_TOWER_LEVEL {
                r == Err::<(), CmdError>(CmdError::TowerAtMax) && b.money == a.money && b.towers@
                    == a.towers@
            } else {
                &&& r == Ok::<(), CmdError>(())
                &&& b.towers@ == a.towers@.update(i, Tower { level: (t.level + 1) as u8, ..t })
                &&& b.money == if dev_mode {
                    a.money as int
                } else {
                    a.money - cost
                }
            }
        },
    }
}

/// What selling the tower at `(x, y)` does: refused without a tower there;
/// else the tower is removed and 20 is refunded (not in developer mode;
/// held at the greatest `i32`).
pub open spec fn sell_outcome(
    a: &GameState,
    b: &GameState,
    x: u16,
    y: u16,
    dev_mode: bool,
    r: Result<(), CmdError>,
) -> bool {
    &&& same_but_money_towers(a, b)
    &&& match tower_at(a.towers@, x, y) {
        None => r == Err::<(), CmdError>(CmdError::NoTowerToSell) && b.money == a.money
            && b.towers@ == a.towers@,
        Some(i) => {
            &&& r == Ok::<(), CmdError>(())
            &&& b.towers@ == a.towers@.remove(i)
            &&& b.money == if dev_mode {
                a.money as int
            } else {
                sat_add_i32(a.money as int, SELL_REFUND as int)
            }
        },
    }
}

/// What aiming the tower at `(x, y)` with `mode` does: refused without a
/// tower there; else the tower takes the mode.
pub open spec fn aim_outcome(
    a: &GameState,
    b: &GameState,
    x: u16,
    y: u16,
    mode: TargetMode,
    r: Result<(), CmdError>,
) -> bool {
    &&& same_but_money_towers(a, b)
    &&& b.money == a.money
    &&& match tower_at(a.towers@, x, y) {
        None => r == Err::<(), CmdError>(CmdError::NoTowerToAim) && b.towers@ == a.towers@,
        Some(i) => r == Ok::<(), CmdError>(()) && b.towers@ == a.towers@.update(
            i,
            Tower { target_mode: mode, ..a.towers@[i] },
        ),
    }
}

/// What building a tower of `kind` at `(x, y)` does (see
/// `GameState::build_at`).
pub open spec fn build_outcome(
    a: &GameState,
    b: &GameState,
    x: u16,
    y: u16,
    kind: TowerKind,
    dev_mode: bool,
    r: Result<(), CmdError>,
) -> bool {
    &&& same_but_money_towers(a, b)
    &&& if spec_can_build_at(a, x, y, kind, dev_mode) {
        &&& r == Ok::<(), CmdError>(())
        &&& b.towers@ == a.towers@.push(new_tower(x, y, kind))
        &&& b.money == if dev_mode {
            a.money as int
        } else {
            a.money - crate::rules::spec_tower_cost(kind, a.wave)
        }
    } else {
        r == Err::<(), CmdError>(CmdError::BuildRefused) && b.towers@ == a.towers@ && b.money
            == a.money
    }
}

fn sat_add_money(v: i32, d: i32) -> (r: i32)
    ensures
        r == sat_add_i32(v as int, d as int),
{
    let sum = v as i64 + d as i64;
    if sum > i32::MAX as i64 {
        i32::MAX
    } else if sum < i32::MIN as i64 {
        i32::MIN
    } else {
        sum as i32
    }
}

impl GameState {
    /// Upgrades the tower at `(x, y)` (see `upgrade_outcome`).
    pub fn upgrade_at(&mut self, x: u16, y: u16, dev_mode: bool) -> (r: Result<(), CmdError>)
        requires
            old(self).wf(),
        ensures
            final(self).wf(),
            upgrade_outcome(old(self), final(self), x, y, dev_mode, r),
    {
        let found = find_tower(&self.towers, x, y);
        match found {
            None => Err(CmdError::NoTowerToUpgrade),
            Some(idx) => {
                let t = self.towers[idx];
                let cost = tower_upgrade_cost(t.kind, self.wave);
                if !dev_mode && self.money < cost {
                    return Err(CmdError::NotEnoughMoney);
                }
                if t.level >= MAX_TOWER_LEVEL {
                    return Err(CmdError::TowerAtMax);
                }
                if !dev_mode {
                    self.money = self.money - cost;
                }
                self.towers.set(idx, Tower { level: t.level + 1, ..t });
                Ok(())
            },
        }
    }

    /// Sells the tower at `(x, y)` (see `sell_outcome`).
    pub fn sell_at(&mut self, x: u16, y: u16, dev_mode: bool) -> (r: Result<(), CmdError>)
        requires
            old(self).wf(),
        ensures
            final(self).wf(),
            sell_outcome(old(self), final(self), x, y, dev_mode, r),
    {
        let found = find_tower(&self.towers, x, y);
        match found {
            None => Err(CmdError::NoTowerToSell),
            Some(idx) => {
                self.towers.remove(idx);
                if !dev_mode {
                    self.money = sat_add_money(self.money, SELL_REFUND);
                }
                Ok(())
            },
        }
    }

    /// Aims the tower at `(x, y)` with `mode` (see `aim_outcome`).
    pub fn set_target_mode_at(&mut self, x: u16, y: u16, mode: TargetMode) -> (r: Result<(), CmdError>)
        requires
            old(self).wf(),
        ensures
            final(self).wf(),
            aim_outcome(old(self), final(self), x, y, mode, r),
    {
        let found = find_tower(&self.towers, x, y);
        match found {
            None => Err(CmdError::NoTowerToAim),
            Some(idx) => {
                let t = self.towers[idx];
                self.towers.set(idx, Tower { target_mode: mode, ..t });
                Ok(())
            },
        }
    }

    /// The mode that would follow the current one of the tower at `(x, y)`.
    pub fn next_target_mode_at(&self, x: u16, y: u16) -> (m: Option<TargetMode>)
        requires
            self.wf(),
        ensures
            match tower_at(self.towers@, x, y) {
                None => m is None,
                Some(i) => m matches Some(n) && target_mode_rank(n) == (target_mode_rank(
                    self.towers@[i].target_mode,
                ) + 1) % 8,
            },
    {
        match find_tower(&self.towers, x, y) {
            None => None,
            Some(idx) => Some(self.towers[idx].target_mode.next()),
        }
    }

    /// Pauses a running match, or resumes a paused one.
    pub fn toggle_pause(&mut self)
        ensures
            final(self).running == !old(self).running,
            final(self).speed == old(self).speed,
            final(self).grid_w == old(self).grid_w,
            final(self).grid_h == old(self).grid_h,
            final(self).selected_cell == old(self).selected_cell,
            final(self).build_kind == old(self).build_kind,
            final(self).map_name@ == old(self).map_name@,
            final(self).pending_build == old(self).pending_build,
            final(self).path@ == old(self).path@,
            final(self).enemies@ == old(self).enemies@,
            crate::sim::same_play(old(self), final(self)),
            final(self).fx == old(self).fx,
    {
        self.running = !self.running;
    }

    /// Builds a tower of `kind` at `(x, y)` (see `build_outcome`).
    pub fn build_cmd(&mut self, x: u16, y: u16, kind: TowerKind, dev_mode: bool) -> (r: Result<(), CmdError>)
        requires
            old(self).wf(),
            spec_footprint_fits(x, y, kind),
        ensures
            final(self).wf(),
            build_outcome(old(self), final(self), x, y, kind, dev_mode, r),
    {
        if self.build_at(x, y, kind, dev_mode) {
            Ok(())
        } else {
            Err(CmdError::BuildRefused)
        }
    }

    /// Carries out a peer's command on the host's match. Refused before the
    /// match has started; otherwise each command does what the matching
    /// key does on the host, and a refused build, upgrade, sale or aim says
    /// why. `Ok(Some(b))` reports an early-send bonus `b` to show.
    pub fn apply_net_cmd(
        &mut self,
        cmd: NetCmd,
        in_game: bool,
        dev_mode: bool,
        rng: &mut u64,
    ) -> (r: Result<Option<i32>, CmdError>)
        requires
            old(self).wf(),
            in_game && cmd is StartWave ==> old(self).path@.len() >= 1 && old(self).enemies@.len()
                <= MAX_FIELD_ENEMIES && old(self).wave < MAX_PRICED_WAVE,
            in_game ==> match cmd {
                NetCmd::Build { x, y, kind } => spec_footprint_fits(x, y, kind),
                _ => true,
            },
        ensures
            final(self).wf(),
            !in_game ==> r == Err::<Option<i32>, CmdError>(CmdError::NotInGame) && *final(rng)
                == *old(rng) && same_frame(old(self), final(self)) && same_but_money_towers(
                old(self),
                final(self),
            ) && final(self).money == old(self).money && final(self).towers@ == old(self).towers@,
            in_game ==> match cmd {
                NetCmd::TogglePause => {
                    &&& r == Ok::<Option<i32>, CmdError>(None)
                    &&& final(self).running == !old(self).running
                    &&& final(self).speed == old(self).speed
                    &&& final(self).money == old(self).money
                    &&& final(self).towers@ == old(self).towers@
                    &&& final(self).enemies@ == old(self).enemies@
                    &&& *final(rng) == *old(rng)
                },
                NetCmd::CycleSpeed => {
                    &&& r == Ok::<Option<i32>, CmdError>(None)
                    &&& final(self).speed == spec_next_speed(old(self).speed)
                    &&& final(self).running == old(self).running
                    &&& final(self).money == old(self).money
                    &&& final(self).towers@ == old(self).towers@
                    &&& final(self).enemies@ == old(self).enemies@
                    &&& *final(rng) == *old(rng)
                },
                NetCmd::StartWave => match r {
                    Ok(b) => start_wave_outcome(old(self), final(self), dev_mode, *old(rng), *final(rng), b),
                    Err(_) => false,
                },
                NetCmd::Build { x, y, kind } => build_outcome(
                    old(self),
                    final(self),
                    x,
                    y,
                    kind,
                    dev_mode,
                    match r {
                        Ok(_) => Ok(()),
                        Err(e) => Err(e),
                    },
                ) && (r is Ok ==> r == Ok::<Option<i32>, CmdError>(None)),
                NetCmd::Upgrade { x, y } => upgrade_outcome(
                    old(self),
                    final(self),
                    x,
                    y,
                    dev_mode,
                    match r {
                        Ok(_) => Ok(()),
                        Err(e) => Err(e),
                    },
                ) && (r is Ok ==> r == Ok::<Option<i32>, CmdError>(None)),
                NetCmd::Sell { x, y } => sell_outcome(
                    old(self),
                    final(self),
                    x,
                    y,
                    dev_mode,
                    match r {
                        Ok(_) => Ok(()),
                        Err(e) => Err(e),
                    },
                ) && (r is Ok ==> r == Ok::<Option<i32>, CmdError>(None)),
                NetCmd::SetTargetMode { x, y, mode } => aim_outcome(
                    old(self),
                    final(self),
                    x,
                    y,
                    mode,
                    match r {
                        Ok(_) => Ok(()),
                        Err(e) => Err(e),
                    },
                ) && (r is Ok ==> r == Ok::<Option<i32>, CmdError>(None)),
            },
    {
        if !in_game {
            return Err(CmdError::NotInGame);
        }
        match cmd {
            NetCmd::TogglePause => {
                self.toggle_pause();
                Ok(None)
            },
            NetCmd::CycleSpeed => {
                self.cycle_speed();
                Ok(None)
            },
            NetCmd::StartWave => {
                let b = self.start_pending_wave(dev_mode, rng);
                Ok(b)
            },
            NetCmd::Build { x, y, kind } => match self.build_cmd(x, y, kind, dev_mode) {
                Ok(()) => Ok(None),
                Err(e) => Err(e),
            },
            NetCmd::Upgrade { x, y } => match self.upgrade_at(x, y, dev_mode) {
                Ok(()) => Ok(None),
                Err(e) => Err(e),
            },
            NetCmd::Sell { x, y } => match self.sell_at(x, y, dev_mode) {
                Ok(()) => Ok(None),
                Err(e) => Err(e),
            },
            NetCmd::SetTargetMode { x, y, mode } => match self.set_target_mode_at(x, y, mode) {
                Ok(()) => Ok(None),
                Err(e) => Err(e),
            },
        }
    }

    /// The part of the match a host shares with its peers.
    pub fn snapshot(&self) -> (s: GameSnapshot)
        ensures
            s.running == self.running,
            s.speed == self.speed,
            s.money == self.money,
            s.lives == self.lives,
            s.wave == self.wave,
            s.pending_wave_start == self.pending_wave_start,
            s.prep_ticks == self.prep_ticks,
            s.towers@ == self.towers@,
            s.enemies@ == self.enemies@,
    {
        GameSnapshot {
            running: self.running,
            speed: self.speed,
            money: self.money,
            lives: self.lives,
            wave: self.wave,
            pending_wave_start: self.pending_wave_start,
            prep_ticks: self.prep_ticks,
            towers: copy_towers(&self.towers),
            enemies: copy_enemies(&self.enemies),
        }
    }

    /// Takes over the host's snapshot; the player's own selection stays.
    /// When the wave changed, the projectiles and effects in flight are
    /// dropped.
    pub fn apply_snapshot(&mut self, state: GameSnapshot)
        requires
            old(self).fx.wf(),
        ensures
            final(self).running == state.running,
            final(self).speed == state.speed,
            final(self).money == state.money,
            final(self).lives == state.lives,
            final(self).wave == state.wave,
            final(self).pending_wave_start == state.pending_wave_start,
            final(self).prep_ticks == state.prep_ticks,
            final(self).towers@ == state.towers@,
            final(self).enemies@ == state.enemies@,
            final(self).grid_w == old(self).grid_w,
            final(self).grid_h == old(self).grid_h,
            final(self).selected_cell == old(self).selected_cell,
            final(self).build_kind == old(self).build_kind,
            final(self).pending_build == old(self).pending_build,
            final(self).map_name@ == old(self).map_name@,
            final(self).path@ == old(self).path@,
            final(self).fx.wf(),
            state.wave == old(self).wave ==> final(self).projectiles@ == old(self).projectiles@
                && final(self).fx@ == old(self).fx@,
            state.wave != old(self).wave ==> final(self).projectiles@.len() == 0,
            enemies_on_path(state.enemies@, old(self).path@) && towers_in_range(state.towers@)
                && state.wave <= MAX_PRICED_WAVE ==> final(self).wf(),
    {
        let wave_before = self.wave;
        self.running = state.running;
        self.speed = state.speed;
        self.money = state.money;
        self.lives = state.lives;
        self.wave = state.wave;
        self.pending_wave_start = state.pending_wave_start;
        self.prep_ticks = state.prep_ticks;
        self.towers = state.towers;
        self.enemies = state.enemies;
        if self.wave != wave_before {
            self.projectiles.clear();
            self.fx.clear();
        }
    }
}

fn copy_towers(v: &Vec<Tower>) -> (r: Vec<Tower>)
    ensures
        r@ == v@,
{
    let mut r: Vec<Tower> = Vec::new();
    let mut i: usize = 0;
    while i < v.len()
        invariant
            i <= v@.len(),
            r@ == v@.take(i as int),
        decreases v@.len() - i,
    {
        r.push(v[i]);
        i = i + 1;
        assert(r@ =~= v@.take(i as int));
    }
    assert(v@.take(v@.len() as int) =~= v@);
    r
}

fn copy_enemies(v: &Vec<Enemy>) -> (r: Vec<Enemy>)
    ensures
        r@ == v@,
{
    let mut r: Vec<Enemy> = Vec::new();
    let mut i: usize = 0;
    while i < v.len()
        invariant
            i <= v@.len(),
            r@ == v@.take(i as int),
        decreases v@.len() - i,
    {
        r.push(v[i]);
        i = i + 1;
        assert(r@ =~= v@.take(i as int));
    }
    assert(v@.take(v@.len() as int) =~= v@);
    r
}


/// Selling a tower right after building it: the sale goes through, the
/// towers are those from before the build, and of its price only the
/// refund comes back (in developer mode both are free).
pub proof fn lemma_build_then_sell(
    a: &GameState,
    b: &GameState,
    c: &GameState,
    x: u16,
    y: u16,
    kind: TowerKind,
    dev_mode: bool,
    r: Result<(), CmdError>,
)
    requires
        build_outcome(a, b, x, y, kind, dev_mode, Ok(())),
        sell_outcome(b, c, x, y, dev_mode, r),
    ensures
        r == Ok::<(), CmdError>(()),
        c.towers@ == a.towers@,
        c.money == if dev_mode {
            a.money as int
        } else {
            sat_add_i32(
                a.money - crate::rules::spec_tower_cost(kind, a.wave),
                SELL_REFUND as int,
            )
        },
        same_but_money_towers(a, c),
{
    let n = a.towers@.len() as int;
    let nt = new_tower(x, y, kind);
    assert(crate::game::cell_free(a.path@, a.towers@, (x + 0) as u16, (y + 0) as u16));
    assert((x + 0) as u16 == x && (y + 0) as u16 == y);
    assert(covers(nt, x, y));
    assert(first_at(b.towers@, x, y, n)) by {
        assert forall|j: int| 0 <= j < n implies !covers(#[trigger] b.towers@[j], x, y) by {
            assert(b.towers@[j] == a.towers@[j]);
        }
    }
    let i = choose|i: int| first_at(b.towers@, x, y, i);
    lemma_first_at_unique(b.towers@, x, y, i, n);
    assert(b.towers@.remove(n) =~= a.towers@);
}

} // verus!
