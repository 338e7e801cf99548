//! The numbers of the game: tower and enemy tuning, costs, rewards and the
//! effects of upgrades, resistances and special shots.
use vstd::prelude::*;

use crate::kinds::{EnemyKind, TowerKind};

verus! {

/// Per-kind tower tuning: attack grows by `attack_step` per level, range by
/// one every `range_every` levels, and the cooldown drops by `cd_drop` every
/// `cd_drop_every` levels, kept within `cd_min..=cd_max`.
#[derive(Debug, Clone, Copy)]
pub struct TowerTuning {
    pub base_attack: i32,
    pub attack_step: i32,
    pub base_range: u16,
    pub range_every: u16,
    pub base_cd: i32,
    pub cd_drop_every: u16,
    pub cd_drop: i32,
    pub cd_min: i32,
    pub cd_max: i32,
}

pub open spec fn spec_tower_tuning(kind: TowerKind) -> TowerTuning {
    match kind {
        TowerKind::Basic => TowerTuning {
            base_attack: 40,
            attack_step: 15,
            base_range: 6,
            range_every: 2,
            base_cd: 18,
            cd_drop_every: 4,
            cd_drop: 2,
            cd_min: 8,
            cd_max: 24,
        },
        TowerKind::Sniper => TowerTuning {
            base_attack: 90,
            attack_step: 22,
            base_range: 9,
            range_every: 3,
            base_cd: 26,
            cd_drop_every: 5,
            cd_drop: 2,
            cd_min: 14,
            cd_max: 30,
        },
        TowerKind::Rapid => TowerTuning {
            base_attack: 22,
            attack_step: 6,
            base_range: 5,
            range_every: 4,
            base_cd: 12,
            cd_drop_every: 3,
            cd_drop: 1,
            cd_min: 6,
            cd_max: 18,
        },
        TowerKind::Cannon => TowerTuning {
            base_attack: 120,
            attack_step: 30,
            base_range: 6,
            range_every: 3,
            base_cd: 32,
            cd_drop_every: 3,
            cd_drop: 2,
            cd_min: 16,
            cd_max: 36,
        },
        TowerKind::Tesla => TowerTuning {
            base_attack: 55,
            attack_step: 13,
            base_range: 7,
            range_every: 2,
            base_cd: 14,
            cd_drop_every: 3,
            cd_drop: 1,
            cd_min: 8,
            cd_max: 18,
        },
        TowerKind::Frost => TowerTuning {
            base_attack: 30,
            attack_step: 9,
            base_range: 7,
            range_every: 2,
            base_cd: 16,
            cd_drop_every: 2,
            cd_drop: 1,
            cd_min: 10,
            cd_max: 20,
        },
    }
}

/// The tuning of a tower kind.
pub fn tower_tuning(kind: TowerKind) -> (t: TowerTuning)
    ensures
        t == spec_tower_tuning(kind),
{
    match kind {
        TowerKind::Basic => TowerTuning {
            base_attack: 40,
            attack_step: 15,
            base_range: 6,
            range_every: 2,
            base_cd: 18,
            cd_drop_every: 4,
            cd_drop: 2,
            cd_min: 8,
            cd_max: 24,
        },
        TowerKind::Sniper => TowerTuning {
            base_attack: 90,
            attack_step: 22,
            base_range: 9,
            range_every: 3,
            base_cd: 26,
            cd_drop_every: 5,
            cd_drop: 2,
            cd_min: 14,
            cd_max: 30,
        },
        TowerKind::Rapid => TowerTuning {
            base_attack: 22,
            attack_step: 6,
            base_range: 5,
            range_every: 4,
            base_cd: 12,
            cd_drop_every: 3,
            cd_drop: 1,
            cd_min: 6,
            cd_max: 18,
        },
        TowerKind::Cannon => TowerTuning {
            base_attack: 120,
            attack_step: 30,
            base_range: 6,
            range_every: 3,
            base_cd: 32,
            cd_drop_every: 3,
            cd_drop: 2,
            cd_min: 16,
            cd_max: 36,
        },
        TowerKind::Tesla => TowerTuning {
            base_attack: 55,
            attack_step: 13,
            base_range: 7,
            range_every: 2,
            base_cd: 14,
            cd_drop_every: 3,
            cd_drop: 1,
            cd_min: 8,
            cd_max: 18,
        },
        TowerKind::Frost => TowerTuning {
            base_attack: 30,
            attack_step: 9,
            base_range: 7,
            range_every: 2,
            base_cd: 16,
            cd_drop_every: 2,
            cd_drop: 1,
            cd_min: 10,
            cd_max: 20,
        },
    }
}

/// A tower's combat numbers at its level.
#[derive(Debug, Clone, Copy, PartialEq, Eq, Structural)]
pub struct Stats {
    pub attack: i32,
    pub range: u16,
    /// Ticks between shots.
    pub fire_cd: u16,
}

/// `v` kept within `lo..=hi` (with `lo <= hi`).
pub open spec fn clamp_int(v: int, lo: int, hi: int) -> int {
    if v < lo {
        lo
    } else if v > hi {
        hi
    } else {
        v
    }
}

/// The stats of a tower of `kind` at `level` (level 0 counts as level 1).
pub open spec fn spec_tower_stats(kind: TowerKind, level: u8) -> Stats {
    let t = spec_tower_tuning(kind);
    let lvl = if level >= 1 {
        level as int
    } else {
        1
    };
    let steps = if level >= 1 {
        level - 1
    } else {
        0
    };
    Stats {
        attack: (t.base_attack + (lvl - 1) * t.attack_step) as i32,
        range: (t.base_range + steps / (t.range_every as int)) as u16,
        fire_cd: clamp_int(
            t.base_cd - (steps / (t.cd_drop_every as int)) * t.cd_drop,
            t.cd_min as int,
            t.cd_max as int,
        ) as u16,
    }
}

/// The stats of a tower of `kind` at `level`.
pub fn tower_stats_for(kind: TowerKind, level: u8) -> (s: Stats)
    ensures
        s == spec_tower_stats(kind, level),
        0 < s.attack <= 8000,
        s.range <= 200,
        6 <= s.fire_cd <= 36,
{
    let tuning = tower_tuning(kind);
    let lvl: i32 = if level >= 1 {
        level as i32
    } else {
        1
    };
    assert(0 <= (lvl - 1) * tuning.attack_step <= 254 * 30) by (nonlinear_arith)
        requires
            1 <= lvl <= 255,
            0 <= tuning.attack_step <= 30,
    ;
    let attack = tuning.base_attack + (lvl - 1) * tuning.attack_step;
    let lvl_steps: u16 = if level >= 1 {
        (level - 1) as u16
    } else {
        0
    };
    let range = tuning.base_range + (lvl_steps / tuning.range_every);
    let cd_drop = ((lvl_steps / tuning.cd_drop_every) as i32) * tuning.cd_drop;
    let raw = tuning.base_cd - cd_drop;
    let fire_cd = if raw < tuning.cd_min {
        tuning.cd_min
    } else if raw > tuning.cd_max {
        tuning.cd_max
    } else {
        raw
    };
    Stats { attack, range, fire_cd: fire_cd as u16 }
}

/// What the next upgrade changes.
#[derive(Debug, Clone, Copy, PartialEq, Eq, Structural)]
pub struct UpgradeDelta {
    pub attack: i32,
    pub range: i16,
    pub fire_cd: i16,
}

/// The change of stats from `level` to the next level (capped at 9): all
/// zero at the cap.
pub open spec fn spec_upgrade_delta(kind: TowerKind, level: u8) -> UpgradeDelta {
    let next = if level + 1 <= 9 {
        level + 1
    } else {
        9
    };
    if next == level {
        UpgradeDelta { attack: 0, range: 0, fire_cd: 0 }
    } else {
        let now = spec_tower_stats(kind, level);
        let nxt = spec_tower_stats(kind, next as u8);
        UpgradeDelta {
            attack: (nxt.attack - now.attack) as i32,
            range: (nxt.range - now.range) as i16,
            fire_cd: (nxt.fire_cd - now.fire_cd) as i16,
        }
    }
}

/// An upgrade never makes a tower worse: below the top level it adds
/// attack, never loses range and never slows the tower down; at the top
/// level it changes nothing.
pub proof fn lemma_upgrade_delta_signs(kind: TowerKind, level: u8)
    requires
        1 <= level <= 9,
    ensures
        level < 9 ==> spec_upgrade_delta(kind, level).attack > 0,
        level < 9 ==> spec_upgrade_delta(kind, level).range >= 0,
        level < 9 ==> spec_upgrade_delta(kind, level).fire_cd <= 0,
        level == 9 ==> spec_upgrade_delta(kind, level) == (UpgradeDelta { attack: 0, range: 0, fire_cd: 0 }),
{
    let t = spec_tower_tuning(kind);
    let s = level - 1;
    assert(1 <= t.attack_step <= 30 && 1 <= t.base_attack <= 200);
    assert((s + 1) * t.attack_step == s * t.attack_step + t.attack_step) by (nonlinear_arith);
    assert(0 <= s * t.attack_step <= 8 * 30) by (nonlinear_arith)
        requires
            0 <= s <= 8,
            1 <= t.attack_step <= 30,
    ;
    assert(s / (t.range_every as int) <= (s + 1) / (t.range_every as int)) by (nonlinear_arith)
        requires
            s >= 0,
            t.range_every >= 1,
    ;
    assert(s / (t.cd_drop_every as int) <= (s + 1) / (t.cd_drop_every as int)) by (nonlinear_arith)
        requires
            s >= 0,
            t.cd_drop_every >= 1,
    ;
    assert((s + 1) / (t.range_every as int) <= s + 1) by (nonlinear_arith)
        requires
            s >= 0,
            t.range_every >= 1,
    ;
    assert((s + 1) / (t.cd_drop_every as int) <= s + 1) by (nonlinear_arith)
        requires
            s >= 0,
            t.cd_drop_every >= 1,
    ;
    let q1 = s / (t.cd_drop_every as int);
    let q2 = (s + 1) / (t.cd_drop_every as int);
    assert(q1 * t.cd_drop <= q2 * t.cd_drop) by (nonlinear_arith)
        requires
            0 <= q1 <= q2,
            t.cd_drop >= 1,
    ;
    assert(1 <= t.cd_min <= t.cd_max <= 40);
}

/// The change of stats that upgrading a tower of `kind` at `level` brings.
pub fn upgrade_delta_for(kind: TowerKind, level: u8) -> (d: UpgradeDelta)
    requires
        level < 255,
    ensures
        d == spec_upgrade_delta(kind, level),
{
    let next_level = if level + 1 <= 9 {
        level + 1
    } else {
        9
    };
    if next_level == level {
        return UpgradeDelta { attack: 0, range: 0, fire_cd: 0 };
    }
    let now = tower_stats_for(kind, level);
    let nxt = tower_stats_for(kind, next_level);
    UpgradeDelta {
        attack: nxt.attack - now.attack,
        range: nxt.range as i16 - now.range as i16,
        fire_cd: nxt.fire_cd as i16 - now.fire_cd as i16,
    }
}

/// The base price of a tower kind.
pub open spec fn tower_base_cost(kind: TowerKind) -> int {
    match kind {
        TowerKind::Basic => 80,
        TowerKind::Sniper => 125,
        TowerKind::Rapid => 75,
        TowerKind::Cannon => 145,
        TowerKind::Tesla => 110,
        TowerKind::Frost => 100,
    }
}

/// The base price of upgrading a tower kind.
pub open spec fn tower_base_upgrade_cost(kind: TowerKind) -> int {
    match kind {
        TowerKind::Basic => 65,
        TowerKind::Sniper => 90,
        TowerKind::Rapid => 58,
        TowerKind::Cannon => 100,
        TowerKind::Tesla => 75,
        TowerKind::Frost => 65,
    }
}

/// The wave number as prices and tuning count it: at least 1.
pub open spec fn eff_wave(wave: i32) -> int {
    if wave >= 1 {
        wave as int
    } else {
        1
    }
}

/// Prices are computed without overflow for waves up to this one.
pub const MAX_PRICED_WAVE: i32 = 10_000_000;

/// The price of a tower: the base price plus a sixteenth of it per wave
/// after the first.
pub open spec fn spec_tower_cost(kind: TowerKind, wave: i32) -> int {
    let b = tower_base_cost(kind);
    b + (b * (eff_wave(wave) - 1)) / 16
}

/// The price of an upgrade: the base price plus an eighteenth of it per wave
/// after the first.
pub open spec fn spec_tower_upgrade_cost(kind: TowerKind, wave: i32) -> int {
    let b = tower_base_upgrade_cost(kind);
    b + (b * (eff_wave(wave) - 1)) / 18
}

fn base_cost(kind: TowerKind) -> (b: i32)
    ensures
        b == tower_base_cost(kind),
{
    match kind {
        TowerKind::Basic => 80,
        TowerKind::Sniper => 125,
        TowerKind::Rapid => 75,
        TowerKind::Cannon => 145,
        TowerKind::Tesla => 110,
        TowerKind::Frost => 100,
    }
}

fn base_upgrade_cost(kind: TowerKind) -> (b: i32)
    ensures
        b == tower_base_upgrade_cost(kind),
{
    match kind {
        TowerKind::Basic => 65,
        TowerKind::Sniper => 90,
        TowerKind::Rapid => 58,
        TowerKind::Cannon => 100,
        TowerKind::Tesla => 75,
        TowerKind::Frost => 65,
    }
}

/// The price of building a tower of `kind` during `wave`.
pub fn tower_cost(kind: TowerKind, wave: i32) -> (c: i32)
    requires
        wave <= MAX_PRICED_WAVE,
    ensures
        c == spec_tower_cost(kind, wave),
        c >= tower_base_cost(kind),
{
    let base = base_cost(kind);
    let wave = if wave >= 1 {
        wave
    } else {
        1
    };
    assert(0 <= base * (wave - 1) <= 145 * 10_000_000) by (nonlinear_arith)
        requires
            0 < base <= 145,
            1 <= wave <= 10_000_000,
    ;
    let wave_bonus = (base * (wave - 1)) / 16;
    base + wave_bonus
}

/// The price of upgrading a tower of `kind` during `wave`.
pub fn tower_upgrade_cost(kind: TowerKind, wave: i32) -> (c: i32)
    requires
        wave <= MAX_PRICED_WAVE,
    ensures
        c == spec_tower_upgrade_cost(kind, wave),
        c >= tower_base_upgrade_cost(kind),
{
    let base = base_upgrade_cost(kind);
    let wave = if wave >= 1 {
        wave
    } else {
        1
    };
    assert(0 <= base * (wave - 1) <= 100 * 10_000_000) by (nonlinear_arith)
        requires
            0 < base <= 100,
            1 <= wave <= 10_000_000,
    ;
    let wave_bonus = (base * (wave - 1)) / 18;
    base + wave_bonus
}

/// The cells a tower occupies: `(width, height)` from its anchor.
pub open spec fn spec_tower_footprint(kind: TowerKind) -> (u16, u16) {
    match kind {
        TowerKind::Basic => (1, 1),
        TowerKind::Sniper => (1, 1),
        TowerKind::Rapid => (2, 1),
        TowerKind::Cannon => (2, 2),
        TowerKind::Tesla => (1, 1),
        TowerKind::Frost => (2, 2),
    }
}

/// The cells a tower occupies: `(width, height)` from its anchor.
pub fn tower_footprint(kind: TowerKind) -> (f: (u16, u16))
    ensures
        f == spec_tower_footprint(kind),
{
    match kind {
        TowerKind::Basic => (1, 1),
        TowerKind::Sniper => (1, 1),
        TowerKind::Rapid => (2, 1),
        TowerKind::Cannon => (2, 2),
        TowerKind::Tesla => (1, 1),
        TowerKind::Frost => (2, 2),
    }
}

/// Per-kind enemy tuning at a wave.
#[derive(Debug, Clone, Copy, PartialEq, Eq, Structural)]
pub struct EnemyTuning {
    pub base_hp: i32,
    pub move_cd: u16,
    pub slow_resist: u8,
    pub splash_resist: u8,
    pub rapid_resist: u8,
    pub heal_radius: u16,
    pub heal_amount: i32,
}

/// Ticks an enemy of base speed waits between steps.
pub const ENEMY_BASE_MOVE_CD: u16 = 14;

/// The waves for which enemy tuning is computed without overflow.
pub const MAX_TUNED_WAVE: i32 = 50_000_000;

pub open spec fn spec_enemy_tuning(kind: EnemyKind, wave: i32) -> EnemyTuning {
    let w = eff_wave(wave);
    match kind {
        EnemyKind::Swarm => EnemyTuning {
            base_hp: (30 + w * 9) as i32,
            move_cd: 16,
            slow_resist: 0,
            splash_resist: 0,
            rapid_resist: 0,
            heal_radius: 0,
            heal_amount: 0,
        },
        EnemyKind::Runner => EnemyTuning {
            base_hp: (24 + w * 8) as i32,
            move_cd: 9,
            slow_resist: 0,
            splash_resist: 0,
            rapid_resist: 0,
            heal_radius: 0,
            heal_amount: 0,
        },
        EnemyKind::Tank => EnemyTuning {
            base_hp: (110 + w * 28) as i32,
            move_cd: 17,
            slow_resist: 15,
            splash_resist: 30,
            rapid_resist: 15,
            heal_radius: 0,
            heal_amount: 0,
        },
        EnemyKind::Shielded => EnemyTuning {
            base_hp: (70 + w * 18) as i32,
            move_cd: 15,
            slow_resist: 20,
            splash_resist: 15,
            rapid_resist: 45,
            heal_radius: 0,
            heal_amount: 0,
        },
        EnemyKind::Healer => EnemyTuning {
            base_hp: (60 + w * 16) as i32,
            move_cd: 15,
            slow_resist: 10,
            splash_resist: 10,
            rapid_resist: 0,
            heal_radius: 1,
            heal_amount: (8 + w) as i32,
        },
        EnemyKind::Sneak => EnemyTuning {
            base_hp: (40 + w * 12) as i32,
            move_cd: 12,
            slow_resist: 20,
            splash_resist: 12,
            rapid_resist: 0,
            heal_radius: 0,
            heal_amount: 0,
        },
    }
}

/// The tuning of an enemy of `kind` during `wave`: hit points grow with the
/// wave; runners and sneaks are faster than the base pace of 14 ticks per
/// cell, the others slower.
pub fn enemy_tuning(kind: EnemyKind, wave: i32) -> (t: EnemyTuning)
    requires
        wave <= MAX_TUNED_WAVE,
    ensures
        t == spec_enemy_tuning(kind, wave),
{
    let base = ENEMY_BASE_MOVE_CD;
    let wave = if wave >= 1 {
        wave
    } else {
        1
    };
    match kind {
        EnemyKind::Swarm => EnemyTuning {
            base_hp: 30 + wave * 9,
            move_cd: base + 2,
            slow_resist: 0,
            splash_resist: 0,
            rapid_resist: 0,
            heal_radius: 0,
            heal_amount: 0,
        },
        EnemyKind::Runner => {
            let cd = base.saturating_sub(5);
            EnemyTuning {
                base_hp: 24 + wave * 8,
                move_cd: if cd >= 5 {
                    cd
                } else {
                    5
                },
                slow_resist: 0,
                splash_resist: 0,
                rapid_resist: 0,
                heal_radius: 0,
                heal_amount: 0,
            }
        },
        EnemyKind::Tank => EnemyTuning {
            base_hp: 110 + wave * 28,
            move_cd: base + 3,
            slow_resist: 15,
            splash_resist: 30,
            rapid_resist: 15,
            heal_radius: 0,
            heal_amount: 0,
        },
        EnemyKind::Shielded => EnemyTuning {
            base_hp: 70 + wave * 18,
            move_cd: base + 1,
            slow_resist: 20,
            splash_resist: 15,
            rapid_resist: 45,
            heal_radius: 0,
            heal_amount: 0,
        },
        EnemyKind::Healer => EnemyTuning {
            base_hp: 60 + wave * 16,
            move_cd: base + 1,
            slow_resist: 10,
            splash_resist: 10,
            rapid_resist: 0,
            heal_radius: 1,
            heal_amount: 8 + wave,
        },
        EnemyKind::Sneak => {
            let cd = base.saturating_sub(2);
            EnemyTuning {
                base_hp: 40 + wave * 12,
                move_cd: if cd >= 7 {
                    cd
                } else {
                    7
                },
                slow_resist: 20,
                splash_resist: 12,
                rapid_resist: 0,
                heal_radius: 0,
                heal_amount: 0,
            }
        },
    }
}

/// The extra budget cost of a kind beyond its hit points and speed.
pub open spec fn enemy_kind_cost(kind: EnemyKind) -> int {
    match kind {
        EnemyKind::Swarm => 0,
        EnemyKind::Runner => 1,
        EnemyKind::Sneak => 2,
        EnemyKind::Shielded => 3,
        EnemyKind::Healer => 4,
        EnemyKind::Tank => 5,
    }
}

/// What an enemy costs from a wave's budget: a point per 25 hit points (at
/// least one), a point per two ticks it is faster than the base pace plus
/// one, and its kind's cost.
pub open spec fn spec_enemy_budget_cost(kind: EnemyKind, t: EnemyTuning) -> int {
    let hp_cost = if t.base_hp / 25 >= 1 {
        t.base_hp / 25
    } else {
        1
    };
    let faster = ENEMY_BASE_MOVE_CD - t.move_cd;
    let speed_cost = (if faster >= 0 {
        faster
    } else {
        0
    }) / 2 + 1;
    hp_cost + speed_cost + enemy_kind_cost(kind)
}

/// What an enemy costs from a wave's budget.
pub fn enemy_budget_cost(kind: EnemyKind, tuning: EnemyTuning) -> (c: i32)
    ensures
        c == spec_enemy_budget_cost(kind, tuning),
{
    let q = tuning.base_hp / 25;
    let hp_cost = if q >= 1 {
        q
    } else {
        1
    };
    let base_cd = ENEMY_BASE_MOVE_CD as i32;
    let faster = base_cd - tuning.move_cd as i32;
    let speed_cost = (if faster >= 0 {
        faster
    } else {
        0
    }) / 2 + 1;
    let kind_cost: i32 = match kind {
        EnemyKind::Swarm => 0,
        EnemyKind::Runner => 1,
        EnemyKind::Sneak => 2,
        EnemyKind::Shielded => 3,
        EnemyKind::Healer => 4,
        EnemyKind::Tank => 5,
    };
    hp_cost + speed_cost + kind_cost
}

/// The bounty of an enemy: its cost kept within 2..=14, plus a point per
/// four waves (at most 6), kept within 2..=20.
pub open spec fn spec_enemy_reward_value(cost: i32, wave: i32) -> int {
    let base = clamp_int(cost as int, 2, 14);
    let bonus = if eff_wave(wave) / 4 <= 6 {
        eff_wave(wave) / 4
    } else {
        6
    };
    clamp_int(base + bonus, 2, 20)
}

/// The bounty paid for killing an enemy of budget cost `cost` in `wave`.
pub fn enemy_reward_value(cost: i32, wave: i32) -> (r: i32)
    ensures
        r == spec_enemy_reward_value(cost, wave),
        2 <= r <= 20,
{
    let wave = if wave >= 1 {
        wave
    } else {
        1
    };
    let base = if cost < 2 {
        2
    } else if cost > 14 {
        14
    } else {
        cost
    };
    let q = wave / 4;
    let bonus = if q <= 6 {
        q
    } else {
        6
    };
    let v = base + bonus;
    if v < 2 {
        2
    } else if v > 20 {
        20
    } else {
        v
    }
}

/// A slow reduced by a resistance percentage.
pub open spec fn spec_apply_slow_resist(slow_percent: u8, resist: u8) -> u8 {
    if slow_percent == 0 || resist == 0 {
        slow_percent
    } else {
        let reduction = (slow_percent as int * resist as int / 100) as u8;
        if slow_percent >= reduction {
            (slow_percent - reduction) as u8
        } else {
            0
        }
    }
}

/// A slow reduced by a resistance percentage.
pub fn apply_slow_resist(slow_percent: u8, resist: u8) -> (r: u8)
    ensures
        r == spec_apply_slow_resist(slow_percent, resist),
{
    if slow_percent == 0 || resist == 0 {
        return slow_percent;
    }
    assert(slow_percent as int * resist as int <= 255 * 255) by (nonlinear_arith)
        requires
            slow_percent <= 255,
            resist <= 255,
    ;
    let reduction = (slow_percent as u16 * resist as u16 / 100) as u8;
    slow_percent.saturating_sub(reduction)
}

/// Damage reduced by a resistance percentage (rounded in the attacker's
/// favour), never below zero.
pub open spec fn spec_apply_damage_resist(damage: i32, resist: u8) -> i32 {
    if damage <= 0 || resist == 0 {
        damage
    } else {
        let reduction = (damage as int * resist as int / 100) as i32;
        if damage - reduction >= 0 {
            (damage - reduction) as i32
        } else {
            0
        }
    }
}

/// Damage reduced by a resistance percentage.
pub fn apply_damage_resist(damage: i32, resist: u8) -> (r: i32)
    requires
        damage > 0 && resist > 0 ==> i32::MIN <= damage as int - ((damage as int * resist as int
            / 100) as i32) as int <= i32::MAX,
    ensures
        r == spec_apply_damage_resist(damage, resist),
{
    if damage <= 0 || resist == 0 {
        return damage;
    }
    assert(0 <= damage as int * resist as int <= 0x7fff_ffff * 255) by (nonlinear_arith)
        requires
            0 < damage <= 0x7fff_ffff,
            resist <= 255,
    ;
    let reduction = (damage as i64 * resist as i64 / 100) as i32;
    let v = damage - reduction;
    if v >= 0 {
        v
    } else {
        0
    }
}

/// Ticks a projectile of each kind waits between cells.
pub open spec fn spec_projectile_step_cd(kind: TowerKind) -> u16 {
    match kind {
        TowerKind::Rapid => 1,
        TowerKind::Tesla => 1,
        TowerKind::Basic => 2,
        TowerKind::Frost => 2,
        TowerKind::Cannon => 3,
        TowerKind::Sniper => 3,
    }
}

/// Ticks a projectile of each kind waits between cells.
pub fn projectile_step_cd(kind: TowerKind) -> (c: u16)
    ensures
        c == spec_projectile_step_cd(kind),
{
    match kind {
        TowerKind::Rapid => 1,
        TowerKind::Tesla => 1,
        TowerKind::Basic => 2,
        TowerKind::Frost => 2,
        TowerKind::Cannon => 3,
        TowerKind::Sniper => 3,
    }
}

/// The slow a frost hit applies at `level`: `(percent, ticks)`.
pub open spec fn spec_frost_slow(level: u8) -> (u8, u16) {
    let lvl = if level >= 1 {
        level as int
    } else {
        1
    };
    let p = 20 + lvl * 3;
    ((if p <= 60 {
        p
    } else {
        60
    }) as u8, (8 + lvl * 2) as u16)
}

/// The slow a frost hit applies at `level`: `(percent, ticks)`.
pub fn frost_slow(level: u8) -> (r: (u8, u16))
    ensures
        r == spec_frost_slow(level),
{
    let lvl: u16 = if level >= 1 {
        level as u16
    } else {
        1
    };
    let p = 20 + lvl * 3;
    let slow_percent = (if p <= 60 {
        p
    } else {
        60
    }) as u8;
    let slow_ticks = 8 + lvl * 2;
    (slow_percent, slow_ticks)
}

/// The burst around a frost hit: `(radius, percent, ticks)`, half the slow
/// of a direct hit but at least 10% for 12 ticks.
pub open spec fn spec_frost_burst_params(level: u8) -> (u16, u8, u16) {
    let (p, t) = spec_frost_slow(level);
    (
        if level >= 4 {
            2
        } else {
            1
        },
        if p / 2 >= 10 {
            (p / 2) as u8
        } else {
            10
        },
        if t / 2 >= 12 {
            (t / 2) as u16
        } else {
            12
        },
    )
}

/// The burst around a frost hit: `(radius, percent, ticks)`.
pub fn frost_burst_params(level: u8) -> (r: (u16, u8, u16))
    ensures
        r == spec_frost_burst_params(level),
{
    let (slow_percent, slow_ticks) = frost_slow(level);
    let radius: u16 = if level >= 4 {
        2
    } else {
        1
    };
    let p = slow_percent / 2;
    let t = slow_ticks / 2;
    (radius, if p >= 10 {
        p
    } else {
        10
    }, if t >= 12 {
        t
    } else {
        12
    })
}

/// The chain of a tesla hit: `(radius, max_targets, percent)`.
pub open spec fn spec_tesla_chain_params(level: u8) -> (u16, usize, u8) {
    let l = if level >= 1 {
        level as int
    } else {
        1
    };
    let radius: u16 = if l >= 6 {
        3
    } else if l >= 3 {
        2
    } else {
        1
    };
    let mt = 1 + l / 2;
    let p = 35 + l * 4;
    (radius, (if mt >= 2 {
        mt
    } else {
        2
    }) as usize, (if p <= 70 {
        p
    } else {
        70
    }) as u8)
}

/// The chain of a tesla hit: `(radius, max_targets, percent)`.
pub fn tesla_chain_params(level: u8) -> (r: (u16, usize, u8))
    requires
        level <= 55,
    ensures
        r == spec_tesla_chain_params(level),
{
    let l: u8 = if level >= 1 {
        level
    } else {
        1
    };
    let radius: u16 = if l >= 6 {
        3
    } else if l >= 3 {
        2
    } else {
        1
    };
    let mt = 1 + l / 2;
    let max_targets = (if mt >= 2 {
        mt
    } else {
        2
    }) as usize;
    let p = 35 + l * 4;
    let percent = if p <= 70 {
        p
    } else {
        70
    };
    (radius, max_targets, percent)
}

/// The splash of a cannon hit: `(radius, percent)`.
pub open spec fn spec_cannon_splash_params(level: u8) -> (u16, u8) {
    let l = if level >= 1 {
        level as int
    } else {
        1
    };
    let p = 30 + l * 3;
    (if l >= 5 {
        2
    } else {
        1
    }, (if p <= 55 {
        p
    } else {
        55
    }) as u8)
}

/// The splash of a cannon hit: `(radius, percent)`.
pub fn cannon_splash_params(level: u8) -> (r: (u16, u8))
    requires
        level <= 75,
    ensures
        r == spec_cannon_splash_params(level),
{
    let l: u8 = if level >= 1 {
        level
    } else {
        1
    };
    let radius: u16 = if l >= 5 {
        2
    } else {
        1
    };
    let p = 30 + l * 3;
    (radius, if p <= 55 {
        p
    } else {
        55
    })
}

/// The bonus for sending the next wave early.
pub open spec fn spec_early_send_bonus(wave: i32) -> int {
    5 + eff_wave(wave) * 2
}

/// The bonus for sending the next wave early: 5 plus 2 per wave.
pub fn early_send_bonus(wave: i32) -> (b: i32)
    requires
        wave <= MAX_TUNED_WAVE,
    ensures
        b == spec_early_send_bonus(wave),
{
    let wave = if wave >= 1 {
        wave
    } else {
        1
    };
    5 + wave * 2
}

/// The weights of the enemy kinds a wave draws from, in draw order.
pub open spec fn spec_enemy_weights(wave: i32) -> Seq<(EnemyKind, u32)> {
    let w = eff_wave(wave);
    let base = seq![
        (EnemyKind::Swarm, (6 + w / 2) as u32),
        (EnemyKind::Runner, (4 + w / 3) as u32),
        (EnemyKind::Tank, (1 + w / 5) as u32),
    ];
    let a = if w >= 5 {
        base.push((EnemyKind::Healer, (2 + w / 6) as u32))
    } else {
        base
    };
    let b = if w >= 8 {
        a.push((EnemyKind::Shielded, (2 + w / 7) as u32))
    } else {
        a
    };
    if w >= 10 {
        b.push((EnemyKind::Sneak, (2 + w / 8) as u32))
    } else {
        b
    }
}

/// The sum of the weights.
pub open spec fn weights_total(ws: Seq<(EnemyKind, u32)>) -> int
    decreases ws.len(),
{
    if ws.len() == 0 {
        0
    } else {
        weights_total(ws.drop_last()) + ws.last().1
    }
}

/// The kind a roll (below the total weight) picks: the first kind whose
/// cumulative weight exceeds the roll.
pub open spec fn pick_by_roll(ws: Seq<(EnemyKind, u32)>, roll: int) -> EnemyKind
    decreases ws.len(),
{
    if ws.len() == 0 {
        EnemyKind::Swarm
    } else if roll < ws[0].1 {
        ws[0].0
    } else {
        pick_by_roll(ws.drop_first(), roll - ws[0].1)
    }
}

/// How many of the rolls `0..n` pick kind `k`.
pub open spec fn rolls_picking(ws: Seq<(EnemyKind, u32)>, k: EnemyKind, n: int) -> int
    decreases n,
{
    if n <= 0 {
        0
    } else {
        rolls_picking(ws, k, n - 1) + if pick_by_roll(ws, n - 1) == k {
            1int
        } else {
            0int
        }
    }
}

/// The weight the first `n` entries give kind `k`.
pub open spec fn weight_of(ws: Seq<(EnemyKind, u32)>, k: EnemyKind, n: int) -> int
    decreases n,
{
    if n <= 0 {
        0
    } else {
        weight_of(ws, k, n - 1) + if ws[n - 1].0 == k {
            ws[n - 1].1 as int
        } else {
            0int
        }
    }
}

proof fn lemma_weight_of_first(ws: Seq<(EnemyKind, u32)>, k: EnemyKind, n: int)
    requires
        1 <= n <= ws.len(),
    ensures
        weight_of(ws, k, n) == (if ws[0].0 == k {
            ws[0].1 as int
        } else {
            0int
        }) + weight_of(ws.drop_first(), k, n - 1),
    decreases n,
{
    if n > 1 {
        lemma_weight_of_first(ws, k, n - 1);
        assert(ws.drop_first()[n - 2] == ws[n - 1]);
    } else {
        assert(weight_of(ws, k, 0) == 0);
        assert(weight_of(ws.drop_first(), k, 0) == 0);
    }
}

proof fn lemma_total_first(ws: Seq<(EnemyKind, u32)>)
    requires
        ws.len() >= 1,
    ensures
        weights_total(ws) == ws[0].1 + weights_total(ws.drop_first()),
    decreases ws.len(),
{
    if ws.len() > 1 {
        lemma_total_first(ws.drop_last());
        assert(ws.drop_last().drop_first() =~= ws.drop_first().drop_last());
    } else {
        assert(ws.drop_first() =~= Seq::<(EnemyKind, u32)>::empty());
        assert(ws.drop_last() =~= Seq::<(EnemyKind, u32)>::empty());
    }
}

proof fn lemma_total_nonneg(ws: Seq<(EnemyKind, u32)>)
    ensures
        weights_total(ws) >= 0,
    decreases ws.len(),
{
    if ws.len() > 0 {
        lemma_total_nonneg(ws.drop_last());
    }
}

proof fn lemma_rolls_first_share(ws: Seq<(EnemyKind, u32)>, k: EnemyKind, n: int)
    requires
        ws.len() >= 1,
        0 <= n <= ws[0].1,
    ensures
        rolls_picking(ws, k, n) == if ws[0].0 == k {
            n
        } else {
            0
        },
    decreases n,
{
    if n > 0 {
        lemma_rolls_first_share(ws, k, n - 1);
    }
}

proof fn lemma_rolls_shift(ws: Seq<(EnemyKind, u32)>, k: EnemyKind, m: int)
    requires
        ws.len() >= 1,
        m >= 0,
    ensures
        rolls_picking(ws, k, ws[0].1 + m) == (if ws[0].0 == k {
            ws[0].1 as int
        } else {
            0int
        }) + rolls_picking(ws.drop_first(), k, m),
    decreases m,
{
    if m == 0 {
        lemma_rolls_first_share(ws, k, ws[0].1 as int);
    } else {
        lemma_rolls_shift(ws, k, m - 1);
    }
}

proof fn lemma_rolls_match_weights(ws: Seq<(EnemyKind, u32)>, k: EnemyKind)
    ensures
        rolls_picking(ws, k, weights_total(ws)) == weight_of(ws, k, ws.len() as int),
    decreases ws.len(),
{
    if ws.len() == 0 {
    } else {
        lemma_total_first(ws);
        lemma_total_nonneg(ws.drop_first());
        lemma_rolls_shift(ws, k, weights_total(ws.drop_first()));
        lemma_rolls_match_weights(ws.drop_first(), k);
        lemma_weight_of_first(ws, k, ws.len() as int);
    }
}

/// A wave draws its enemies' kinds by weight: of the rolls below the total
/// weight, each kind is picked by exactly as many as its weight. With `w`
/// the wave (at least 1): Swarm `6 + w/2`, Runner `4 + w/3`, Tank
/// `1 + w/5`, Healer `2 + w/6` from wave 5 on, Shielded `2 + w/7` from
/// wave 8 on, Sneak `2 + w/8` from wave 10 on, and none before.
pub proof fn lemma_enemy_kind_shares(wave: i32)
    ensures
        ({
            let ws = spec_enemy_weights(wave);
            let t = weights_total(ws);
            let w = eff_wave(wave);
            &&& rolls_picking(ws, EnemyKind::Swarm, t) == 6 + w / 2
            &&& rolls_picking(ws, EnemyKind::Runner, t) == 4 + w / 3
            &&& rolls_picking(ws, EnemyKind::Tank, t) == 1 + w / 5
            &&& rolls_picking(ws, EnemyKind::Healer, t) == if w >= 5 {
                2 + w / 6
            } else {
                0
            }
            &&& rolls_picking(ws, EnemyKind::Shielded, t) == if w >= 8 {
                2 + w / 7
            } else {
                0
            }
            &&& rolls_picking(ws, EnemyKind::Sneak, t) == if w >= 10 {
                2 + w / 8
            } else {
                0
            }
        }),
{
    let ws = spec_enemy_weights(wave);
    lemma_rolls_match_weights(ws, EnemyKind::Swarm);
    lemma_rolls_match_weights(ws, EnemyKind::Runner);
    lemma_rolls_match_weights(ws, EnemyKind::Tank);
    lemma_rolls_match_weights(ws, EnemyKind::Healer);
    lemma_rolls_match_weights(ws, EnemyKind::Shielded);
    lemma_rolls_match_weights(ws, EnemyKind::Sneak);
    reveal_with_fuel(weight_of, 7);
}

} // verus!
