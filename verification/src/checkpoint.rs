//! Saving a match at the start of a wave and resuming it from a
//! checkpoint.
use vstd::prelude::*;

use crate::fx::FxManager;
use crate::game::{new_tower, GameState, MapSpec, Tower};
use crate::kinds::{TargetMode, TowerKind};
use crate::maps::{first_buildable, is_first_buildable};
use crate::save::{SaveCheckpoint, SaveTower, TargetModeSave, TowerKindSave, SAVE_VERSION};

verus! {

/// A tower kind as saved.
pub open spec fn save_kind(k: TowerKind) -> TowerKindSave {
    match k {
        TowerKind::Basic => TowerKindSave::Basic,
        TowerKind::Sniper => TowerKindSave::Sniper,
        TowerKind::Rapid => TowerKindSave::Rapid,
        TowerKind::Cannon => TowerKindSave::Cannon,
        TowerKind::Tesla => TowerKindSave::Tesla,
        TowerKind::Frost => TowerKindSave::Frost,
    }
}

/// A saved tower kind.
pub open spec fn kind_of_save(k: TowerKindSave) -> TowerKind {
    match k {
        TowerKindSave::Basic => TowerKind::Basic,
        TowerKindSave::Sniper => TowerKind::Sniper,
        TowerKindSave::Rapid => TowerKind::Rapid,
        TowerKindSave::Cannon => TowerKind::Cannon,
        TowerKindSave::Tesla => TowerKind::Tesla,
        TowerKindSave::Frost => TowerKind::Frost,
    }
}

/// A target mode as saved.
pub open spec fn save_mode(m: TargetMode) -> TargetModeSave {
    match m {
        TargetMode::Primeiro => TargetModeSave::Primeiro,
        TargetMode::Ultimo => TargetModeSave::Ultimo,
        TargetMode::MaisForte => TargetModeSave::MaisForte,
        TargetMode::MaisFraco => TargetModeSave::MaisFraco,
        TargetMode::MaisRapido => TargetModeSave::MaisRapido,
        TargetMode::MaisLento => TargetModeSave::MaisLento,
        TargetMode::MaisPerigoso => TargetModeSave::MaisPerigoso,
        TargetMode::MaisCurador => TargetModeSave::MaisCurador,
    }
}

/// A saved target mode.
pub open spec fn mode_of_save(m: TargetModeSave) -> TargetMode {
    match m {
        TargetModeSave::Primeiro => TargetMode::Primeiro,
        TargetModeSave::Ultimo => TargetMode::Ultimo,
        TargetModeSave::MaisForte => TargetMode::MaisForte,
        TargetModeSave::MaisFraco => TargetMode::MaisFraco,
        TargetModeSave::MaisRapido => TargetMode::MaisRapido,
        TargetModeSave::MaisLento => TargetMode::MaisLento,
        TargetModeSave::MaisPerigoso => TargetMode::MaisPerigoso,
        TargetModeSave::MaisCurador => TargetMode::MaisCurador,
    }
}

/// A tower as saved: where it stands, its kind, level and target mode.
pub open spec fn saved_tower(t: Tower) -> SaveTower {
    SaveTower { x: t.x, y: t.y, kind: save_kind(t.kind), level: t.level, target_mode: Some(save_mode(t.target_mode)) }
}

/// A saved tower, ready to fire, aiming at the first enemy unless saved
/// with another mode.
pub open spec fn restored_tower(t: SaveTower) -> Tower {
    Tower {
        x: t.x,
        y: t.y,
        kind: kind_of_save(t.kind),
        level: t.level,
        cooldown: 0,
        target_mode: match t.target_mode {
            Some(m) => mode_of_save(m),
            None => TargetMode::Primeiro,
        },
        fire_age: 0,
        fire_dir: (0, 0),
    }
}

/// The saved form of a tower kind.
pub fn save_kind_exec(k: TowerKind) -> (r: TowerKindSave)
    ensures
        r == save_kind(k),
{
    match k {
        TowerKind::Basic => TowerKindSave::Basic,
        TowerKind::Sniper => TowerKindSave::Sniper,
        TowerKind::Rapid => TowerKindSave::Rapid,
        TowerKind::Cannon => TowerKindSave::Cannon,
        TowerKind::Tesla => TowerKindSave::Tesla,
        TowerKind::Frost => TowerKindSave::Frost,
    }
}

/// The tower kind a saved kind stands for.
pub fn kind_of_save_exec(k: TowerKindSave) -> (r: TowerKind)
    ensures
        r == kind_of_save(k),
{
    match k {
        TowerKindSave::Basic => TowerKind::Basic,
        TowerKindSave::Sniper => TowerKind::Sniper,
        TowerKindSave::Rapid => TowerKind::Rapid,
        TowerKindSave::Cannon => TowerKind::Cannon,
        TowerKindSave::Tesla => TowerKind::Tesla,
        TowerKindSave::Frost => TowerKind::Frost,
    }
}

/// The saved form of a target mode.
pub fn save_mode_exec(m: TargetMode) -> (r: TargetModeSave)
    ensures
        r == save_mode(m),
{
    match m {
        TargetMode::Primeiro => TargetModeSave::Primeiro,
        TargetMode::Ultimo => TargetModeSave::Ultimo,
        TargetMode::MaisForte => TargetModeSave::MaisForte,
        TargetMode::MaisFraco => TargetModeSave::MaisFraco,
        TargetMode::MaisRapido => TargetModeSave::MaisRapido,
        TargetMode::MaisLento => TargetModeSave::MaisLento,
        TargetMode::MaisPerigoso => TargetModeSave::MaisPerigoso,
        TargetMode::MaisCurador => TargetModeSave::MaisCurador,
    }
}

/// The target mode a saved mode stands for.
pub fn mode_of_save_exec(m: TargetModeSave) -> (r: TargetMode)
    ensures
        r == mode_of_save(m),
{
    match m {
        TargetModeSave::Primeiro => TargetMode::Primeiro,
        TargetModeSave::Ultimo => TargetMode::Ultimo,
        TargetModeSave::MaisForte => TargetMode::MaisForte,
        TargetModeSave::MaisFraco => TargetMode::MaisFraco,
        TargetModeSave::MaisRapido => TargetMode::MaisRapido,
        TargetModeSave::MaisLento => TargetMode::MaisLento,
        TargetModeSave::MaisPerigoso => TargetMode::MaisPerigoso,
        TargetModeSave::MaisCurador => TargetMode::MaisCurador,
    }
}

/// The checkpoint of a match at `saved_at`: its map, mode, wave, money,
/// lives, speed and towers.
pub fn checkpoint_of(g: &GameState, dev_mode: bool, saved_at: u64) -> (c: SaveCheckpoint)
    ensures
        c.version == SAVE_VERSION,
        c.saved_at == saved_at,
        c.map_name@ == g.map_name@,
        c.dev_mode == dev_mode,
        c.wave == g.wave,
        c.money == g.money,
        c.lives == g.lives,
        c.speed == g.speed,
        c.towers@ == g.towers@.map_values(|t: Tower| saved_tower(t)),
{
    let mut towers: Vec<SaveTower> = Vec::new();
    let mut i: usize = 0;
    while i < g.towers.len()
        invariant
            i <= g.towers@.len(),
            towers@ == g.towers@.take(i as int).map_values(|t: Tower| saved_tower(t)),
        decreases g.towers@.len() - i,
    {
        let t = g.towers[i];
        towers.push(
            SaveTower {
                x: t.x,
                y: t.y,
                kind: save_kind_exec(t.kind),
                level: t.level,
                target_mode: Some(save_mode_exec(t.target_mode)),
            },
        );
        i = i + 1;
        assert(towers@ =~= g.towers@.take(i as int).map_values(|t: Tower| saved_tower(t)));
    }
    assert(g.towers@.take(g.towers@.len() as int) =~= g.towers@);
    SaveCheckpoint {
        version: SAVE_VERSION,
        saved_at,
        map_name: g.map_name.clone(),
        dev_mode,
        wave: g.wave,
        money: g.money,
        lives: g.lives,
        speed: g.speed,
        towers,
    }
}

/// The first map named `name`.
pub fn find_map(maps: &Vec<MapSpec>, name: &String) -> (r: Option<usize>)
    ensures
        match r {
            Some(i) => i < maps@.len() && maps@[i as int].name@ == name@ && forall|j: int|
                0 <= j < i ==> (#[trigger] maps@[j]).name@ != name@,
            None => forall|j: int| 0 <= j < maps@.len() ==> (#[trigger] maps@[j]).name@ != name@,
        },
{
    let mut i: usize = 0;
    while i < maps.len()
        invariant
            i <= maps@.len(),
            forall|j: int| 0 <= j < i ==> (#[trigger] maps@[j]).name@ != name@,
        decreases maps@.len() - i,
    {
        let candidate = maps[i].name.to_owned();
        if candidate == *name {
            return Some(i);
        }
        i = i + 1;
    }
    None
}

/// The towers a resumed match starts with: the saved ones, or a basic tower
/// on the first buildable cell when none was saved.
pub open spec fn restored_towers(saved: Seq<SaveTower>, first_cell: (u16, u16)) -> Seq<Tower> {
    if saved.len() == 0 {
        seq![new_tower(first_cell.0, first_cell.1, TowerKind::Basic)]
    } else {
        saved.map_values(|t: SaveTower| restored_tower(t))
    }
}

/// A match resumed from a checkpoint on `map`: paused, with the saved money,
/// lives and towers, the speed kept within 1..=4, the wave at least 1,
/// the first tower's cell selected, and no enemies, projectiles or effects
/// yet.
pub fn restore_game(map: &MapSpec, cp: &SaveCheckpoint) -> (g: GameState)
    ensures
        g.fx.wf(),
        g.fx@.slots == Seq::new(crate::fx::MAX_FX_ACTIVE as nat, |i: int| None::<crate::fx::FxEntity>),
        !g.running,
        g.speed == if cp.speed < 1 {
            1
        } else if cp.speed > 4 {
            4
        } else {
            cp.speed
        },
        g.money == cp.money,
        g.lives == cp.lives,
        g.wave == if cp.wave >= 1 {
            cp.wave
        } else {
            1
        },
        g.grid_w == map.grid_w,
        g.grid_h == map.grid_h,
        exists|c: (u16, u16)|
            is_first_buildable(map.grid_w, map.grid_h, map.path@, c) && #[trigger] restored_towers(
                cp.towers@,
                c,
            ) == g.towers@,
        g.towers@.len() >= 1,
        g.selected_cell == Some((g.towers@[0].x, g.towers@[0].y)),
        g.build_kind is None,
        g.map_name@ == map.name@,
        g.pending_build is None,
        g.path@ == map.path@,
        g.enemies@.len() == 0,
        g.projectiles@.len() == 0,
        !g.pending_wave_start,
        g.prep_ticks == 0,
{
    let path = crate::maps::copy_path_pub(&map.path);
    let cell = first_buildable(map.grid_w, map.grid_h, &path);
    let mut towers: Vec<Tower> = Vec::new();
    let mut i: usize = 0;
    while i < cp.towers.len()
        invariant
            i <= cp.towers@.len(),
            towers@ == cp.towers@.take(i as int).map_values(|t: SaveTower| restored_tower(t)),
        decreases cp.towers@.len() - i,
    {
        let t = cp.towers[i];
        towers.push(
            Tower {
                x: t.x,
                y: t.y,
                kind: kind_of_save_exec(t.kind),
                level: t.level,
                cooldown: 0,
                target_mode: match t.target_mode {
                    Some(m) => mode_of_save_exec(m),
                    None => TargetMode::Primeiro,
                },
                fire_age: 0,
                fire_dir: (0, 0),
            },
        );
        i = i + 1;
        assert(towers@ =~= cp.towers@.take(i as int).map_values(|t: SaveTower| restored_tower(t)));
    }
    assert(cp.towers@.take(cp.towers@.len() as int) =~= cp.towers@);
    if towers.len() == 0 {
        towers.push(
            Tower {
                x: cell.0,
                y: cell.1,
                kind: TowerKind::Basic,
                level: 1,
                cooldown: 0,
                target_mode: TargetMode::Primeiro,
                fire_age: 0,
                fire_dir: (0, 0),
            },
        );
        assert(towers@ =~= seq![new_tower(cell.0, cell.1, TowerKind::Basic)]);
    }
    assert(restored_towers(cp.towers@, cell) == towers@);
    let first = towers[0];
    let speed: u8 = if cp.speed < 1 {
        1
    } else if cp.speed > 4 {
        4
    } else {
        cp.speed
    };
    GameState {
        running: false,
        speed,
        money: cp.money,
        lives: cp.lives,
        wave: if cp.wave >= 1 {
            cp.wave
        } else {
            1
        },
        grid_w: map.grid_w,
        grid_h: map.grid_h,
        selected_cell: Some((first.x, first.y)),
        build_kind: None,
        map_name: map.name.to_owned(),
        pending_build: None,
        path,
        towers,
        enemies: Vec::new(),
        projectiles: Vec::new(),
        fx: FxManager::new(),
        pending_wave_start: false,
        prep_ticks: 0,
    }
}


/// Resuming a checkpoint gives back the towers that were saved: same
/// places, kinds, levels and target modes, each ready to fire again.
pub proof fn lemma_towers_read_back(towers: Seq<Tower>, first_cell: (u16, u16))
    requires
        towers.len() > 0,
    ensures
        restored_towers(towers.map_values(|t: Tower| saved_tower(t)), first_cell) == towers.map_values(
            |t: Tower| Tower { cooldown: 0, fire_age: 0, fire_dir: (0, 0), ..t },
        ),
{
    let saved = towers.map_values(|t: Tower| saved_tower(t));
    assert(saved.len() > 0);
    assert forall|t: Tower| kind_of_save(save_kind(t.kind)) == t.kind && mode_of_save(
        save_mode(t.target_mode),
    ) == t.target_mode by {}
    assert(restored_towers(saved, first_cell) =~= towers.map_values(
        |t: Tower| Tower { cooldown: 0, fire_age: 0, fire_dir: (0, 0), ..t },
    ));
}

} // verus!
