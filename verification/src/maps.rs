//! The maps a match can be played on, and the state a new match starts in.
use vstd::prelude::*;

use crate::fx::FxManager;
use crate::game::{spec_is_path, is_path, GameState, MapSpec, Tower, new_tower};
use crate::kinds::{TargetMode, TowerKind};

verus! {

/// The cells of a straight segment from `from` to `to`, both ends
/// included, from the lower coordinate up; nothing for a segment that is
/// neither horizontal nor vertical.
pub open spec fn segment(from: (u16, u16), to: (u16, u16)) -> Seq<(u16, u16)> {
    if from.0 == to.0 {
        let lo = if from.1 <= to.1 {
            from.1
        } else {
            to.1
        };
        let hi = if from.1 <= to.1 {
            to.1
        } else {
            from.1
        };
        Seq::new((hi - lo + 1) as nat, |i: int| (from.0, (lo + i) as u16))
    } else if from.1 == to.1 {
        let lo = if from.0 <= to.0 {
            from.0
        } else {
            to.0
        };
        let hi = if from.0 <= to.0 {
            to.0
        } else {
            from.0
        };
        Seq::new((hi - lo + 1) as nat, |i: int| ((lo + i) as u16, from.1))
    } else {
        seq![]
    }
}

/// Appends the cells of the segment from `from` to `to` to the path.
pub fn push_segment(path: &mut Vec<(u16, u16)>, from: (u16, u16), to: (u16, u16))
    ensures
        final(path)@ == old(path)@ + segment(from, to),
{
    let (x1, y1) = from;
    let (x2, y2) = to;
    let ghost p0 = path@;
    if x1 == x2 {
        let (start, end) = if y1 <= y2 {
            (y1, y2)
        } else {
            (y2, y1)
        };
        let mut y: u32 = start as u32;
        while y <= end as u32
            invariant
                start <= y <= end as u32 + 1,
                path@ == p0 + Seq::new((y - start) as nat, |i: int| (x1, (start + i) as u16)),
            decreases end as u32 + 1 - y,
        {
            path.push((x1, y as u16));
            y = y + 1;
            assert(path@ =~= p0 + Seq::new((y - start) as nat, |i: int| (x1, (start + i) as u16)));
        }
        assert(segment(from, to) =~= Seq::new((end - start + 1) as nat, |i: int| (x1, (start + i) as u16)));
    } else if y1 == y2 {
        let (start, end) = if x1 <= x2 {
            (x1, x2)
        } else {
            (x2, x1)
        };
        let mut x: u32 = start as u32;
        while x <= end as u32
            invariant
                start <= x <= end as u32 + 1,
                path@ == p0 + Seq::new((x - start) as nat, |i: int| ((start + i) as u16, y1)),
            decreases end as u32 + 1 - x,
        {
            path.push((x as u16, y1));
            x = x + 1;
            assert(path@ =~= p0 + Seq::new((x - start) as nat, |i: int| ((start + i) as u16, y1)));
        }
        assert(segment(from, to) =~= Seq::new((end - start + 1) as nat, |i: int| ((start + i) as u16, y1)));
    } else {
        assert(path@ =~= p0 + segment(from, to));
    }
}

/// `(x, y)` is an inner cell of the grid (off the border) not on the path.
pub open spec fn buildable_cell(grid_w: u16, grid_h: u16, path: Seq<(u16, u16)>, x: u16, y: u16) -> bool {
    1 <= x < grid_w - 1 && 1 <= y < grid_h - 1 && !spec_is_path(path, x, y)
}

/// `(x1, y1)` comes before `(x2, y2)` row by row.
pub open spec fn before_cell(x1: u16, y1: u16, x2: u16, y2: u16) -> bool {
    y1 < y2 || (y1 == y2 && x1 < x2)
}

/// `c` is the first inner cell off the path, row by row, or `(1, 1)` when
/// there is none.
pub open spec fn is_first_buildable(grid_w: u16, grid_h: u16, path: Seq<(u16, u16)>, c: (u16, u16)) -> bool {
    ||| (buildable_cell(grid_w, grid_h, path, c.0, c.1) && (forall|x: u16, y: u16|
        before_cell(x, y, c.0, c.1) ==> !buildable_cell(grid_w, grid_h, path, x, y)))
    ||| (c == (1u16, 1u16) && (forall|x: u16, y: u16| !buildable_cell(grid_w, grid_h, path, x, y)))
}

/// The first inner cell off the path, row by row; `(1, 1)` when there is
/// none.
pub fn first_buildable(grid_w: u16, grid_h: u16, path: &Vec<(u16, u16)>) -> (r: (u16, u16))
    ensures
        is_first_buildable(grid_w, grid_h, path@, r),
{
    let h_end: u16 = if grid_h >= 1 {
        grid_h - 1
    } else {
        0
    };
    let w_end: u16 = if grid_w >= 1 {
        grid_w - 1
    } else {
        0
    };
    let mut y: u16 = 1;
    while y < h_end
        invariant
            1 <= y,
            h_end == if grid_h >= 1 { grid_h - 1 } else { 0 },
            w_end == if grid_w >= 1 { grid_w - 1 } else { 0 },
            forall|xx: u16, yy: u16| yy < y ==> !buildable_cell(grid_w, grid_h, path@, xx, yy),
        decreases h_end - y,
    {
        let mut x: u16 = 1;
        while x < w_end
            invariant
                1 <= x,
                1 <= y < h_end,
                h_end == if grid_h >= 1 { grid_h - 1 } else { 0 },
                w_end == if grid_w >= 1 { grid_w - 1 } else { 0 },
                forall|xx: u16, yy: u16| yy < y ==> !buildable_cell(grid_w, grid_h, path@, xx, yy),
                forall|xx: u16| xx < x ==> !buildable_cell(grid_w, grid_h, path@, xx, y),
            decreases w_end - x,
        {
            if !is_path(path, x, y) {
                return (x, y);
            }
            x = x + 1;
        }
        assert forall|xx: u16| !buildable_cell(grid_w, grid_h, path@, xx, y) by {
            if xx < x {
            }
        }
        y = y + 1;
    }
    (1, 1)
}

/// A map built from its segments.
pub open spec fn path_of(segments: Seq<((u16, u16), (u16, u16))>) -> Seq<(u16, u16)>
    decreases segments.len(),
{
    if segments.len() == 0 {
        seq![]
    } else {
        path_of(segments.drop_last()) + segment(segments.last().0, segments.last().1)
    }
}

fn build_path(segments: &Vec<((u16, u16), (u16, u16))>) -> (path: Vec<(u16, u16)>)
    ensures
        path@ == path_of(segments@),
{
    let mut path: Vec<(u16, u16)> = Vec::new();
    let mut i: usize = 0;
    while i < segments.len()
        invariant
            i <= segments@.len(),
            path@ == path_of(segments@.take(i as int)),
        decreases segments@.len() - i,
    {
        let (from, to) = segments[i];
        push_segment(&mut path, from, to);
        assert(segments@.take(i + 1).drop_last() =~= segments@.take(i as int));
        i = i + 1;
    }
    assert(segments@.take(segments@.len() as int) =~= segments@);
    path
}

/// The segments of each map, in the order the map list offers them, with
/// its name and grid.
pub open spec fn map_layout(index: int) -> (&'static str, u16, u16, Seq<((u16, u16), (u16, u16))>) {
    if index == 0 {
        ("Serpentine", 60, 30, seq![((1, 5), (58, 5)), ((58, 5), (58, 25)), ((58, 25), (2, 25))])
    } else if index == 1 {
        (
            "Cascade",
            72,
            36,
            seq![((1, 4), (69, 4)), ((69, 4), (69, 16)), ((69, 16), (4, 16)), ((4, 16), (4, 31)), ((4, 31), (70, 31))],
        )
    } else if index == 2 {
        (
            "Spiral",
            80,
            40,
            seq![
                ((1, 6), (78, 6)),
                ((78, 6), (78, 34)),
                ((78, 34), (6, 34)),
                ((6, 34), (6, 10)),
                ((6, 10), (72, 10)),
                ((72, 10), (72, 30)),
                ((72, 30), (12, 30)),
            ],
        )
    } else if index == 3 {
        (
            "Switchback",
            70,
            34,
            seq![
                ((1, 6), (68, 6)),
                ((68, 6), (68, 12)),
                ((68, 12), (3, 12)),
                ((3, 12), (3, 18)),
                ((3, 18), (66, 18)),
                ((66, 18), (66, 29)),
                ((66, 29), (8, 29)),
            ],
        )
    } else {
        (
            "Crosswind",
            74,
            36,
            seq![
                ((1, 6), (72, 6)),
                ((72, 6), (72, 12)),
                ((72, 12), (6, 12)),
                ((6, 12), (6, 24)),
                ((6, 24), (68, 24)),
                ((68, 24), (68, 31)),
                ((68, 31), (3, 31)),
            ],
        )
    }
}

/// The number of maps.
pub const MAP_COUNT: usize = 5;

fn make_map(name: &'static str, grid_w: u16, grid_h: u16, segments: Vec<((u16, u16), (u16, u16))>) -> (m: MapSpec)
    ensures
        m.name == name,
        m.grid_w == grid_w,
        m.grid_h == grid_h,
        m.path@ == path_of(segments@),
{
    let path = build_path(&segments);
    MapSpec { name, grid_w, grid_h, path }
}

/// The map at `index` of the map list (see `map_layout`).
pub fn map_at(index: usize) -> (m: MapSpec)
    requires
        index < MAP_COUNT,
    ensures
        (m.name, m.grid_w, m.grid_h) == (map_layout(index as int).0, map_layout(index as int).1, map_layout(index as int).2),
        m.path@ == path_of(map_layout(index as int).3),
{
    if index == 0 {
        let w: u16 = 60;
        let h: u16 = 30;
        let segs = vec![((1, 5), (w - 2, 5)), ((w - 2, 5), (w - 2, h - 5)), ((w - 2, h - 5), (2, h - 5))];
        assert(segs@ =~= map_layout(0).3);
        make_map("Serpentine", w, h, segs)
    } else if index == 1 {
        let w: u16 = 72;
        let h: u16 = 36;
        let segs = vec![
            ((1, 4), (w - 3, 4)),
            ((w - 3, 4), (w - 3, 16)),
            ((w - 3, 16), (4, 16)),
            ((4, 16), (4, h - 5)),
            ((4, h - 5), (w - 2, h - 5)),
        ];
        assert(segs@ =~= map_layout(1).3);
        make_map("Cascade", w, h, segs)
    } else if index == 2 {
        let w: u16 = 80;
        let h: u16 = 40;
        let segs = vec![
            ((1, 6), (w - 2, 6)),
            ((w - 2, 6), (w - 2, h - 6)),
            ((w - 2, h - 6), (6, h - 6)),
            ((6, h - 6), (6, 10)),
            ((6, 10), (w - 8, 10)),
            ((w - 8, 10), (w - 8, h - 10)),
            ((w - 8, h - 10), (12, h - 10)),
        ];
        assert(segs@ =~= map_layout(2).3);
        make_map("Spiral", w, h, segs)
    } else if index == 3 {
        let w: u16 = 70;
        let h: u16 = 34;
        let segs = vec![
            ((1, 6), (w - 2, 6)),
            ((w - 2, 6), (w - 2, 12)),
            ((w - 2, 12), (3, 12)),
            ((3, 12), (3, 18)),
            ((3, 18), (w - 4, 18)),
            ((w - 4, 18), (w - 4, h - 5)),
            ((w - 4, h - 5), (8, h - 5)),
        ];
        assert(segs@ =~= map_layout(3).3);
        make_map("Switchback", w, h, segs)
    } else {
        let w: u16 = 74;
        let h: u16 = 36;
        let segs = vec![
            ((1, 6), (w - 2, 6)),
            ((w - 2, 6), (w - 2, 12)),
            ((w - 2, 12), (6, 12)),
            ((6, 12), (6, 24)),
            ((6, 24), (w - 6, 24)),
            ((w - 6, 24), (w - 6, h - 5)),
            ((w - 6, h - 5), (3, h - 5)),
        ];
        assert(segs@ =~= map_layout(4).3);
        make_map("Crosswind", w, h, segs)
    }
}

/// All maps, in order.
pub fn build_maps() -> (maps: Vec<MapSpec>)
    ensures
        maps@.len() == MAP_COUNT,
        forall|i: int|
            0 <= i < MAP_COUNT ==> (#[trigger] maps@[i]).name == map_layout(i).0 && maps@[i].grid_w
                == map_layout(i).1 && maps@[i].grid_h == map_layout(i).2 && maps@[i].path@ == path_of(
                map_layout(i).3,
            ),
{
    let mut maps: Vec<MapSpec> = Vec::new();
    let mut i: usize = 0;
    while i < MAP_COUNT
        invariant
            i <= MAP_COUNT,
            maps@.len() == i,
            forall|j: int|
                0 <= j < i ==> (#[trigger] maps@[j]).name == map_layout(j).0 && maps@[j].grid_w
                    == map_layout(j).1 && maps@[j].grid_h == map_layout(j).2 && maps@[j].path@
                    == path_of(map_layout(j).3),
        decreases MAP_COUNT - i,
    {
        maps.push(map_at(i));
        i = i + 1;
    }
    maps
}

/// The money a match starts with.
pub const START_MONEY: i32 = 175;

/// The lives a match starts with.
pub const START_LIVES: i32 = 20;

/// A new match on `map`: paused at speed 1 in wave 1 with 175 money and 20
/// lives, a basic tower already standing on the first buildable cell, which
/// is selected; no enemies, projectiles or effects.
pub fn new_game(map: &MapSpec) -> (g: GameState)
    ensures
        g.fx.wf(),
        g.fx@.slots == Seq::new(crate::fx::MAX_FX_ACTIVE as nat, |i: int| None::<crate::fx::FxEntity>),
        !g.running,
        g.speed == 1,
        g.money == START_MONEY,
        g.lives == START_LIVES,
        g.wave == 1,
        g.grid_w == map.grid_w,
        g.grid_h == map.grid_h,
        g.selected_cell matches Some(c) && g.towers@ == seq![new_tower(c.0, c.1, TowerKind::Basic)]
            && is_first_buildable(map.grid_w, map.grid_h, map.path@, c),
        g.build_kind is None,
        g.map_name@ == map.name@,
        g.pending_build is None,
        g.path@ == map.path@,
        g.enemies@.len() == 0,
        g.projectiles@.len() == 0,
        !g.pending_wave_start,
        g.prep_ticks == 0,
{
    let path = copy_path_pub(&map.path);
    let cell = first_buildable(map.grid_w, map.grid_h, &path);
    let mut towers: Vec<Tower> = Vec::new();
    towers.push(
        Tower {
            x: cell.0,
            y: cell.1,
            kind: TowerKind::Basic,
            level: 1,
            cooldown: 0,
            target_mode: TargetMode::Primeiro,
            fire_age: 0,
            fire_dir: (0, 0),
        },
    );
    GameState {
        running: false,
        speed: 1,
        money: START_MONEY,
        lives: START_LIVES,
        wave: 1,
        grid_w: map.grid_w,
        grid_h: map.grid_h,
        selected_cell: Some(cell),
        build_kind: None,
        map_name: map.name.to_owned(),
        pending_build: None,
        path,
        towers,
        enemies: Vec::new(),
        projectiles: Vec::new(),
        fx: FxManager::new(),
        pending_wave_start: false,
        prep_ticks: 0,
    }
}

pub(crate) fn copy_path_pub(v: &Vec<(u16, u16)>) -> (r: Vec<(u16, u16)>)
    ensures
        r@ == v@,
{
    let mut r: Vec<(u16, u16)> = Vec::new();
    let mut i: usize = 0;
    while i < v.len()
        invariant
            i <= v@.len(),
            r@ == v@.take(i as int),
        decreases v@.len() - i,
    {
        r.push(v[i]);
        i = i + 1;
        assert(r@ =~= v@.take(i as int));
    }
    assert(v@.take(v@.len() as int) =~= v@);
    r
}

} // verus!
