//! What an effect looks like on screen: the screen cells it paints, in
//! order, each with a glyph, a colour and a weight. Every cell listed lies
//! inside the map's screen area.
use vstd::prelude::*;

use crate::assets::{enemy_rows, enemy_sprite, sprite_side, zoom_level};
use crate::fx::{
    sign, spec_muzzle_profile, spec_xorshift32, muzzle_profile, xorshift32, FxData, FxEntity, FxKind,
    Vec2i,
};
use crate::game::Enemy;
use crate::kinds::{EnemyKind, TowerKind};
use crate::view::{
    map_to_screen, map_to_tile_origin, spec_line_glyph, spec_map_to_screen, spec_map_to_tile_origin,
    visible_cell, mid_offset, screen_fits, FxLod, MapViewport, Rect,
};

verus! {

/// The colour an effect paints with.
#[derive(Debug, Clone, Copy, PartialEq, Eq, Structural)]
pub enum FxColor {
    /// The colour of a tower kind.
    Tower(TowerKind),
    /// The colour of an enemy kind.
    Enemy(EnemyKind),
    LightRed,
    DarkGray,
    White,
    Cyan,
    Blue,
}

/// How strongly a glyph is drawn.
#[derive(Debug, Clone, Copy, PartialEq, Eq, Structural)]
pub enum FxWeight {
    Bold,
    Dim,
}

/// One screen cell painted: `over` keeps the style already on the cell
/// beneath the new colour and weight; otherwise the cell's style is
/// replaced.
#[derive(Debug, Clone, Copy)]
pub struct Stroke {
    pub x: u16,
    pub y: u16,
    pub glyph: &'static str,
    pub color: FxColor,
    pub weight: FxWeight,
    pub over: bool,
}

/// A stroke drawn over the cell's style.
pub open spec fn stroke(x: int, y: int, glyph: &'static str, color: FxColor, weight: FxWeight) -> Stroke {
    Stroke { x: x as u16, y: y as u16, glyph, color, weight, over: true }
}

/// The map's screen area and view stay well inside the screen's
/// coordinates: the area ends before column and row 0x7fff, and every
/// visible tile lies on the screen's range.
pub open spec fn area_fits(area: Rect, vp: MapViewport) -> bool {
    &&& area.x + area.width <= 0x7fff
    &&& area.y + area.height <= 0x7fff
    &&& area.x + vp.vis_w * vp.tile_w <= 0xffff
    &&& area.y + vp.vis_h * vp.tile_h <= 0xffff
    &&& vp.tile_w <= 0x7fff
    &&& vp.tile_h <= 0x7fff
}

/// `(x, y)` lies in `area`.
pub open spec fn in_area(area: Rect, x: int, y: int) -> bool {
    area.x <= x < area.x + area.width && area.y <= y < area.y + area.height
}

/// `v` held within `lo..=hi`.
pub open spec fn clamp_to(v: int, lo: int, hi: int) -> int {
    if v < lo {
        lo
    } else if v > hi {
        hi
    } else {
        v
    }
}

proof fn lemma_fits(pos: Vec2i, area: Rect, vp: MapViewport)
    requires
        area_fits(area, vp),
    ensures
        screen_fits(pos, area, vp),
        spec_map_to_screen(pos, area, vp) matches Some((x, y)) ==> in_area(area, x as int, y as int),
        spec_map_to_tile_origin(pos, area, vp) matches Some((tx, ty)) ==> in_area(area, tx as int, ty as int)
            && tx + vp.tile_w <= 0xffff && ty + vp.tile_h <= 0xffff,
{
    match visible_cell(pos, vp) {
        Some((gx, gy)) => {
            assert(gx * vp.tile_w + vp.tile_w <= vp.vis_w * vp.tile_w) by (nonlinear_arith)
                requires
                    0 <= gx < vp.vis_w,
                    vp.tile_w >= 0,
            ;
            assert(gy * vp.tile_h + vp.tile_h <= vp.vis_h * vp.tile_h) by (nonlinear_arith)
                requires
                    0 <= gy < vp.vis_h,
                    vp.tile_h >= 0,
            ;
            assert(0 <= gx * vp.tile_w) by (nonlinear_arith)
                requires
                    0 <= gx,
                    vp.tile_w >= 0,
            ;
            assert(0 <= gy * vp.tile_h) by (nonlinear_arith)
                requires
                    0 <= gy,
                    vp.tile_h >= 0,
            ;
        },
        None => {},
    }
}

// ---------------------------------------------------------------------------
// Single cells

/// A glyph in the middle of map cell `pos`, if the cell is on screen.
pub open spec fn plain_cell(pos: Vec2i, glyph: &'static str, color: FxColor, weight: FxWeight, area: Rect, vp: MapViewport) -> Seq<Stroke> {
    match spec_map_to_screen(pos, area, vp) {
        Some((x, y)) => seq![stroke(x as int, y as int, glyph, color, weight)],
        None => seq![],
    }
}

/// How far the halo around a highlighted cell reaches: an eighth of the
/// smaller tile side, at most 2.
pub open spec fn halo_radius(vp: MapViewport) -> int {
    let t = if vp.tile_w <= vp.tile_h {
        vp.tile_w as int
    } else {
        vp.tile_h as int
    };
    if t / 8 <= 2 {
        t / 8
    } else {
        2
    }
}

/// The halo's offsets: the four neighbours, and at radius 2 the four cells
/// two away as well.
pub open spec fn halo_offsets(r: int) -> Seq<(int, int)> {
    if r == 1 {
        seq![(1, 0), (-1, 0), (0, 1), (0, -1)]
    } else if r == 2 {
        seq![(1, 0), (-1, 0), (0, 1), (0, -1), (2, 0), (-2, 0), (0, 2), (0, -2)]
    } else {
        seq![]
    }
}

/// Dim dots around screen cell `(cx, cy)`, kept inside the area.
pub open spec fn halo(cx: int, cy: int, color: FxColor, area: Rect, r: int) -> Seq<Stroke> {
    let offs = halo_offsets(r);
    Seq::new(
        offs.len(),
        |i: int|
            stroke(
                clamp_to(cx + offs[i].0, area.x as int, area.x + area.width - 1),
                clamp_to(cy + offs[i].1, area.y as int, area.y + area.height - 1),
                ".",
                color,
                FxWeight::Dim,
            ),
    )
}

/// A glyph in the middle of map cell `pos` with a halo around it, if the
/// cell is on screen.
pub open spec fn lit_cell(pos: Vec2i, glyph: &'static str, color: FxColor, weight: FxWeight, area: Rect, vp: MapViewport) -> Seq<Stroke> {
    match spec_map_to_screen(pos, area, vp) {
        Some((x, y)) => seq![stroke(x as int, y as int, glyph, color, weight)] + halo(
            x as int,
            y as int,
            color,
            area,
            halo_radius(vp),
        ),
        None => seq![],
    }
}

fn plain_cell_exec(
    out: &mut Vec<Stroke>,
    pos: Vec2i,
    glyph: &'static str,
    color: FxColor,
    weight: FxWeight,
    area: Rect,
    vp: MapViewport,
)
    requires
        area_fits(area, vp),
    ensures
        final(out)@ == old(out)@ + plain_cell(pos, glyph, color, weight, area, vp),
{
    proof {
        lemma_fits(pos, area, vp);
    }
    if let Some((x, y)) = map_to_screen(pos, area, vp) {
        out.push(Stroke { x, y, glyph, color, weight, over: true });
    }
    proof {
        assert(final(out)@ =~= old(out)@ + plain_cell(pos, glyph, color, weight, area, vp));
    }
}

fn clamp_i32(v: i32, lo: i32, hi: i32) -> (r: i32)
    requires
        lo <= hi,
    ensures
        r == clamp_to(v as int, lo as int, hi as int),
{
    if v < lo {
        lo
    } else if v > hi {
        hi
    } else {
        v
    }
}

fn lit_cell_exec(
    out: &mut Vec<Stroke>,
    pos: Vec2i,
    glyph: &'static str,
    color: FxColor,
    weight: FxWeight,
    area: Rect,
    vp: MapViewport,
)
    requires
        area_fits(area, vp),
    ensures
        final(out)@ == old(out)@ + lit_cell(pos, glyph, color, weight, area, vp),
{
    proof {
        lemma_fits(pos, area, vp);
    }
    let Some((cx, cy)) = map_to_screen(pos, area, vp) else {
        return;
    };
    out.push(Stroke { x: cx, y: cy, glyph, color, weight, over: true });
    let tile = if vp.tile_w <= vp.tile_h {
        vp.tile_w
    } else {
        vp.tile_h
    };
    let radius: u16 = if tile / 8 <= 2 {
        tile / 8
    } else {
        2
    };
    let ghost base = out@;
    let ghost offs = halo_offsets(radius as int);
    let dxs: [i32; 8] = [1, -1, 0, 0, 2, -2, 0, 0];
    let dys: [i32; 8] = [0, 0, 1, -1, 0, 0, 2, -2];
    let n: usize = if radius == 1 {
        4
    } else if radius == 2 {
        8
    } else {
        0
    };
    let x_min = area.x as i32;
    let y_min = area.y as i32;
    let x_max = area.x as i32 + area.width as i32 - 1;
    let y_max = area.y as i32 + area.height as i32 - 1;
    let mut i: usize = 0;
    while i < n
        invariant
            n == offs.len(),
            offs == halo_offsets(radius as int),
            radius as int == halo_radius(vp),
            i <= n,
            n <= 8,
            forall|k: int| 0 <= k < n ==> offs[k] == (dxs@[k] as int, dys@[k] as int),
            x_min == area.x,
            y_min == area.y,
            x_max == area.x + area.width - 1,
            y_max == area.y + area.height - 1,
            x_min <= cx <= x_max,
            y_min <= cy <= y_max,
            area_fits(area, vp),
            out@ == base + halo(cx as int, cy as int, color, area, radius as int).take(i as int),
        decreases n - i,
    {
        let x = clamp_i32(cx as i32 + dxs[i], x_min, x_max);
        let y = clamp_i32(cy as i32 + dys[i], y_min, y_max);
        out.push(Stroke { x: x as u16, y: y as u16, glyph: ".", color, weight: FxWeight::Dim, over: true });
        proof {
            let h = halo(cx as int, cy as int, color, area, radius as int);
            assert(h.take(i + 1) =~= h.take(i as int).push(h[i as int]));
        }
        i = i + 1;
    }
    proof {
        let h = halo(cx as int, cy as int, color, area, radius as int);
        assert(h.take(n as int) =~= h);
    }
}

// ---------------------------------------------------------------------------
// Lines

/// `|v|`.
pub open spec fn iabs(v: int) -> int {
    if v < 0 {
        -v
    } else {
        v
    }
}

/// One step of the line walk towards the end: with `e2 = 2 * err`, a step
/// across when `e2 >= dy` and a step down when `e2 <= dx`; gives the next
/// point and error.
pub open spec fn walk_next(x: int, y: int, err: int, dx: int, dy: int, sx: int, sy: int) -> (int, int, int) {
    let e2 = 2 * err;
    let (err1, nx) = if e2 >= dy {
        (err + dy, x + sx)
    } else {
        (err, x)
    };
    let (err2, ny) = if e2 <= dx {
        (err1 + dx, y + sy)
    } else {
        (err1, y)
    };
    (nx, ny, err2)
}

/// How many points a line walk from `(x0, y0)` to `(x1, y1)` lists at
/// most.
pub open spec fn walk_fuel(x0: int, y0: int, x1: int, y1: int) -> nat {
    (iabs(x1 - x0) + iabs(y1 - y0) + 1) as nat
}

/// The glyph drawn for a step `(dx, dy)` of a line.
pub open spec fn step_glyph(dx: int, dy: int) -> &'static str {
    spec_line_glyph(Vec2i { x: 0, y: 0 }, Vec2i { x: sign(dx), y: sign(dy) })
}

/// The screen cells of a line walk at `(x, y)` (the previous point being
/// `(px, py)`) on its way to `(x1, y1)`, stepping by `sx` and `sy`: each
/// point inside the area gets the glyph of the step that reached it, the
/// first point that of the direction to the end.
pub open spec fn screen_walk(
    x: int,
    y: int,
    err: int,
    px: int,
    py: int,
    x1: int,
    y1: int,
    dx: int,
    dy: int,
    sx: int,
    sy: int,
    color: FxColor,
    weight: FxWeight,
    area: Rect,
    fuel: nat,
) -> Seq<Stroke>
    decreases fuel,
{
    if fuel == 0 {
        seq![]
    } else {
        let glyph = if x == px && y == py {
            step_glyph(x1 - x, y1 - y)
        } else {
            step_glyph(x - px, y - py)
        };
        let here = if in_area(area, x, y) {
            seq![stroke(x, y, glyph, color, weight)]
        } else {
            seq![]
        };
        if x == x1 && y == y1 {
            here
        } else {
            let n = walk_next(x, y, err, dx, dy, sx, sy);
            here + screen_walk(n.0, n.1, n.2, x, y, x1, y1, dx, dy, sx, sy, color, weight, area, (fuel - 1) as nat)
        }
    }
}

/// The cells of a straight screen line from `a` to `b` (Bresenham's walk),
/// those inside the area.
pub open spec fn screen_line(a: (u16, u16), b: (u16, u16), color: FxColor, weight: FxWeight, area: Rect) -> Seq<Stroke> {
    let (x0, y0, x1, y1) = (a.0 as int, a.1 as int, b.0 as int, b.1 as int);
    let dx = iabs(x1 - x0);
    let dy = -iabs(y1 - y0);
    let sx = if x0 < x1 { 1int } else { -1int };
    let sy = if y0 < y1 { 1int } else { -1int };
    screen_walk(x0, y0, dx + dy, x0, y0, x1, y1, dx, dy, sx, sy, color, weight, area, walk_fuel(x0, y0, x1, y1))
}

/// Whether the line walk at `(x, y)` meets `(x1, y1)` within `fuel`
/// points.
pub open spec fn walk_reaches(
    x: int,
    y: int,
    err: int,
    x1: int,
    y1: int,
    dx: int,
    dy: int,
    sx: int,
    sy: int,
    fuel: nat,
) -> bool
    decreases fuel,
{
    if fuel == 0 {
        false
    } else if x == x1 && y == y1 {
        true
    } else {
        let n = walk_next(x, y, err, dx, dy, sx, sy);
        walk_reaches(n.0, n.1, n.2, x1, y1, dx, dy, sx, sy, (fuel - 1) as nat)
    }
}

/// The walk after `i` steps across and `j` down: it never passes the end
/// in either direction, moves at least once per point, and so meets the end
/// within the points left.
proof fn lemma_walk_from(x0: int, y0: int, x1: int, y1: int, i: int, j: int, err: int, fuel: nat)
    requires
        0 <= i <= iabs(x1 - x0),
        0 <= j <= iabs(y1 - y0),
        err == iabs(x1 - x0) - iabs(y1 - y0) - iabs(y1 - y0) * i + iabs(x1 - x0) * j,
        fuel >= (iabs(x1 - x0) - i) + (iabs(y1 - y0) - j) + 1,
    ensures
        walk_reaches(
            if x0 < x1 { x0 + i } else { x0 - i },
            if y0 < y1 { y0 + j } else { y0 - j },
            err,
            x1,
            y1,
            iabs(x1 - x0),
            -iabs(y1 - y0),
            if x0 < x1 { 1int } else { -1int },
            if y0 < y1 { 1int } else { -1int },
            fuel,
        ),
    decreases fuel,
{
    let d = iabs(x1 - x0);
    let e = iabs(y1 - y0);
    let sx = if x0 < x1 { 1int } else { -1int };
    let sy = if y0 < y1 { 1int } else { -1int };
    let x = if x0 < x1 { x0 + i } else { x0 - i };
    let y = if y0 < y1 { y0 + j } else { y0 - j };
    if i == d && j == e {
        assert(x == x1 && y == y1);
    } else {
        assert(!(x == x1 && y == y1));
        let across = 2 * err >= -e;
        let down = 2 * err <= d;
        if i == d {
            assert(d * (e - j) >= d) by (nonlinear_arith)
                requires
                    e - j >= 1,
                    d >= 0,
            ;
            assert(err == d - e - d * (e - j)) by (nonlinear_arith)
                requires
                    err == d - e - e * i + d * j,
                    i == d,
            ;
            assert(!across);
        }
        if j == e {
            assert(e * (d - i) >= e) by (nonlinear_arith)
                requires
                    d - i >= 1,
                    e >= 0,
            ;
            assert(err == d - e + e * (d - i)) by (nonlinear_arith)
                requires
                    err == d - e - e * i + d * j,
                    j == e,
            ;
            assert(!down);
        }
        assert(across || down);
        let i2 = if across { i + 1 } else { i };
        let j2 = if down { j + 1 } else { j };
        let err1 = if across { err - e } else { err };
        let err2 = if down { err1 + d } else { err1 };
        assert(err2 == d - e - e * i2 + d * j2) by (nonlinear_arith)
            requires
                err == d - e - e * i + d * j,
                i2 == i + 1 || i2 == i,
                j2 == j + 1 || j2 == j,
                err1 == (if i2 == i + 1 { err - e } else { err }),
                err2 == (if j2 == j + 1 { err1 + d } else { err1 }),
        ;
        let n = walk_next(x, y, err, d, -e, sx, sy);
        assert(n.0 == (if x0 < x1 { x0 + i2 } else { x0 - i2 }));
        assert(n.1 == (if y0 < y1 { y0 + j2 } else { y0 - j2 }));
        assert(n.2 == err2);
        lemma_walk_from(x0, y0, x1, y1, i2, j2, err2, (fuel - 1) as nat);
    }
}

/// A line walk always meets its end: the number of points it is given (one
/// more than the two distances together) is never what stops it, so
/// `screen_line` lists the whole line.
pub proof fn lemma_line_walk_reaches_end(x0: int, y0: int, x1: int, y1: int)
    ensures
        walk_reaches(
            x0,
            y0,
            iabs(x1 - x0) - iabs(y1 - y0),
            x1,
            y1,
            iabs(x1 - x0),
            -iabs(y1 - y0),
            if x0 < x1 { 1int } else { -1int },
            if y0 < y1 { 1int } else { -1int },
            walk_fuel(x0, y0, x1, y1),
        ),
{
    lemma_walk_from(x0, y0, x1, y1, 0, 0, iabs(x1 - x0) - iabs(y1 - y0), walk_fuel(x0, y0, x1, y1));
}

fn step_glyph_exec(dx: i64, dy: i64) -> (g: &'static str)
    ensures
        g == step_glyph(dx as int, dy as int),
{
    let sx: i16 = if dx > 0 {
        1
    } else if dx < 0 {
        -1
    } else {
        0
    };
    let sy: i16 = if dy > 0 {
        1
    } else if dy < 0 {
        -1
    } else {
        0
    };
    crate::view::line_glyph(Vec2i { x: 0, y: 0 }, Vec2i { x: sx, y: sy })
}

fn screen_line_exec(out: &mut Vec<Stroke>, a: (u16, u16), b: (u16, u16), color: FxColor, weight: FxWeight, area: Rect)
    requires
        area.x + area.width <= 0xffff,
        area.y + area.height <= 0xffff,
    ensures
        final(out)@ == old(out)@ + screen_line(a, b, color, weight, area),
{
    let x0: i64 = a.0 as i64;
    let y0: i64 = a.1 as i64;
    let x1: i64 = b.0 as i64;
    let y1: i64 = b.1 as i64;
    let dx: i64 = if x1 >= x0 {
        x1 - x0
    } else {
        x0 - x1
    };
    let dy: i64 = if y1 >= y0 {
        y0 - y1
    } else {
        y1 - y0
    };
    let sx: i64 = if x0 < x1 {
        1
    } else {
        -1
    };
    let sy: i64 = if y0 < y1 {
        1
    } else {
        -1
    };
    let fuel: u64 = (dx - dy + 1) as u64;
    let mut x = x0;
    let mut y = y0;
    let mut px = x0;
    let mut py = y0;
    let mut err = dx + dy;
    let mut k: u64 = 0;
    let ghost total = old(out)@ + screen_line(a, b, color, weight, area);
    let ghost mut bound: int = 0x20000;
    while k < fuel
        invariant_except_break
            0 <= dx <= 0xffff,
            -0xffff <= dy <= 0,
            fuel == walk_fuel(x0 as int, y0 as int, x1 as int, y1 as int),
            k <= fuel,
            fuel <= 0x20000,
            -(k as int) <= x - x0 <= k,
            -(k as int) <= y - y0 <= k,
            -(k as int) <= px - x0 <= k,
            -(k as int) <= py - y0 <= k,
            0 <= x0 <= 0xffff,
            0 <= y0 <= 0xffff,
            0 <= x1 <= 0xffff,
            0 <= y1 <= 0xffff,
            sx == 1 || sx == -1,
            sy == 1 || sy == -1,
            -bound <= err <= bound,
            bound <= (k + 1) * 0x20000,
            area.x + area.width <= 0xffff,
            area.y + area.height <= 0xffff,
            total == out@ + screen_walk(
                x as int,
                y as int,
                err as int,
                px as int,
                py as int,
                x1 as int,
                y1 as int,
                dx as int,
                dy as int,
                sx as int,
                sy as int,
                color,
                weight,
                area,
                (fuel - k) as nat,
            ),
        ensures
            out@ == total,
        decreases fuel - k,
    {
        let glyph = if x == px && y == py {
            step_glyph_exec(x1 - x, y1 - y)
        } else {
            step_glyph_exec(x - px, y - py)
        };
        let ghost before = out@;
        if area.x as i64 <= x && x < area.x as i64 + area.width as i64 && area.y as i64 <= y && y
            < area.y as i64 + area.height as i64 {
            out.push(Stroke { x: x as u16, y: y as u16, glyph, color, weight, over: true });
        }
        if x == x1 && y == y1 {
            proof {
                assert(out@ =~= total);
            }
            break;
        }
        let e2 = 2 * err;
        px = x;
        py = y;
        if e2 >= dy {
            err = err + dy;
            x = x + sx;
        }
        if e2 <= dx {
            err = err + dx;
            y = y + sy;
        }
        proof {
            bound = bound + 0x20000;
            assert(total == out@ + screen_walk(
                x as int,
                y as int,
                err as int,
                px as int,
                py as int,
                x1 as int,
                y1 as int,
                dx as int,
                dy as int,
                sx as int,
                sy as int,
                color,
                weight,
                area,
                (fuel - k - 1) as nat,
            ));
        }
        k = k + 1;
    }
}

/// The map cells of a line walk at `(x, y)` on its way to `(x1, y1)`.
pub open spec fn map_walk(x: int, y: int, err: int, x1: int, y1: int, dx: int, dy: int, sx: int, sy: int, fuel: nat) -> Seq<Vec2i>
    decreases fuel,
{
    if fuel == 0 {
        seq![]
    } else {
        let here = seq![Vec2i { x: x as i16, y: y as i16 }];
        if x == x1 && y == y1 {
            here
        } else {
            let n = walk_next(x, y, err, dx, dy, sx, sy);
            here + map_walk(n.0, n.1, n.2, x1, y1, dx, dy, sx, sy, (fuel - 1) as nat)
        }
    }
}

/// The map cells of a straight line from `from` to `to` (Bresenham's
/// walk), both ends included.
pub open spec fn line_points(from: Vec2i, to: Vec2i) -> Seq<Vec2i> {
    let (x0, y0, x1, y1) = (from.x as int, from.y as int, to.x as int, to.y as int);
    let dx = iabs(x1 - x0);
    let dy = -iabs(y1 - y0);
    let sx = if x0 < x1 { 1int } else { -1int };
    let sy = if y0 < y1 { 1int } else { -1int };
    map_walk(x0, y0, dx + dy, x1, y1, dx, dy, sx, sy, walk_fuel(x0, y0, x1, y1))
}

fn line_points_exec(from: Vec2i, to: Vec2i) -> (r: Vec<Vec2i>)
    ensures
        r@ == line_points(from, to),
{
    let x0: i64 = from.x as i64;
    let y0: i64 = from.y as i64;
    let x1: i64 = to.x as i64;
    let y1: i64 = to.y as i64;
    let dx: i64 = if x1 >= x0 {
        x1 - x0
    } else {
        x0 - x1
    };
    let dy: i64 = if y1 >= y0 {
        y0 - y1
    } else {
        y1 - y0
    };
    let sx: i64 = if x0 < x1 {
        1
    } else {
        -1
    };
    let sy: i64 = if y0 < y1 {
        1
    } else {
        -1
    };
    let fuel: u64 = (dx - dy + 1) as u64;
    let mut out: Vec<Vec2i> = Vec::new();
    let mut x = x0;
    let mut y = y0;
    let mut err = dx + dy;
    let mut k: u64 = 0;
    let ghost total = line_points(from, to);
    let ghost mut bound: int = 0x20000;
    while k < fuel
        invariant_except_break
            0 <= dx <= 0xffff,
            -0xffff <= dy <= 0,
            fuel == walk_fuel(x0 as int, y0 as int, x1 as int, y1 as int),
            k <= fuel,
            fuel <= 0x20000,
            -(k as int) <= x - x0 <= k,
            -(k as int) <= y - y0 <= k,
            -0x8000 <= x0 <= 0x7fff,
            -0x8000 <= y0 <= 0x7fff,
            -0x8000 <= x1 <= 0x7fff,
            -0x8000 <= y1 <= 0x7fff,
            sx == 1 || sx == -1,
            sy == 1 || sy == -1,
            -bound <= err <= bound,
            bound <= (k + 1) * 0x20000,
            total == out@ + map_walk(
                x as int,
                y as int,
                err as int,
                x1 as int,
                y1 as int,
                dx as int,
                dy as int,
                sx as int,
                sy as int,
                (fuel - k) as nat,
            ),
        ensures
            out@ == total,
        decreases fuel - k,
    {
        out.push(Vec2i { x: x as i16, y: y as i16 });
        if x == x1 && y == y1 {
            proof {
                assert(out@ =~= total);
            }
            break;
        }
        let e2 = 2 * err;
        if e2 >= dy {
            err = err + dy;
            x = x + sx;
        }
        if e2 <= dx {
            err = err + dx;
            y = y + sy;
        }
        proof {
            bound = bound + 0x20000;
            assert(total == out@ + map_walk(
                x as int,
                y as int,
                err as int,
                x1 as int,
                y1 as int,
                dx as int,
                dy as int,
                sx as int,
                sy as int,
                (fuel - k - 1) as nat,
            ));
        }
        k = k + 1;
    }
    out
}

/// How many points of an arc are drawn at a level of detail.
pub open spec fn arc_segments(segments_max: u8, lod: FxLod) -> int {
    match lod {
        FxLod::Low => if segments_max <= 6 { segments_max as int } else { 6 },
        FxLod::Medium => if segments_max <= 10 { segments_max as int } else { 10 },
        FxLod::High => segments_max as int,
    }
}

/// How far an arc's ends may be jittered: a sixth of the smaller tile side,
/// held within 1..=2.
pub open spec fn arc_jitter(vp: MapViewport) -> int {
    let t = if vp.tile_w <= vp.tile_h {
        vp.tile_w as int
    } else {
        vp.tile_h as int
    };
    clamp_to(t / 6, 1, 2)
}

/// A jitter of `j` either way: this way when the draw is even.
pub open spec fn jittered(v: int, s: u32, j: int, lo: int, hi: int) -> int {
    if s % 3 == 0 {
        clamp_to(v + if s % 2 == 0 { j } else { -j }, lo, hi)
    } else {
        v
    }
}

/// The strokes of an arc's segments from point `k` on: each segment
/// whose two ends are on screen is drawn as a screen line, its start's
/// column and its end's row jittered by draws of xorshift32 from `seed`
/// (a segment off screen draws nothing).
pub open spec fn arc_walk(pts: Seq<Vec2i>, k: int, seed: u32, j: int, color: FxColor, area: Rect, vp: MapViewport) -> Seq<Stroke>
    decreases pts.len() - k,
{
    if k < 0 || k + 1 >= pts.len() {
        seq![]
    } else {
        match (spec_map_to_screen(pts[k], area, vp), spec_map_to_screen(pts[k + 1], area, vp)) {
            (Some(a), Some(b)) => {
                let s1 = spec_xorshift32(seed);
                let s2 = spec_xorshift32(s1);
                let x0 = jittered(a.0 as int, s1, j, area.x as int, area.x + area.width - 1);
                let y1 = jittered(b.1 as int, s2, j, area.y as int, area.y + area.height - 1);
                screen_line((x0 as u16, a.1), (b.0, y1 as u16), color, FxWeight::Bold, area) + arc_walk(
                    pts,
                    k + 1,
                    s2,
                    j,
                    color,
                    area,
                    vp,
                )
            },
            _ => arc_walk(pts, k + 1, seed, j, color, area, vp),
        }
    }
}

/// The strokes of a lightning arc from `from` to `to`: the first points
/// of the line between them (see `arc_segments`), joined by jittered
/// segments, white while new and cyan after.
pub open spec fn arc_strokes(from: Vec2i, to: Vec2i, segments_max: u8, age: u8, seed: u32, lod: FxLod, area: Rect, vp: MapViewport) -> Seq<Stroke> {
    let pts = line_points(from, to);
    let m = arc_segments(segments_max, lod);
    let shown = if pts.len() > m { pts.take(m) } else { pts };
    let color = if age == 0 { FxColor::White } else { FxColor::Cyan };
    arc_walk(shown, 0, seed, arc_jitter(vp), color, area, vp)
}

fn jittered_exec(v: i64, s: u32, j: i64, lo: i64, hi: i64) -> (r: i64)
    requires
        lo <= hi,
        -0x10000 <= v <= 0x10000,
        0 <= j <= 2,
    ensures
        r == jittered(v as int, s, j as int, lo as int, hi as int),
{
    if s % 3 == 0 {
        let w = if s % 2 == 0 {
            v + j
        } else {
            v - j
        };
        if w < lo {
            lo
        } else if w > hi {
            hi
        } else {
            w
        }
    } else {
        v
    }
}

fn arc_exec(
    out: &mut Vec<Stroke>,
    from: Vec2i,
    to: Vec2i,
    segments_max: u8,
    age: u8,
    seed: u32,
    lod: FxLod,
    area: Rect,
    vp: MapViewport,
)
    requires
        area_fits(area, vp),
    ensures
        final(out)@ == old(out)@ + arc_strokes(from, to, segments_max, age, seed, lod, area, vp),
{
    let mut pts = line_points_exec(from, to);
    let m: usize = match lod {
        FxLod::Low => if segments_max <= 6 {
            segments_max as usize
        } else {
            6
        },
        FxLod::Medium => if segments_max <= 10 {
            segments_max as usize
        } else {
            10
        },
        FxLod::High => segments_max as usize,
    };
    if pts.len() > m {
        pts.truncate(m);
    }
    let ghost shown = pts@;
    let color = if age == 0 {
        FxColor::White
    } else {
        FxColor::Cyan
    };
    let tile: i64 = if vp.tile_w <= vp.tile_h {
        vp.tile_w as i64
    } else {
        vp.tile_h as i64
    };
    let j: i64 = if tile / 6 < 1 {
        1
    } else if tile / 6 > 2 {
        2
    } else {
        tile / 6
    };
    let ghost total = old(out)@ + arc_strokes(from, to, segments_max, age, seed, lod, area, vp);
    let mut s = seed;
    let mut k: usize = 0;
    proof {
        assert(shown == (if line_points(from, to).len() > arc_segments(segments_max, lod) {
            line_points(from, to).take(arc_segments(segments_max, lod))
        } else {
            line_points(from, to)
        }));
    }
    while k < pts.len()
        invariant
            pts@ == shown,
            k <= pts@.len(),
            area_fits(area, vp),
            j as int == arc_jitter(vp),
            total == out@ + arc_walk(shown, k as int, s, j as int, color, area, vp),
        decreases pts.len() - k,
    {
        if k + 1 < pts.len() {
            proof {
                lemma_fits(pts@[k as int], area, vp);
                lemma_fits(pts@[k + 1], area, vp);
            }
            let a = map_to_screen(pts[k], area, vp);
            let b = map_to_screen(pts[k + 1], area, vp);
            match (a, b) {
                (Some(a), Some(b)) => {
                    let s1 = xorshift32(s);
                    let s2 = xorshift32(s1);
                    let x0 = jittered_exec(
                        a.0 as i64,
                        s1,
                        j,
                        area.x as i64,
                        area.x as i64 + area.width as i64 - 1,
                    );
                    let y1 = jittered_exec(
                        b.1 as i64,
                        s2,
                        j,
                        area.y as i64,
                        area.y as i64 + area.height as i64 - 1,
                    );
                    screen_line_exec(out, (x0 as u16, a.1), (b.0, y1 as u16), color, FxWeight::Bold, area);
                    s = s2;
                },
                _ => {},
            }
        }
        k = k + 1;
    }
    proof {
        assert(arc_walk(shown, k as int, s, j as int, color, area, vp) == Seq::<Stroke>::empty());
        assert(out@ =~= total);
    }
}

// ---------------------------------------------------------------------------
// A dying enemy

/// The chance, in 100, that a piece of a dying sprite is still drawn at
/// `age`: all at first, then 60, 30 and 10.
pub open spec fn survive_percent(age: u8) -> u32 {
    if age == 0 {
        100
    } else if age == 1 {
        60
    } else if age == 2 {
        30
    } else {
        10
    }
}

/// The glyph a piece of a dying sprite turns into at `age` for draw `r`,
/// `None` where it is blank.
pub open spec fn death_glyph(age: u8, r: u32) -> Option<&'static str> {
    if age == 0 {
        if r % 2 == 0 {
            Some("▓")
        } else {
            Some("▒")
        }
    } else if age == 1 {
        if r % 3 == 0 {
            Some("▒")
        } else if r % 3 == 1 {
            Some("░")
        } else {
            Some("·")
        }
    } else if age == 2 {
        if r % 3 == 0 {
            Some("░")
        } else if r % 3 == 1 {
            Some("·")
        } else {
            None
        }
    } else if r % 3 == 0 {
        Some("·")
    } else {
        None
    }
}

/// Where the dying sprite is drawn: its tile's corner, the tile's size,
/// the sprite's size and the area.
pub struct DeathFrame {
    pub tx: int,
    pub ty: int,
    pub tw: int,
    pub th: int,
    pub side: int,
}

/// The pieces of row `sy` of a dying sprite from character `sx` up to `n`,
/// and the generator after them. A blank character of a fresh corpse is
/// skipped without a draw; every other character draws the next xorshift32
/// value `r`, and shows the glyph it picks when the piece survives and the
/// glyph is not blank, at the spot the character takes in the tile.
pub open spec fn death_row(
    chars: Seq<char>,
    sx: int,
    n: int,
    r: u32,
    age: u8,
    sy: int,
    f: DeathFrame,
    color: FxColor,
    area: Rect,
) -> (Seq<Stroke>, u32)
    decreases n - sx,
{
    if sx >= n || sx < 0 {
        (seq![], r)
    } else if chars[sx] == ' ' && age == 0 {
        death_row(chars, sx + 1, n, r, age, sy, f, color, area)
    } else {
        let r1 = spec_xorshift32(r);
        let rest = death_row(chars, sx + 1, n, r1, age, sy, f, color, area);
        let x = f.tx + (sx * f.tw) / f.side;
        let y = f.ty + (sy * f.th) / f.side;
        let piece = if r1 % 100 < survive_percent(age) && death_glyph(age, r1) is Some && x < area.x
            + area.width && y < area.y + area.height {
            seq![
                Stroke {
                    x: x as u16,
                    y: y as u16,
                    glyph: death_glyph(age, r1)->0,
                    color,
                    weight: FxWeight::Dim,
                    over: false,
                },
            ]
        } else {
            seq![]
        };
        (piece + rest.0, rest.1)
    }
}

/// The pieces of a dying sprite's rows from `sy` up to `h`, each row read
/// up to `w` characters, the generator running on from row to row.
pub open spec fn death_rows(
    rows: Seq<&'static str>,
    sy: int,
    h: int,
    w: int,
    r: u32,
    age: u8,
    f: DeathFrame,
    color: FxColor,
    area: Rect,
) -> Seq<Stroke>
    decreases h - sy,
{
    if sy >= h || sy < 0 {
        seq![]
    } else {
        let row: Seq<char> = if sy < rows.len() {
            rows[sy]@
        } else {
            seq![]
        };
        let n = if w <= row.len() {
            w
        } else {
            row.len() as int
        };
        let (s, r2) = death_row(row, 0, n, r, age, sy, f, color, area);
        s + death_rows(rows, sy + 1, h, w, r2, age, f, color, area)
    }
}

/// A dying enemy of `kind`: its sprite at the zoom level breaking up over
/// the tile of `pos`, fainter with age, the pieces chosen by draws of
/// xorshift32 from `seed`.
pub open spec fn death_strokes(pos: Vec2i, age: u8, seed: u32, kind: EnemyKind, zoom: u16, area: Rect, vp: MapViewport) -> Seq<Stroke> {
    let z = zoom_level(zoom);
    let side = sprite_side(z);
    match spec_map_to_tile_origin(pos, area, vp) {
        None => seq![],
        Some((tx, ty)) => death_rows(
            enemy_rows(kind, z),
            0,
            if side <= vp.tile_h { side } else { vp.tile_h as int },
            if side <= vp.tile_w { side } else { vp.tile_w as int },
            seed,
            age,
            DeathFrame { tx: tx as int, ty: ty as int, tw: vp.tile_w as int, th: vp.tile_h as int, side },
            FxColor::Enemy(kind),
            area,
        ),
    }
}

fn death_glyph_exec(age: u8, r: u32) -> (g: Option<&'static str>)
    ensures
        g == death_glyph(age, r),
{
    if age == 0 {
        if r % 2 == 0 {
            Some("▓")
        } else {
            Some("▒")
        }
    } else if age == 1 {
        if r % 3 == 0 {
            Some("▒")
        } else if r % 3 == 1 {
            Some("░")
        } else {
            Some("·")
        }
    } else if age == 2 {
        if r % 3 == 0 {
            Some("░")
        } else if r % 3 == 1 {
            Some("·")
        } else {
            None
        }
    } else if r % 3 == 0 {
        Some("·")
    } else {
        None
    }
}

fn death_exec(
    out: &mut Vec<Stroke>,
    pos: Vec2i,
    age: u8,
    seed: u32,
    kind: EnemyKind,
    zoom: u16,
    area: Rect,
    vp: MapViewport,
)
    requires
        area_fits(area, vp),
    ensures
        final(out)@ == old(out)@ + death_strokes(pos, age, seed, kind, zoom, area, vp),
{
    proof {
        lemma_fits(pos, area, vp);
    }
    let sprite = enemy_sprite(kind, zoom);
    let Some((tx, ty)) = map_to_tile_origin(pos, area, vp) else {
        return;
    };
    let ghost z = zoom_level(zoom);
    let ghost side = sprite_side(z);
    let ghost rows = enemy_rows(kind, z);
    let ghost f = DeathFrame { tx: tx as int, ty: ty as int, tw: vp.tile_w as int, th: vp.tile_h as int, side };
    let color = FxColor::Enemy(kind);
    let h: usize = if sprite.h <= vp.tile_h {
        sprite.h as usize
    } else {
        vp.tile_h as usize
    };
    let w: usize = if sprite.w <= vp.tile_w {
        sprite.w as usize
    } else {
        vp.tile_w as usize
    };
    let ghost total = old(out)@ + death_strokes(pos, age, seed, kind, zoom, area, vp);
    let mut r = seed;
    let mut sy: usize = 0;
    while sy < h
        invariant
            sy <= h,
            h <= 0x7fff,
            w <= 0x7fff,
            1 <= side <= 16,
            sprite.w == side,
            sprite.h == side,
            sprite.rows@ == rows,
            f == (DeathFrame { tx: tx as int, ty: ty as int, tw: vp.tile_w as int, th: vp.tile_h as int, side }),
            h == (if side <= vp.tile_h { side } else { vp.tile_h as int }),
            w == (if side <= vp.tile_w { side } else { vp.tile_w as int }),
            area_fits(area, vp),
            in_area(area, tx as int, ty as int),
            total == out@ + death_rows(rows, sy as int, h as int, w as int, r, age, f, color, area),
        decreases h - sy,
    {
        let row = sprite.row(sy);
        let ghost rowv: Seq<char> = if sy < rows.len() {
            rows[sy as int]@
        } else {
            seq![]
        };
        proof {
            reveal_strlit("");
            assert(row@ == rowv);
        }
        let ghost n: int = if w <= rowv.len() {
            w as int
        } else {
            rowv.len() as int
        };
        let ghost r_start = r;
        let ghost row_total = death_row(rowv, 0, n, r_start, age, sy as int, f, color, area);
        let ghost start = out@;
        let mut k: usize = 0;
        broadcast use vstd::string::axiom_spec_iter;
        for ch in it: row.chars()
            invariant
                it.seq() == rowv,
                k == if it.index() <= w { it.index() } else { w as int },
                w <= 0x7fff,
                h <= 0x7fff,
                sy < h,
                1 <= side <= 16,
                sprite.w == side,
                sprite.h == side,
                n == (if w <= rowv.len() { w as int } else { rowv.len() as int }),
                f == (DeathFrame { tx: tx as int, ty: ty as int, tw: vp.tile_w as int, th: vp.tile_h as int, side }),
                area_fits(area, vp),
                in_area(area, tx as int, ty as int),
                row_total == (
                    out@.subrange(start.len() as int, out@.len() as int) + death_row(rowv, k as int, n, r, age, sy as int, f, color, area).0,
                    death_row(rowv, k as int, n, r, age, sy as int, f, color, area).1,
                ),
                out@.subrange(0, start.len() as int) == start,
                start.len() <= out@.len(),
        {
            if k < w {
                let ghost before = out@;
                if !(ch == ' ' && age == 0) {
                    r = xorshift32(r);
                    assert(k * vp.tile_w <= 0x7fff * 0x7fff) by (nonlinear_arith)
                        requires
                            k <= 0x7fff,
                            vp.tile_w <= 0x7fff,
                    ;
                    assert(sy * vp.tile_h <= 0x7fff * 0x7fff) by (nonlinear_arith)
                        requires
                            sy <= 0x7fff,
                            vp.tile_h <= 0x7fff,
                    ;
                    let x: u64 = tx as u64 + (k as u64 * vp.tile_w as u64) / sprite.w as u64;
                    let y: u64 = ty as u64 + (sy as u64 * vp.tile_h as u64) / sprite.h as u64;
                    if r % 100 < survive_percent_exec(age) {
                        if let Some(g) = death_glyph_exec(age, r) {
                            if x < area.x as u64 + area.width as u64 && y < area.y as u64 + area.height as u64 {
                                out.push(
                                    Stroke { x: x as u16, y: y as u16, glyph: g, color, weight: FxWeight::Dim, over: false },
                                );
                            }
                        }
                    }
                }
                proof {
                    assert(out@.subrange(0, start.len() as int) =~= start) by {
                        assert(before.subrange(0, start.len() as int) =~= start);
                    }
                    assert(out@.subrange(start.len() as int, out@.len() as int) =~= before.subrange(
                        start.len() as int,
                        before.len() as int,
                    ) + out@.subrange(before.len() as int, out@.len() as int));
                }
                k = k + 1;
            }
        }
        proof {
            assert(death_row(rowv, k as int, n, r, age, sy as int, f, color, area).0 =~= Seq::<Stroke>::empty());
            assert(out@ =~= start + row_total.0);
        }
        sy = sy + 1;
    }
    proof {
        assert(out@ =~= total);
    }
}

fn survive_percent_exec(age: u8) -> (p: u32)
    ensures
        p == survive_percent(age),
{
    if age == 0 {
        100
    } else if age == 1 {
        60
    } else if age == 2 {
        30
    } else {
        10
    }
}

// ---------------------------------------------------------------------------
// Tracers

/// The screen spot of the first point among the first `n` that is on
/// screen.
pub open spec fn first_shown(pts: Seq<Vec2i>, n: int, area: Rect, vp: MapViewport) -> Option<(u16, u16)>
    decreases n,
{
    if n <= 0 || n > pts.len() {
        None
    } else {
        match first_shown(pts, n - 1, area, vp) {
            Some(s) => Some(s),
            None => spec_map_to_screen(pts[n - 1], area, vp),
        }
    }
}

/// The screen spot of the last point among the first `n` that is on
/// screen.
pub open spec fn last_shown(pts: Seq<Vec2i>, n: int, area: Rect, vp: MapViewport) -> Option<(u16, u16)>
    decreases n,
{
    if n <= 0 || n > pts.len() {
        None
    } else {
        match spec_map_to_screen(pts[n - 1], area, vp) {
            Some(s) => Some(s),
            None => last_shown(pts, n - 1, area, vp),
        }
    }
}

/// A line between two screen spots, or a single glyph where they meet.
pub open spec fn spot_line(a: (u16, u16), b: (u16, u16), glyph: &'static str, color: FxColor, area: Rect) -> Seq<Stroke> {
    if a != b {
        screen_line(a, b, color, FxWeight::Bold, area)
    } else {
        seq![stroke(a.0 as int, a.1 as int, glyph, color, FxWeight::Bold)]
    }
}

/// A tracer from `from` to `to`: a line between their screen spots when
/// both ends are on screen; else a line between the first and the last
/// points of the way that are on screen (a single glyph, of the tracer's
/// direction, where those meet).
pub open spec fn tracer_strokes(from: Vec2i, to: Vec2i, color: FxColor, area: Rect, vp: MapViewport) -> Seq<Stroke> {
    let g = spec_line_glyph(from, to);
    match (spec_map_to_screen(from, area, vp), spec_map_to_screen(to, area, vp)) {
        (Some(a), Some(b)) => spot_line(a, b, g, color, area),
        _ => {
            let pts = line_points(from, to);
            match (first_shown(pts, pts.len() as int, area, vp), last_shown(pts, pts.len() as int, area, vp)) {
                (Some(a), Some(b)) => spot_line(a, b, g, color, area),
                (Some(a), None) => seq![stroke(a.0 as int, a.1 as int, g, color, FxWeight::Bold)],
                _ => seq![],
            }
        },
    }
}

fn spot_line_exec(out: &mut Vec<Stroke>, a: (u16, u16), b: (u16, u16), glyph: &'static str, color: FxColor, area: Rect)
    requires
        area.x + area.width <= 0xffff,
        area.y + area.height <= 0xffff,
    ensures
        final(out)@ == old(out)@ + spot_line(a, b, glyph, color, area),
{
    if a.0 != b.0 || a.1 != b.1 {
        screen_line_exec(out, a, b, color, FxWeight::Bold, area);
    } else {
        out.push(Stroke { x: a.0, y: a.1, glyph, color, weight: FxWeight::Bold, over: true });
        proof {
            assert(final(out)@ =~= old(out)@ + spot_line(a, b, glyph, color, area));
        }
    }
}

fn tracer_exec(out: &mut Vec<Stroke>, from: Vec2i, to: Vec2i, color: FxColor, area: Rect, vp: MapViewport)
    requires
        area_fits(area, vp),
        -8000 <= to.x - from.x <= 8000,
        -8000 <= to.y - from.y <= 8000,
    ensures
        final(out)@ == old(out)@ + tracer_strokes(from, to, color, area, vp),
{
    proof {
        lemma_fits(from, area, vp);
        lemma_fits(to, area, vp);
    }
    let g = crate::view::line_glyph(from, to);
    match (map_to_screen(from, area, vp), map_to_screen(to, area, vp)) {
        (Some(a), Some(b)) => {
            spot_line_exec(out, a, b, g, color, area);
        },
        _ => {
            let pts = line_points_exec(from, to);
            let mut first: Option<(u16, u16)> = None;
            let mut last: Option<(u16, u16)> = None;
            let mut i: usize = 0;
            while i < pts.len()
                invariant
                    i <= pts@.len(),
                    area_fits(area, vp),
                    first == first_shown(pts@, i as int, area, vp),
                    last == last_shown(pts@, i as int, area, vp),
                decreases pts.len() - i,
            {
                proof {
                    lemma_fits(pts@[i as int], area, vp);
                }
                if let Some(s) = map_to_screen(pts[i], area, vp) {
                    if first.is_none() {
                        first = Some(s);
                    }
                    last = Some(s);
                }
                i = i + 1;
            }
            match (first, last) {
                (Some(a), Some(b)) => spot_line_exec(out, a, b, g, color, area),
                (Some(a), None) => {
                    out.push(Stroke { x: a.0, y: a.1, glyph: g, color, weight: FxWeight::Bold, over: true });
                },
                _ => {},
            }
            proof {
                assert(final(out)@ =~= old(out)@ + tracer_strokes(from, to, color, area, vp));
            }
        },
    }
}

// ---------------------------------------------------------------------------
// Whole effects

/// The four cells `r` away from `pos` along the axes, each a bold glyph.
pub open spec fn cardinals(pos: Vec2i, r: int, glyph: &'static str, color: FxColor, area: Rect, vp: MapViewport) -> Seq<Stroke> {
    plain_cell(Vec2i { x: (pos.x + r) as i16, y: pos.y }, glyph, color, FxWeight::Bold, area, vp)
        + plain_cell(Vec2i { x: (pos.x - r) as i16, y: pos.y }, glyph, color, FxWeight::Bold, area, vp)
        + plain_cell(Vec2i { x: pos.x, y: (pos.y + r) as i16 }, glyph, color, FxWeight::Bold, area, vp)
        + plain_cell(Vec2i { x: pos.x, y: (pos.y - r) as i16 }, glyph, color, FxWeight::Bold, area, vp)
}

/// The first `n` cells of a dust cloud, each a dim glyph.
pub open spec fn dust_strokes(cells: Seq<Vec2i>, n: int, glyph: &'static str, area: Rect, vp: MapViewport) -> Seq<Stroke>
    decreases n,
{
    if n <= 0 {
        seq![]
    } else {
        dust_strokes(cells, n - 1, glyph, area, vp) + plain_cell(cells[n - 1], glyph, FxColor::DarkGray, FxWeight::Dim, area, vp)
    }
}

/// A projectile at `p` heading `dir`: its head with a halo and, above the
/// lowest detail, its trail one cell back (and two for rapid fire) and, for
/// a cannon ball, a shade at its side.
pub open spec fn projectile_strokes(
    p: Vec2i,
    kind: TowerKind,
    dir: Vec2i,
    head: &'static str,
    trail: &'static str,
    lod: FxLod,
    area: Rect,
    vp: MapViewport,
) -> Seq<Stroke> {
    let c = FxColor::Tower(kind);
    lit_cell(p, head, c, FxWeight::Bold, area, vp) + if lod == FxLod::Low {
        seq![]
    } else {
        plain_cell(Vec2i { x: (p.x - dir.x) as i16, y: (p.y - dir.y) as i16 }, trail, c, FxWeight::Dim, area, vp)
            + (if kind == TowerKind::Rapid {
            plain_cell(
                Vec2i { x: (p.x - 2 * dir.x) as i16, y: (p.y - 2 * dir.y) as i16 },
                trail,
                c,
                FxWeight::Dim,
                area,
                vp,
            )
        } else {
            seq![]
        }) + (if kind == TowerKind::Cannon {
            plain_cell(Vec2i { x: (p.x - dir.y) as i16, y: (p.y + dir.x) as i16 }, "▓", c, FxWeight::Dim, area, vp)
        } else {
            seq![]
        })
    }
}

/// An impact ring at `p`: a block when new, then a cross of four glyphs
/// reaching out one cell (up to `max_radius`, at most 2, at the highest
/// detail), then a shade.
pub open spec fn ring_strokes(p: Vec2i, age: u8, max_radius: u8, lod: FxLod, area: Rect, vp: MapViewport) -> Seq<Stroke> {
    if age == 0 {
        lit_cell(p, "█", FxColor::LightRed, FxWeight::Bold, area, vp)
    } else if age == 1 {
        let r = if lod == FxLod::High {
            if max_radius <= 2 {
                max_radius as int
            } else {
                2
            }
        } else {
            1
        };
        cardinals(p, r, "┼", FxColor::LightRed, area, vp)
    } else {
        lit_cell(p, "▒", FxColor::LightRed, FxWeight::Dim, area, vp)
    }
}

/// The frost overlay on enemy `target`, while it lives and is slowed: a
/// dim glyph, blinking with age, on its path cell (the origin when off
/// the path).
pub open spec fn overlay_strokes(target: usize, age: u8, area: Rect, vp: MapViewport, enemies: Seq<Enemy>, path: Seq<(u16, u16)>) -> Seq<Stroke> {
    if target < enemies.len() {
        let en = enemies[target as int];
        if en.hp <= 0 || en.slow_ticks == 0 {
            seq![]
        } else {
            let c = if en.path_i < path.len() {
                path[en.path_i as int]
            } else {
                (0u16, 0u16)
            };
            lit_cell(
                Vec2i { x: c.0 as i16, y: c.1 as i16 },
                if age % 2 == 0 { "▓" } else { "▒" },
                FxColor::Blue,
                FxWeight::Dim,
                area,
                vp,
            )
        }
    } else {
        seq![]
    }
}

fn projectile_exec(
    out: &mut Vec<Stroke>,
    p: Vec2i,
    kind: TowerKind,
    dir: Vec2i,
    head: &'static str,
    trail: &'static str,
    lod: FxLod,
    area: Rect,
    vp: MapViewport,
)
    requires
        area_fits(area, vp),
        -1 <= dir.x <= 1,
        -1 <= dir.y <= 1,
        -32000 <= p.x <= 32000,
        -32000 <= p.y <= 32000,
    ensures
        final(out)@ == old(out)@ + projectile_strokes(p, kind, dir, head, trail, lod, area, vp),
{
    let c = FxColor::Tower(kind);
    lit_cell_exec(out, p, head, c, FxWeight::Bold, area, vp);
    if lod != FxLod::Low {
        plain_cell_exec(out, Vec2i { x: p.x - dir.x, y: p.y - dir.y }, trail, c, FxWeight::Dim, area, vp);
        if kind == TowerKind::Rapid {
            plain_cell_exec(out, Vec2i { x: p.x - 2 * dir.x, y: p.y - 2 * dir.y }, trail, c, FxWeight::Dim, area, vp);
        }
        if kind == TowerKind::Cannon {
            plain_cell_exec(out, Vec2i { x: p.x - dir.y, y: p.y + dir.x }, "▓", c, FxWeight::Dim, area, vp);
        }
    }
    proof {
        assert(final(out)@ =~= old(out)@ + projectile_strokes(p, kind, dir, head, trail, lod, area, vp));
    }
}

fn ring_exec(out: &mut Vec<Stroke>, p: Vec2i, age: u8, max_radius: u8, lod: FxLod, area: Rect, vp: MapViewport)
    requires
        area_fits(area, vp),
        -32000 <= p.x <= 32000,
        -32000 <= p.y <= 32000,
    ensures
        final(out)@ == old(out)@ + ring_strokes(p, age, max_radius, lod, area, vp),
{
    if age == 0 {
        lit_cell_exec(out, p, "█", FxColor::LightRed, FxWeight::Bold, area, vp);
    } else if age == 1 {
        let r: i16 = if lod == FxLod::High {
            if max_radius <= 2 {
                max_radius as i16
            } else {
                2
            }
        } else {
            1
        };
        plain_cell_exec(out, Vec2i { x: p.x + r, y: p.y }, "┼", FxColor::LightRed, FxWeight::Bold, area, vp);
        plain_cell_exec(out, Vec2i { x: p.x - r, y: p.y }, "┼", FxColor::LightRed, FxWeight::Bold, area, vp);
        plain_cell_exec(out, Vec2i { x: p.x, y: p.y + r }, "┼", FxColor::LightRed, FxWeight::Bold, area, vp);
        plain_cell_exec(out, Vec2i { x: p.x, y: p.y - r }, "┼", FxColor::LightRed, FxWeight::Bold, area, vp);
        proof {
            assert(final(out)@ =~= old(out)@ + ring_strokes(p, age, max_radius, lod, area, vp));
        }
    } else {
        lit_cell_exec(out, p, "▒", FxColor::LightRed, FxWeight::Dim, area, vp);
    }
}

fn overlay_exec(
    out: &mut Vec<Stroke>,
    target: usize,
    age: u8,
    area: Rect,
    vp: MapViewport,
    enemies: &Vec<Enemy>,
    path: &Vec<(u16, u16)>,
)
    requires
        area_fits(area, vp),
    ensures
        final(out)@ == old(out)@ + overlay_strokes(target, age, area, vp, enemies@, path@),
{
    if target < enemies.len() {
        let en = enemies[target];
        if en.hp > 0 && en.slow_ticks != 0 {
            let c = if en.path_i < path.len() {
                path[en.path_i]
            } else {
                (0u16, 0u16)
            };
            let g = if age % 2 == 0 {
                "▓"
            } else {
                "▒"
            };
            lit_cell_exec(out, Vec2i { x: c.0 as i16, y: c.1 as i16 }, g, FxColor::Blue, FxWeight::Dim, area, vp);
            return;
        }
    }
    proof {
        assert(final(out)@ =~= old(out)@ + overlay_strokes(target, age, area, vp, enemies@, path@));
    }
}

fn dust_exec(out: &mut Vec<Stroke>, count: u8, cells: [Vec2i; 6], g: &'static str, area: Rect, vp: MapViewport)
    requires
        area_fits(area, vp),
        count <= 6,
    ensures
        final(out)@ == old(out)@ + dust_strokes(cells@, count as int, g, area, vp),
{
    let ghost start = old(out)@;
    let mut i: usize = 0;
    while i < count as usize
        invariant
            count <= 6,
            cells@.len() == 6,
            i <= count,
            area_fits(area, vp),
            out@ == start + dust_strokes(cells@, i as int, g, area, vp),
        decreases count - i,
    {
        plain_cell_exec(out, cells[i], g, FxColor::DarkGray, FxWeight::Dim, area, vp);
        proof {
            assert(out@ =~= start + dust_strokes(cells@, i + 1, g, area, vp));
        }
        i = i + 1;
    }
}

/// The effect's positions stay well inside `i16` where it reaches around
/// them: a projectile's and a ring's position, a projectile's heading of at
/// most one cell, a dust cloud of at most six cells, and a tracer or an arc
/// of at most 8000 cells either way.
pub open spec fn entity_fits(e: FxEntity) -> bool {
    match e.data {
        FxData::Projectile { dir, .. } => -1 <= dir.x <= 1 && -1 <= dir.y <= 1 && -32000 <= e.pos.x <= 32000
            && -32000 <= e.pos.y <= 32000,
        FxData::ImpactRing { .. } => -32000 <= e.pos.x <= 32000 && -32000 <= e.pos.y <= 32000,
        FxData::Dust { count, .. } => count <= 6,
        FxData::TracerLine { from, to, .. } => -8000 <= to.x - from.x <= 8000 && -8000 <= to.y - from.y <= 8000,
        FxData::ArcLightning { from, to, .. } => -8000 <= to.x - from.x <= 8000 && -8000 <= to.y - from.y <= 8000,
        _ => true,
    }
}

/// What effect `e` paints, in order: a muzzle flash's glyph (its faded
/// glyph once old) with a halo; a tracer's line; a projectile's head with
/// a halo and, above the lowest detail, its trail (two cells for rapid
/// fire) and a cannon ball's side; an impact's cross; a ring that is a
/// block, then a cross of four glyphs reaching out by the detail, then a
/// shade; dust's cells; a lightning arc; a target flash; a shatter; a
/// frost overlay on a live, slowed enemy's cell; a hit flash; a dying
/// enemy's breaking sprite. An effect whose data does not fit its kind
/// paints nothing.
pub open spec fn entity_strokes(
    e: FxEntity,
    lod: FxLod,
    zoom: u16,
    area: Rect,
    vp: MapViewport,
    enemies: Seq<Enemy>,
    path: Seq<(u16, u16)>,
) -> Seq<Stroke> {
    let p = e.pos;
    match e.kind {
        FxKind::MuzzleFlash => match e.data {
            FxData::Muzzle { kind, .. } => {
                let m = spec_muzzle_profile(kind);
                let g = if e.age == 0 || m.glyph_fade is None {
                    m.glyph_main
                } else {
                    m.glyph_fade->0
                };
                lit_cell(p, g, FxColor::Tower(kind), FxWeight::Bold, area, vp)
            },
            _ => seq![],
        },
        FxKind::TracerLine => match e.data {
            FxData::TracerLine { kind, from, to } => tracer_strokes(from, to, FxColor::Tower(kind), area, vp),
            _ => seq![],
        },
        FxKind::Projectile => match e.data {
            FxData::Projectile { kind, dir, glyph_head, glyph_trail } => projectile_strokes(
                p,
                kind,
                dir,
                glyph_head,
                glyph_trail,
                lod,
                area,
                vp,
            ),
            _ => seq![],
        },
        FxKind::ImpactCross => match e.data {
            FxData::ImpactCross { kind } => lit_cell(
                p,
                if e.age == 0 { "┼" } else { "▒" },
                FxColor::Tower(kind),
                FxWeight::Bold,
                area,
                vp,
            ),
            _ => seq![],
        },
        FxKind::ImpactRing => match e.data {
            FxData::ImpactRing { max_radius } => ring_strokes(p, e.age, max_radius, lod, area, vp),
            _ => seq![],
        },
        FxKind::Dust => match e.data {
            FxData::Dust { count, cells } => dust_strokes(
                cells@,
                count as int,
                if e.age == 0 { "▒" } else { "░" },
                area,
                vp,
            ),
            _ => seq![],
        },
        FxKind::ArcLightning => match e.data {
            FxData::ArcLightning { from, to, segments_max } => arc_strokes(
                from,
                to,
                segments_max,
                e.age,
                e.seed,
                lod,
                area,
                vp,
            ),
            _ => seq![],
        },
        FxKind::TargetFlash => lit_cell(p, "▓", FxColor::Cyan, FxWeight::Bold, area, vp),
        FxKind::Shatter => lit_cell(p, if e.age == 0 { "╳" } else { "░" }, FxColor::Blue, FxWeight::Bold, area, vp),
        FxKind::StatusOverlay => match e.data {
            FxData::StatusOverlay { target, .. } => overlay_strokes(target, e.age, area, vp, enemies, path),
            _ => seq![],
        },
        FxKind::HitFlash => match e.data {
            FxData::HitFlash { kind } => if e.age == 0 {
                lit_cell(p, "▓", FxColor::Enemy(kind), FxWeight::Bold, area, vp)
            } else {
                lit_cell(p, "░", FxColor::Enemy(kind), FxWeight::Dim, area, vp)
            },
            _ => seq![],
        },
        FxKind::EnemyDeath => match e.data {
            FxData::EnemyDeath { kind } => death_strokes(p, e.age, e.seed, kind, zoom, area, vp),
            _ => seq![],
        },
    }
}

/// What effect `e` paints (see `entity_strokes`), added to `out`.
pub fn plan_entity(
    out: &mut Vec<Stroke>,
    e: &FxEntity,
    lod: FxLod,
    zoom: u16,
    area: Rect,
    vp: MapViewport,
    enemies: &Vec<Enemy>,
    path: &Vec<(u16, u16)>,
)
    requires
        area_fits(area, vp),
        entity_fits(*e),
    ensures
        final(out)@ == old(out)@ + entity_strokes(*e, lod, zoom, area, vp, enemies@, path@),
{
    let p = e.pos;
    let ghost total = old(out)@ + entity_strokes(*e, lod, zoom, area, vp, enemies@, path@);
    match e.kind {
        FxKind::MuzzleFlash => {
            if let FxData::Muzzle { kind, .. } = e.data {
                let m = muzzle_profile(kind);
                let g = match m.glyph_fade {
                    Some(fade) if e.age != 0 => fade,
                    _ => m.glyph_main,
                };
                lit_cell_exec(out, p, g, FxColor::Tower(kind), FxWeight::Bold, area, vp);
            }
        },
        FxKind::TracerLine => {
            if let FxData::TracerLine { kind, from, to } = e.data {
                tracer_exec(out, from, to, FxColor::Tower(kind), area, vp);
            }
        },
        FxKind::Projectile => {
            if let FxData::Projectile { kind, dir, glyph_head, glyph_trail } = e.data {
                projectile_exec(out, p, kind, dir, glyph_head, glyph_trail, lod, area, vp);
            }
        },
        FxKind::ImpactCross => {
            if let FxData::ImpactCross { kind } = e.data {
                let g = if e.age == 0 {
                    "┼"
                } else {
                    "▒"
                };
                lit_cell_exec(out, p, g, FxColor::Tower(kind), FxWeight::Bold, area, vp);
            }
        },
        FxKind::ImpactRing => {
            if let FxData::ImpactRing { max_radius } = e.data {
                ring_exec(out, p, e.age, max_radius, lod, area, vp);
            }
        },
        FxKind::Dust => {
            if let FxData::Dust { count, cells } = e.data {
                let g = if e.age == 0 {
                    "▒"
                } else {
                    "░"
                };
                dust_exec(out, count, cells, g, area, vp);
            }
        },
        FxKind::ArcLightning => {
            if let FxData::ArcLightning { from, to, segments_max } = e.data {
                arc_exec(out, from, to, segments_max, e.age, e.seed, lod, area, vp);
            }
        },
        FxKind::TargetFlash => {
            lit_cell_exec(out, p, "▓", FxColor::Cyan, FxWeight::Bold, area, vp);
        },
        FxKind::Shatter => {
            let g = if e.age == 0 {
                "╳"
            } else {
                "░"
            };
            lit_cell_exec(out, p, g, FxColor::Blue, FxWeight::Bold, area, vp);
        },
        FxKind::StatusOverlay => {
            if let FxData::StatusOverlay { target, .. } = e.data {
                overlay_exec(out, target, e.age, area, vp, enemies, path);
            }
        },
        FxKind::HitFlash => {
            if let FxData::HitFlash { kind } = e.data {
                if e.age == 0 {
                    lit_cell_exec(out, p, "▓", FxColor::Enemy(kind), FxWeight::Bold, area, vp);
                } else {
                    lit_cell_exec(out, p, "░", FxColor::Enemy(kind), FxWeight::Dim, area, vp);
                }
            }
        },
        FxKind::EnemyDeath => {
            if let FxData::EnemyDeath { kind } = e.data {
                death_exec(out, p, e.age, e.seed, kind, zoom, area, vp);
            }
        },
    }
    proof {
        assert(out@ =~= total);
    }
}

// ---------------------------------------------------------------------------
// A frame

/// What drawing a frame needs besides the effects.
pub struct FrameCtx {
    pub lod: FxLod,
    pub zoom: u16,
    pub area: Rect,
    pub vp: MapViewport,
    pub enemies: Seq<Enemy>,
    pub path: Seq<(u16, u16)>,
}

/// A frame being drawn: the strokes so far, the budget left, the effects
/// skipped for want of budget, and the strokes drawn.
pub struct FrameState {
    pub strokes: Seq<Stroke>,
    pub left: int,
    pub culled: nat,
}

/// Drawing one more effect: skipped when the budget is spent, else its
/// strokes as far as the budget goes.
pub open spec fn frame_step(st: FrameState, e: FxEntity, c: FrameCtx) -> FrameState {
    if st.left <= 0 {
        FrameState { culled: st.culled + 1, ..st }
    } else {
        let es = entity_strokes(e, c.lod, c.zoom, c.area, c.vp, c.enemies, c.path);
        let n = if es.len() <= st.left {
            es.len() as int
        } else {
            st.left
        };
        FrameState { strokes: st.strokes + es.take(n), left: st.left - n, culled: st.culled }
    }
}

/// Drawing the effects of priority `p` among the first `n` slots, in slot
/// order.
pub open spec fn frame_slots(slots: Seq<Option<FxEntity>>, p: int, n: int, st: FrameState, c: FrameCtx) -> FrameState
    decreases n,
{
    if n <= 0 {
        st
    } else {
        let prev = frame_slots(slots, p, n - 1, st, c);
        match slots[n - 1] {
            Some(e) => if e.priority == p {
                frame_step(prev, e, c)
            } else {
                prev
            },
            None => prev,
        }
    }
}

/// Drawing the effects of priority `p` down to 0, highest first.
pub open spec fn frame_from(slots: Seq<Option<FxEntity>>, p: int, st: FrameState, c: FrameCtx) -> FrameState
    decreases p + 1,
{
    if p < 0 {
        st
    } else {
        frame_from(slots, p - 1, frame_slots(slots, p, slots.len() as int, st, c), c)
    }
}

/// Every live effect can be drawn: its priority is at most 100 and its
/// positions fit (see `entity_fits`).
pub open spec fn all_drawable(slots: Seq<Option<FxEntity>>) -> bool {
    forall|i: int|
        0 <= i < slots.len() && #[trigger] slots[i] is Some ==> slots[i]->0.priority <= 100 && entity_fits(
            slots[i]->0,
        )
}

/// Whether the effect's positions fit (see `entity_fits`).
pub fn entity_fits_exec(e: &FxEntity) -> (b: bool)
    ensures
        b == entity_fits(*e),
{
    match e.data {
        FxData::Projectile { dir, .. } => -1 <= dir.x && dir.x <= 1 && -1 <= dir.y && dir.y <= 1 && -32000
            <= e.pos.x && e.pos.x <= 32000 && -32000 <= e.pos.y && e.pos.y <= 32000,
        FxData::ImpactRing { .. } => -32000 <= e.pos.x && e.pos.x <= 32000 && -32000 <= e.pos.y && e.pos.y
            <= 32000,
        FxData::Dust { count, .. } => count <= 6,
        FxData::TracerLine { from, to, .. } => {
            let dx = to.x as i32 - from.x as i32;
            let dy = to.y as i32 - from.y as i32;
            -8000 <= dx && dx <= 8000 && -8000 <= dy && dy <= 8000
        },
        FxData::ArcLightning { from, to, .. } => {
            let dx = to.x as i32 - from.x as i32;
            let dy = to.y as i32 - from.y as i32;
            -8000 <= dx && dx <= 8000 && -8000 <= dy && dy <= 8000
        },
        _ => true,
    }
}

proof fn lemma_frame_slots_budget(slots: Seq<Option<FxEntity>>, p: int, n: int, st: FrameState, c: FrameCtx)
    requires
        st.left >= 0,
    ensures
        frame_slots(slots, p, n, st, c).left >= 0,
        frame_slots(slots, p, n, st, c).strokes.len() + frame_slots(slots, p, n, st, c).left == st.strokes.len()
            + st.left,
        frame_slots(slots, p, n, st, c).left <= st.left,
        frame_slots(slots, p, n, st, c).culled >= st.culled,
        frame_slots(slots, p, n, st, c).culled > st.culled ==> frame_slots(slots, p, n, st, c).left == 0,
    decreases n,
{
    if n > 0 {
        lemma_frame_slots_budget(slots, p, n - 1, st, c);
    }
}

/// A frame never paints more strokes than its budget: whatever the
/// effects, the strokes painted and the budget left add up to the budget
/// it started with, and the budget left is never below zero. An effect is
/// culled only once the budget is spent.
pub proof fn lemma_frame_within_budget(slots: Seq<Option<FxEntity>>, p: int, st: FrameState, c: FrameCtx)
    requires
        st.left >= 0,
    ensures
        frame_from(slots, p, st, c).left >= 0,
        frame_from(slots, p, st, c).strokes.len() + frame_from(slots, p, st, c).left == st.strokes.len()
            + st.left,
        frame_from(slots, p, st, c).left <= st.left,
        frame_from(slots, p, st, c).culled >= st.culled,
        frame_from(slots, p, st, c).culled > st.culled ==> frame_from(slots, p, st, c).left == 0,
    decreases p + 1,
{
    if p >= 0 {
        let next = frame_slots(slots, p, slots.len() as int, st, c);
        lemma_frame_slots_budget(slots, p, slots.len() as int, st, c);
        lemma_frame_within_budget(slots, p - 1, next, c);
    }
}

} // verus!
