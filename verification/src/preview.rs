//! The minimap shown on the map selection screen: the map's grid scaled to
//! fit the preview area, one character per pixel, each pixel showing what
//! the grid cells it covers hold.
use vstd::prelude::*;

verus! {

/// What a minimap pixel shows.
#[derive(Debug, Clone, Copy, PartialEq, Eq, Structural)]
pub enum PreviewPixel {
    /// The path's last cell (the goal) lies under the pixel.
    Goal,
    /// The path's first cell lies under the pixel (and not the goal).
    Start,
    /// Some other path cell lies under the pixel.
    Path,
    /// No path cell lies under the pixel.
    Empty,
}

/// `v`, or 1 when it is 0.
pub open spec fn at_least_one(v: int) -> int {
    if v < 1 {
        1
    } else {
        v
    }
}

/// The size of the minimap in an area of `area_w` by `area_h` for a grid
/// of `grid_w` by `grid_h`: the whole width when the grid's proportions
/// then fit the height, else the whole height; at least one pixel each
/// way, and never more than the area.
pub open spec fn spec_preview_size(area_w: u16, area_h: u16, grid_w: u16, grid_h: u16) -> (u16, u16) {
    let map_w = at_least_one(grid_w as int);
    let map_h = at_least_one(grid_h as int);
    let w0 = at_least_one(area_w as int);
    let h0 = at_least_one(area_h as int);
    let fit_h = at_least_one(w0 * map_h / map_w) as u16;
    let (w1, h1) = if fit_h <= h0 {
        (w0, fit_h as int)
    } else {
        (at_least_one(h0 * map_w / map_h) as u16 as int, h0)
    };
    (
        at_least_one(if w1 <= area_w { w1 } else { area_w as int }) as u16,
        at_least_one(if h1 <= area_h { h1 } else { area_h as int }) as u16,
    )
}

fn at_least_one_u32(v: u32) -> (r: u32)
    ensures
        r == at_least_one(v as int),
{
    if v < 1 {
        1
    } else {
        v
    }
}

/// The minimap's size (see `spec_preview_size`).
pub fn preview_size(area_w: u16, area_h: u16, grid_w: u16, grid_h: u16) -> (r: (u16, u16))
    ensures
        r == spec_preview_size(area_w, area_h, grid_w, grid_h),
        1 <= r.0,
        1 <= r.1,
        area_w >= 1 ==> r.0 <= area_w,
        area_h >= 1 ==> r.1 <= area_h,
{
    let map_w: u32 = at_least_one_u32(grid_w as u32);
    let map_h: u32 = at_least_one_u32(grid_h as u32);
    let w0: u32 = at_least_one_u32(area_w as u32);
    let h0: u32 = at_least_one_u32(area_h as u32);
    assert(w0 * map_h <= 0xffff * 0xffff) by (nonlinear_arith)
        requires
            w0 <= 0xffff,
            map_h <= 0xffff,
    ;
    assert(h0 * map_w <= 0xffff * 0xffff) by (nonlinear_arith)
        requires
            h0 <= 0xffff,
            map_w <= 0xffff,
    ;
    let fit_h: u16 = at_least_one_u32(w0 * map_h / map_w) as u16;
    let mut draw_w: u32 = w0;
    let mut draw_h: u32 = h0;
    if fit_h as u32 <= h0 {
        draw_h = fit_h as u32;
    } else {
        draw_w = at_least_one_u32(h0 * map_w / map_h) as u16 as u32;
    }
    if draw_w > area_w as u32 {
        draw_w = area_w as u32;
    }
    if draw_h > area_h as u32 {
        draw_h = area_h as u32;
    }
    let w = at_least_one_u32(draw_w);
    let h = at_least_one_u32(draw_h);
    (w as u16, h as u16)
}

/// The grid columns (or rows) pixel `s` of `d` covers, for `m` grid cells:
/// from `s * m / d` up to `(s + 1) * m / d` rounded up, so that no pixel
/// covers nothing.
pub open spec fn cover_start(s: int, m: int, d: int) -> int {
    s * m / d
}

pub open spec fn cover_end(s: int, m: int, d: int) -> int {
    let e = ((s + 1) * m + d - 1) / d;
    if e <= m {
        e
    } else {
        m
    }
}

/// Cell `c` lies under pixel `(sx, sy)` of a `dw` by `dh` minimap of a
/// grid of `mw` by `mh`.
pub open spec fn under_pixel(c: (u16, u16), sx: int, sy: int, dw: int, dh: int, mw: int, mh: int) -> bool {
    &&& cover_start(sx, mw, dw) <= c.0 < cover_end(sx, mw, dw)
    &&& cover_start(sy, mh, dh) <= c.1 < cover_end(sy, mh, dh)
}

/// What pixel `(sx, sy)` of a `dw` by `dh` minimap of a `grid_w` by
/// `grid_h` map with `path` shows: the goal first, then the start, then
/// any path cell.
pub open spec fn spec_preview_pixel(
    path: Seq<(u16, u16)>,
    grid_w: u16,
    grid_h: u16,
    sx: u16,
    sy: u16,
    dw: u16,
    dh: u16,
) -> PreviewPixel {
    let mw = at_least_one(grid_w as int);
    let mh = at_least_one(grid_h as int);
    if path.len() > 0 && under_pixel(path.last(), sx as int, sy as int, dw as int, dh as int, mw, mh) {
        PreviewPixel::Goal
    } else if path.len() > 0 && under_pixel(path[0], sx as int, sy as int, dw as int, dh as int, mw, mh) {
        PreviewPixel::Start
    } else if exists|i: int|
        0 <= i < path.len() && under_pixel(#[trigger] path[i], sx as int, sy as int, dw as int, dh as int, mw, mh) {
        PreviewPixel::Path
    } else {
        PreviewPixel::Empty
    }
}

struct Cover {
    x0: u32,
    x1: u32,
    y0: u32,
    y1: u32,
}

fn cover(s: u32, m: u32, d: u32) -> (r: (u32, u32))
    requires
        1 <= d <= 0xffff,
        1 <= m <= 0xffff,
        s < d,
    ensures
        r.0 == cover_start(s as int, m as int, d as int),
        r.1 == cover_end(s as int, m as int, d as int),
{
    assert((s + 1) * m + d - 1 <= 0xffff * 0xffff + 0xffff) by (nonlinear_arith)
        requires
            s < d,
            d <= 0xffff,
            m <= 0xffff,
    ;
    assert(s * m <= (s + 1) * m) by (nonlinear_arith)
        requires
            m >= 1,
    ;
    let start = s * m / d;
    let e = ((s + 1) * m + d - 1) / d;
    let end = if e <= m {
        e
    } else {
        m
    };
    (start, end)
}

fn in_cover(c: (u16, u16), k: &Cover) -> (b: bool)
    ensures
        b == (k.x0 <= c.0 < k.x1 && k.y0 <= c.1 < k.y1),
{
    k.x0 <= c.0 as u32 && (c.0 as u32) < k.x1 && k.y0 <= c.1 as u32 && (c.1 as u32) < k.y1
}

/// What pixel `(sx, sy)` of the minimap shows (see `spec_preview_pixel`).
pub fn preview_pixel(
    path: &Vec<(u16, u16)>,
    grid_w: u16,
    grid_h: u16,
    sx: u16,
    sy: u16,
    dw: u16,
    dh: u16,
) -> (r: PreviewPixel)
    requires
        sx < dw,
        sy < dh,
    ensures
        r == spec_preview_pixel(path@, grid_w, grid_h, sx, sy, dw, dh),
{
    let mw: u32 = at_least_one_u32(grid_w as u32);
    let mh: u32 = at_least_one_u32(grid_h as u32);
    let (x0, x1) = cover(sx as u32, mw, dw as u32);
    let (y0, y1) = cover(sy as u32, mh, dh as u32);
    let k = Cover { x0, x1, y0, y1 };
    let n = path.len();
    if n > 0 && in_cover(path[n - 1], &k) {
        return PreviewPixel::Goal;
    }
    if n > 0 && in_cover(path[0], &k) {
        return PreviewPixel::Start;
    }
    let mut i: usize = 0;
    while i < n
        invariant
            n == path@.len(),
            i <= n,
            k.x0 == cover_start(sx as int, mw as int, dw as int),
            k.x1 == cover_end(sx as int, mw as int, dw as int),
            k.y0 == cover_start(sy as int, mh as int, dh as int),
            k.y1 == cover_end(sy as int, mh as int, dh as int),
            mw == at_least_one(grid_w as int),
            mh == at_least_one(grid_h as int),
            n > 0 ==> !under_pixel(path@.last(), sx as int, sy as int, dw as int, dh as int, mw as int, mh as int),
            n > 0 ==> !under_pixel(path@[0], sx as int, sy as int, dw as int, dh as int, mw as int, mh as int),
            forall|j: int|
                0 <= j < i ==> !under_pixel(
                    #[trigger] path@[j],
                    sx as int,
                    sy as int,
                    dw as int,
                    dh as int,
                    mw as int,
                    mh as int,
                ),
        decreases n - i,
    {
        if in_cover(path[i], &k) {
            assert(under_pixel(path@[i as int], sx as int, sy as int, dw as int, dh as int, mw as int, mh as int));
            return PreviewPixel::Path;
        }
        i = i + 1;
    }
    PreviewPixel::Empty
}

} // verus!
