//! Where things are drawn: the terminal areas, the map's viewport, and the
//! mapping from grid cells to screen cells.
use vstd::prelude::*;

use crate::fx::{sign, Vec2i};

verus! {

/// A rectangle of terminal cells.
#[derive(Debug, Clone, Copy, PartialEq, Eq, Structural)]
pub struct Rect {
    pub x: u16,
    pub y: u16,
    pub width: u16,
    pub height: u16,
}

/// `a + b`, held at the greatest `u16`.
pub open spec fn sat_add16(a: u16, b: u16) -> u16 {
    if a + b > u16::MAX {
        u16::MAX
    } else {
        (a + b) as u16
    }
}

impl Rect {
    /// A rectangle at `(x, y)` of the given size.
    pub fn new(x: u16, y: u16, width: u16, height: u16) -> (r: Rect)
        ensures
            r == (Rect { x, y, width, height }),
    {
        Rect { x, y, width, height }
    }

    /// The column just right of the rectangle (held at the greatest `u16`).
    pub fn right(&self) -> (r: u16)
        ensures
            r == sat_add16(self.x, self.width),
    {
        self.x.saturating_add(self.width)
    }

    /// The row just below the rectangle (held at the greatest `u16`).
    pub fn bottom(&self) -> (r: u16)
        ensures
            r == sat_add16(self.y, self.height),
    {
        self.y.saturating_add(self.height)
    }
}

/// The visible window on the map: the size of a cell on screen, the first
/// visible cell, and how many cells are visible.
#[derive(Debug, Clone, Copy, PartialEq, Eq, Structural)]
pub struct MapViewport {
    /// Screen columns per cell.
    pub tile_w: u16,
    /// Screen rows per cell.
    pub tile_h: u16,
    pub view_x: u16,
    pub view_y: u16,
    pub vis_w: u16,
    pub vis_h: u16,
}

impl MapViewport {
    /// The viewport before the first layout: cells of two columns by one
    /// row, nothing visible.
    pub fn initial() -> (v: MapViewport)
        ensures
            v == (MapViewport { tile_w: 2, tile_h: 1, view_x: 0, view_y: 0, vis_w: 0, vis_h: 0 }),
    {
        MapViewport { tile_w: 2, tile_h: 1, view_x: 0, view_y: 0, vis_w: 0, vis_h: 0 }
    }
}

/// How the screen is laid out.
#[derive(Debug, Clone, Copy, PartialEq, Eq, Structural)]
pub enum LayoutMode {
    Wide,
    Compact,
}

/// The layout for a terminal area: compact below 96 columns or 28 rows.
pub fn layout_mode_for(area: Rect) -> (m: LayoutMode)
    ensures
        m == if area.width < 96 || area.height < 28 {
            LayoutMode::Compact
        } else {
            LayoutMode::Wide
        },
{
    if area.width < 96 || area.height < 28 {
        LayoutMode::Compact
    } else {
        LayoutMode::Wide
    }
}

/// How much detail effects are drawn with.
#[derive(Debug, Clone, Copy, PartialEq, Eq, Structural)]
pub enum FxLod {
    Low,
    Medium,
    High,
}

/// The detail for a zoom level: low up to 1, medium at 2, high above.
pub open spec fn lod_for(zoom: u16) -> FxLod {
    if zoom <= 1 {
        FxLod::Low
    } else if zoom == 2 {
        FxLod::Medium
    } else {
        FxLod::High
    }
}

/// The detail for a zoom level (see `lod_for`).
pub fn lod_from_zoom(zoom: u16) -> (l: FxLod)
    ensures
        l == lod_for(zoom),
{
    match zoom {
        0 | 1 => FxLod::Low,
        2 => FxLod::Medium,
        _ => FxLod::High,
    }
}

/// The zoom after a step of `delta`, within 0..=4.
pub fn next_zoom(zoom: u16, delta: i16) -> (z: u16)
    requires
        i16::MIN <= (zoom as i16) as int + delta as int <= i16::MAX,
    ensures
        z == if (zoom as i16) + delta < 0 {
            0
        } else if (zoom as i16) + delta > 4 {
            4
        } else {
            ((zoom as i16) + delta) as u16
        },
{
    let v = zoom as i16 + delta;
    if v < 0 {
        0
    } else if v > 4 {
        4
    } else {
        v as u16
    }
}

/// The cell of the map at `pos` is inside the viewport: `(gx, gy)` counted
/// from its first visible cell.
pub open spec fn visible_cell(pos: Vec2i, vp: MapViewport) -> Option<(int, int)> {
    if pos.x < 0 || pos.y < 0 || (pos.x as int) < vp.view_x || (pos.y as int) < vp.view_y {
        None
    } else {
        let gx = pos.x - vp.view_x;
        let gy = pos.y - vp.view_y;
        if gx >= vp.vis_w || gy >= vp.vis_h {
            None
        } else {
            Some((gx, gy))
        }
    }
}

/// The offset of a cell's middle within its tile.
pub open spec fn mid_offset(tile: u16) -> int {
    let half = tile / 2;
    let last = if tile >= 1 {
        tile - 1
    } else {
        0
    };
    if half <= last {
        half as int
    } else {
        last as int
    }
}

/// The screen arithmetic for a visible cell stays within `u16`.
pub open spec fn screen_fits(pos: Vec2i, area: Rect, vp: MapViewport) -> bool {
    match visible_cell(pos, vp) {
        Some((gx, gy)) => area.x + gx * vp.tile_w + mid_offset(vp.tile_w) <= u16::MAX && area.y + gy
            * vp.tile_h + mid_offset(vp.tile_h) <= u16::MAX,
        None => true,
    }
}

/// Where the middle of the map cell at `pos` is drawn, if it is visible
/// and on the screen area.
pub open spec fn spec_map_to_screen(pos: Vec2i, area: Rect, vp: MapViewport) -> Option<(u16, u16)> {
    match visible_cell(pos, vp) {
        Some((gx, gy)) => {
            let mx = area.x + gx * vp.tile_w + mid_offset(vp.tile_w);
            let my = area.y + gy * vp.tile_h + mid_offset(vp.tile_h);
            if mx >= sat_add16(area.x, area.width) || my >= sat_add16(area.y, area.height) {
                None
            } else {
                Some((mx as u16, my as u16))
            }
        },
        None => None,
    }
}

/// Where the top-left corner of the map cell at `pos` is drawn, if it is
/// visible and on the screen area.
pub open spec fn spec_map_to_tile_origin(pos: Vec2i, area: Rect, vp: MapViewport) -> Option<(u16, u16)> {
    match visible_cell(pos, vp) {
        Some((gx, gy)) => {
            let tx = area.x + gx * vp.tile_w;
            let ty = area.y + gy * vp.tile_h;
            if tx >= sat_add16(area.x, area.width) || ty >= sat_add16(area.y, area.height) {
                None
            } else {
                Some((tx as u16, ty as u16))
            }
        },
        None => None,
    }
}

fn cell_in_view(pos: Vec2i, vp: MapViewport) -> (r: Option<(u16, u16)>)
    ensures
        match r {
            Some((gx, gy)) => visible_cell(pos, vp) == Some((gx as int, gy as int)),
            None => visible_cell(pos, vp) is None,
        },
{
    if pos.x < 0 || pos.y < 0 {
        return None;
    }
    let cx = pos.x as u16;
    let cy = pos.y as u16;
    if cx < vp.view_x || cy < vp.view_y {
        return None;
    }
    let gx = cx - vp.view_x;
    let gy = cy - vp.view_y;
    if gx >= vp.vis_w || gy >= vp.vis_h {
        return None;
    }
    Some((gx, gy))
}

/// Where the middle of the map cell at `pos` is drawn (see
/// `spec_map_to_screen`).
pub fn map_to_screen(pos: Vec2i, area: Rect, vp: MapViewport) -> (r: Option<(u16, u16)>)
    requires
        screen_fits(pos, area, vp),
    ensures
        r == spec_map_to_screen(pos, area, vp),
{
    match cell_in_view(pos, vp) {
        None => None,
        Some((gx, gy)) => {
            assert(0 <= gx * vp.tile_w) by (nonlinear_arith)
                requires
                    gx >= 0,
                    vp.tile_w >= 0,
            ;
            assert(0 <= gy * vp.tile_h) by (nonlinear_arith)
                requires
                    gy >= 0,
                    vp.tile_h >= 0,
            ;
            let tile_x = area.x + gx * vp.tile_w;
            let tile_y = area.y + gy * vp.tile_h;
            let half_w = vp.tile_w / 2;
            let last_w = vp.tile_w.saturating_sub(1);
            let half_h = vp.tile_h / 2;
            let last_h = vp.tile_h.saturating_sub(1);
            let mid_x = tile_x + if half_w <= last_w {
                half_w
            } else {
                last_w
            };
            let mid_y = tile_y + if half_h <= last_h {
                half_h
            } else {
                last_h
            };
            if mid_x >= area.right() || mid_y >= area.bottom() {
                return None;
            }
            Some((mid_x, mid_y))
        },
    }
}

/// Where the top-left corner of the map cell at `pos` is drawn (see
/// `spec_map_to_tile_origin`).
pub fn map_to_tile_origin(pos: Vec2i, area: Rect, vp: MapViewport) -> (r: Option<(u16, u16)>)
    requires
        screen_fits(pos, area, vp),
    ensures
        r == spec_map_to_tile_origin(pos, area, vp),
{
    match cell_in_view(pos, vp) {
        None => None,
        Some((gx, gy)) => {
            assert(0 <= gx * vp.tile_w) by (nonlinear_arith)
                requires
                    gx >= 0,
                    vp.tile_w >= 0,
            ;
            assert(0 <= gy * vp.tile_h) by (nonlinear_arith)
                requires
                    gy >= 0,
                    vp.tile_h >= 0,
            ;
            let tile_x = area.x + gx * vp.tile_w;
            let tile_y = area.y + gy * vp.tile_h;
            if tile_x >= area.right() || tile_y >= area.bottom() {
                return None;
            }
            Some((tile_x, tile_y))
        },
    }
}

/// The glyph of a straight line from `from` towards `to`: horizontal,
/// vertical or one of the diagonals (horizontal when the ends meet).
pub open spec fn spec_line_glyph(from: Vec2i, to: Vec2i) -> &'static str {
    let dx = sign(to.x - from.x);
    let dy = sign(to.y - from.y);
    if dy == 0 {
        "─"
    } else if dx == 0 {
        "│"
    } else if dx == dy {
        "╲"
    } else {
        "╱"
    }
}

/// The glyph of a straight line from `from` towards `to`.
pub fn line_glyph(from: Vec2i, to: Vec2i) -> (g: &'static str)
    requires
        i16::MIN <= to.x - from.x <= i16::MAX,
        i16::MIN <= to.y - from.y <= i16::MAX,
    ensures
        g == spec_line_glyph(from, to),
{
    let dx = crate::fx::signum(to.x - from.x);
    let dy = crate::fx::signum(to.y - from.y);
    if dy == 0 {
        "─"
    } else if dx == 0 {
        "│"
    } else if dx == dy {
        "╲"
    } else {
        "╱"
    }
}


/// Screen columns (and rows) per map cell at a zoom level: 2 at 0, else
/// four per level.
pub open spec fn tile_for_zoom(zoom: u16) -> u16 {
    if zoom == 0 {
        2
    } else {
        (4 * zoom) as u16
    }
}

/// How many cells fit in `inner` cells of screen at `tile` per cell: at
/// least one, at most the whole grid.
pub open spec fn visible_cells(inner: u16, tile: u16, grid: u16) -> u16 {
    let n = inner / tile;
    let n1 = if n >= 1 {
        n
    } else {
        1
    };
    if n1 <= grid {
        n1
    } else {
        grid
    }
}

/// `a - b`, or 0 below it.
pub open spec fn sat_sub(a: u16, b: u16) -> u16 {
    if a >= b {
        (a - b) as u16
    } else {
        0
    }
}

/// The smaller of two.
pub open spec fn min16(a: u16, b: u16) -> u16 {
    if a <= b {
        a
    } else {
        b
    }
}

/// Where a view starting at `v` of `vis` cells must move on one axis so
/// that cell `c` is visible.
pub open spec fn follow(v: u16, vis: u16, c: u16) -> u16 {
    if c < v {
        c
    } else if c >= v + vis {
        sat_sub(c, (vis - 1) as u16)
    } else {
        v
    }
}

/// The state of the map's view that the layout keeps between frames.
#[derive(Debug, Clone, Copy, PartialEq, Eq, Structural)]
pub struct ViewState {
    pub zoom: u16,
    /// The zoom of the last layout.
    pub last_zoom: u16,
    /// The player moved the view by hand (or zoomed), so it does not
    /// follow the selection.
    pub manual_pan: bool,
    pub viewport: MapViewport,
}

/// The view laid out in a map area of `inner_w` by `inner_h` screen cells,
/// for a grid of `grid_w` by `grid_h`. After a zoom change the view is
/// centred on the hovered (else the selected) cell and counts as moved by
/// hand. Otherwise it stays where it was, on the grid; when it was never
/// moved by hand it starts centred, and then follows the selected cell.
pub open spec fn spec_layout_view(
    st: ViewState,
    inner_w: u16,
    inner_h: u16,
    grid_w: u16,
    grid_h: u16,
    hover: Option<(u16, u16)>,
    selected: Option<(u16, u16)>,
) -> ViewState {
    let tile = tile_for_zoom(st.zoom);
    let vis_w = visible_cells(inner_w, tile, grid_w);
    let vis_h = visible_cells(inner_h, tile, grid_h);
    let max_x = sat_sub(grid_w, vis_w);
    let max_y = sat_sub(grid_h, vis_h);
    let zoomed = st.last_zoom != st.zoom;
    let manual = st.manual_pan || zoomed;
    let anchor = match hover {
        Some(c) => Some(c),
        None => selected,
    };
    let base = MapViewport { tile_w: tile, tile_h: tile, view_x: 0, view_y: 0, vis_w, vis_h };
    if zoomed && anchor is Some {
        let (ax, ay) = anchor->0;
        ViewState {
            zoom: st.zoom,
            last_zoom: st.zoom,
            manual_pan: true,
            viewport: MapViewport {
                view_x: min16(sat_sub(ax, vis_w / 2), max_x),
                view_y: min16(sat_sub(ay, vis_h / 2), max_y),
                ..base
            },
        }
    } else {
        let vx = min16(st.viewport.view_x, max_x);
        let vy = min16(st.viewport.view_y, max_y);
        let (fx, fy) = if manual {
            (vx, vy)
        } else if st.viewport.view_x == 0 && st.viewport.view_y == 0 {
            (max_x / 2, max_y / 2)
        } else {
            match selected {
                Some((cx, cy)) => (follow(vx, vis_w, cx), follow(vy, vis_h, cy)),
                None => (vx, vy),
            }
        };
        ViewState {
            zoom: st.zoom,
            last_zoom: st.zoom,
            manual_pan: manual,
            viewport: MapViewport { view_x: min16(fx, max_x), view_y: min16(fy, max_y), ..base },
        }
    }
}

fn sat_sub_exec(a: u16, b: u16) -> (r: u16)
    ensures
        r == sat_sub(a, b),
{
    if a >= b {
        a - b
    } else {
        0
    }
}

fn min_exec(a: u16, b: u16) -> (r: u16)
    ensures
        r == min16(a, b),
{
    if a <= b {
        a
    } else {
        b
    }
}

/// Lays out the map's view (see `spec_layout_view`); the grid is not
/// empty, as every map's is.
pub fn layout_view(
    st: ViewState,
    inner_w: u16,
    inner_h: u16,
    grid_w: u16,
    grid_h: u16,
    hover: Option<(u16, u16)>,
    selected: Option<(u16, u16)>,
) -> (r: ViewState)
    requires
        4 * st.zoom <= u16::MAX,
        grid_w >= 1,
        grid_h >= 1,
    ensures
        r == spec_layout_view(st, inner_w, inner_h, grid_w, grid_h, hover, selected),
{
    let tile: u16 = if st.zoom == 0 {
        2
    } else {
        4 * st.zoom
    };
    let nw = inner_w / tile;
    let nh = inner_h / tile;
    let vis_w = min_exec(if nw >= 1 {
        nw
    } else {
        1
    }, grid_w);
    let vis_h = min_exec(if nh >= 1 {
        nh
    } else {
        1
    }, grid_h);
    let max_x = sat_sub_exec(grid_w, vis_w);
    let max_y = sat_sub_exec(grid_h, vis_h);
    let zoomed = st.last_zoom != st.zoom;
    let manual = st.manual_pan || zoomed;
    let anchor = match hover {
        Some(c) => Some(c),
        None => selected,
    };
    if zoomed {
        match anchor {
            Some((ax, ay)) => {
                return ViewState {
                    zoom: st.zoom,
                    last_zoom: st.zoom,
                    manual_pan: true,
                    viewport: MapViewport {
                        tile_w: tile,
                        tile_h: tile,
                        view_x: min_exec(sat_sub_exec(ax, vis_w / 2), max_x),
                        view_y: min_exec(sat_sub_exec(ay, vis_h / 2), max_y),
                        vis_w,
                        vis_h,
                    },
                };
            },
            None => {},
        }
    }
    let vx = min_exec(st.viewport.view_x, max_x);
    let vy = min_exec(st.viewport.view_y, max_y);
    let mut fx = vx;
    let mut fy = vy;
    if !manual {
        if st.viewport.view_x == 0 && st.viewport.view_y == 0 {
            fx = max_x / 2;
            fy = max_y / 2;
        } else {
            match selected {
                Some((cx, cy)) => {
                    if cx < vx {
                        fx = cx;
                    } else if cx >= vx + vis_w {
                        fx = sat_sub_exec(cx, vis_w - 1);
                    }
                    if cy < vy {
                        fy = cy;
                    } else if cy >= vy + vis_h {
                        fy = sat_sub_exec(cy, vis_h - 1);
                    }
                },
                None => {},
            }
        }
    }
    ViewState {
        zoom: st.zoom,
        last_zoom: st.zoom,
        manual_pan: manual,
        viewport: MapViewport {
            tile_w: tile,
            tile_h: tile,
            view_x: min_exec(fx, max_x),
            view_y: min_exec(fy, max_y),
            vis_w,
            vis_h,
        },
    }
}

/// A 32-bit mix of `v` (xor-shift and multiply rounds, products taken
/// modulo 2^32).
pub open spec fn spec_hash32(v: u32) -> u32 {
    let a = v ^ (v >> 16u32);
    let b = ((a as int * 0x7feb352d) % 0x1_0000_0000) as u32;
    let c = b ^ (b >> 15u32);
    let d = ((c as int * 0x846ca68b) % 0x1_0000_0000) as u32;
    d ^ (d >> 16u32)
}

/// The mix used for the map's texture (see `spec_hash32`).
pub fn hash32(v: u32) -> (h: u32)
    ensures
        h == spec_hash32(v),
{
    let a = v ^ (v >> 16u32);
    let b = (((a as u64) * 0x7feb352d) % 0x1_0000_0000) as u32;
    let c = b ^ (b >> 15u32);
    let d = (((c as u64) * 0x846ca68b) % 0x1_0000_0000) as u32;
    d ^ (d >> 16u32)
}

/// The key of a texture pick: the cell and the sub-position packed into
/// one word, with the salt.
pub open spec fn tex_key(cell_x: u16, cell_y: u16, dx: u16, dy: u16, salt: u32) -> u32 {
    (cell_x as u32) ^ ((cell_y as u32) << 11u32) ^ ((dx as u32) << 21u32) ^ ((dy as u32) << 27u32) ^ salt
}

/// Which of `m` texture variants a spot of a cell shows.
pub fn tex_pick(cell_x: u16, cell_y: u16, dx: u16, dy: u16, salt: u32, m: u32) -> (r: u32)
    requires
        m > 0,
    ensures
        r == spec_hash32(tex_key(cell_x, cell_y, dx, dy, salt)) % m,
        r < m,
{
    let v = (cell_x as u32) ^ ((cell_y as u32) << 11u32) ^ ((dx as u32) << 21u32) ^ ((dy as u32)
        << 27u32) ^ salt;
    hash32(v) % m
}

/// The shape in which a tower's range is drawn.
#[derive(Debug, Clone, Copy, PartialEq, Eq, Structural)]
pub enum RangeShape {
    Diamond,
    Hex,
}

/// Sniper and frost ranges are drawn as hexagons, the others as diamonds.
pub fn range_shape(kind: crate::kinds::TowerKind) -> (s: RangeShape)
    ensures
        s == if kind == crate::kinds::TowerKind::Sniper || kind == crate::kinds::TowerKind::Frost {
            RangeShape::Hex
        } else {
            RangeShape::Diamond
        },
{
    match kind {
        crate::kinds::TowerKind::Sniper | crate::kinds::TowerKind::Frost => RangeShape::Hex,
        _ => RangeShape::Diamond,
    }
}

/// `|v|`.
pub open spec fn abs(v: int) -> int {
    if v < 0 {
        -v
    } else {
        v
    }
}

/// The hexagonal distance between two cells, in cube coordinates.
pub open spec fn spec_hex_distance(x1: u16, y1: u16, x2: u16, y2: u16) -> int {
    let dx = x1 - x2;
    let dy = y1 - y2;
    (abs(dx) + abs(dy) + abs(-dx - dy)) / 2
}

/// The hexagonal distance between two cells, kept to 16 bits as a `u16`
/// holds it.
pub fn hex_distance(x1: u16, y1: u16, x2: u16, y2: u16) -> (d: u16)
    ensures
        d == spec_hex_distance(x1, y1, x2, y2) as u16,
{
    let dx = x1 as i32 - x2 as i32;
    let dy = y1 as i32 - y2 as i32;
    let dz = -dx - dy;
    let ax = if dx < 0 {
        -dx
    } else {
        dx
    };
    let ay = if dy < 0 {
        -dy
    } else {
        dy
    };
    let az = if dz < 0 {
        -dz
    } else {
        dz
    };
    assert((ax + ay + az) / 2 == spec_hex_distance(x1, y1, x2, y2));
    let d: i32 = (ax + ay + az) / 2;
    #[verifier::truncate]
    (d as u16)
}

/// Whether cell `(x, y)` lies on the outline of a range `range` around
/// `(cx, cy)`.
pub fn range_match(shape: RangeShape, x: u16, y: u16, cx: u16, cy: u16, range: u16) -> (b: bool)
    ensures
        b == match shape {
            RangeShape::Diamond => abs(x - cx) + abs(y - cy) == range,
            RangeShape::Hex => spec_hex_distance(x, y, cx, cy) as u16 == range,
        },
{
    match shape {
        RangeShape::Diamond => {
            let dx: u32 = if x >= cx {
                (x - cx) as u32
            } else {
                (cx - x) as u32
            };
            let dy: u32 = if y >= cy {
                (y - cy) as u32
            } else {
                (cy - y) as u32
            };
            dx + dy == range as u32
        },
        RangeShape::Hex => hex_distance(x, y, cx, cy) == range,
    }
}

} // verus!
