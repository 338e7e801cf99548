use vstd::prelude::*;

verus! {

/// Manhattan distance between two grid cells.
pub open spec fn manhattan_spec(x1: u16, y1: u16, x2: u16, y2: u16) -> int {
    (if x1 >= x2 { x1 - x2 } else { x2 - x1 }) + (if y1 >= y2 { y1 - y2 } else { y2 - y1 })
}

/// Manhattan distance, as the game measures ranges on the grid.
pub fn manhattan(x1: u16, y1: u16, x2: u16, y2: u16) -> (d: u16)
    requires
        manhattan_spec(x1, y1, x2, y2) <= u16::MAX,
    ensures
        d == manhattan_spec(x1, y1, x2, y2),
{
    let dx = if x1 >= x2 { x1 - x2 } else { x2 - x1 };
    let dy = if y1 >= y2 { y1 - y2 } else { y2 - y1 };
    dx + dy
}

/// Manhattan distance, exact for every pair of cells.
pub fn grid_distance(x1: u16, y1: u16, x2: u16, y2: u16) -> (d: u32)
    ensures
        d == manhattan_spec(x1, y1, x2, y2),
{
    let dx = if x1 >= x2 { x1 - x2 } else { x2 - x1 };
    let dy = if y1 >= y2 { y1 - y2 } else { y2 - y1 };
    dx as u32 + dy as u32
}

} // verus!
