use vstd::prelude::*;

verus! {

/// An axis-aligned rectangle given by its top-left corner and its size.
#[derive(Debug, Clone, Copy, PartialEq, Eq, Structural)]
pub struct Rect {
    pub x: i64,
    pub y: i64,
    pub width: i64,
    pub height: i64,
}

/// The rectangle of the given size whose center is `(x, y)`.
pub open spec fn centered(x: int, y: int, width: int, height: int) -> Rect {
    Rect {
        x: (x - width / 2) as i64,
        y: (y - height / 2) as i64,
        width: width as i64,
        height: height as i64,
    }
}

pub open spec fn abs(v: int) -> int {
    if v < 0 { -v } else { v }
}

/// Builds the rectangle of the given size centered at `(x, y)`.
pub fn centered_rect(x: i64, y: i64, width: i64, height: i64) -> (r: Rect)
    requires
        0 <= width <= 2 * crate::POS_LIMIT,
        0 <= height <= 2 * crate::POS_LIMIT,
        -crate::COORD_LIMIT <= x <= crate::COORD_LIMIT,
        -crate::COORD_LIMIT <= y <= crate::COORD_LIMIT,
    ensures
        r == centered(x as int, y as int, width as int, height as int),
{
    Rect { x: x - width / 2, y: y - height / 2, width, height }
}

} // verus!
