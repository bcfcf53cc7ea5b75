//! The rectangular arena: an immutable-per-run definition (center, extents,
//! stroke thickness) and the four wall rectangles drawn around it.

use vstd::prelude::*;

use crate::MAX_EXTENT;

verus! {

/// Rectangular containment region the per-tick checks run against.
/// Immutable after creation.
#[derive(Clone, Copy, Debug, PartialEq, Eq, Structural)]
pub struct Boundary {
    /// Center of the arena on the x axis.
    pub x: i64,
    /// Center of the arena on the y axis.
    pub y: i64,
    /// Full extent on the x axis; positive.
    pub width: i64,
    /// Full extent on the y axis; positive.
    pub height: i64,
    /// Stroke thickness of the drawn outline and walls.
    pub thickness: i64,
}

impl Boundary {
    /// Extents are positive and every length is small enough that the arena
    /// arithmetic stays inside `i64`.
    pub open spec fn wf(self) -> bool {
        &&& 0 < self.width <= MAX_EXTENT
        &&& 0 < self.height <= MAX_EXTENT
        &&& -MAX_EXTENT <= self.x <= MAX_EXTENT
        &&& -MAX_EXTENT <= self.y <= MAX_EXTENT
        &&& 0 <= self.thickness <= MAX_EXTENT
    }

    /// Left edge of the interior box, `-width/2 + x`.
    pub open spec fn left(self) -> int {
        -(self.width as int / 2) + self.x
    }

    /// Right edge of the interior box, `width/2 + x`.
    pub open spec fn right(self) -> int {
        self.width as int / 2 + self.x
    }

    /// Bottom edge of the interior box, `-height/2 + y`.
    pub open spec fn bottom(self) -> int {
        -(self.height as int / 2) + self.y
    }

    /// Top edge of the interior box, `height/2 + y`.
    pub open spec fn top(self) -> int {
        self.height as int / 2 + self.y
    }

    /// Build an arena definition, checking the well-formedness bounds.
    pub fn new(x: i64, y: i64, width: i64, height: i64, thickness: i64) -> (r: Boundary)
        requires
            0 < width <= MAX_EXTENT,
            0 < height <= MAX_EXTENT,
            -MAX_EXTENT <= x <= MAX_EXTENT,
            -MAX_EXTENT <= y <= MAX_EXTENT,
            0 <= thickness <= MAX_EXTENT,
        ensures
            r == (Boundary { x, y, width, height, thickness }),
            r.wf(),
    {
        Boundary { x, y, width, height, thickness }
    }
}

/// One axis-aligned wall rectangle: a size and a center position, ready for a
/// host to draw.
#[derive(Clone, Copy, Debug, PartialEq, Eq, Structural)]
pub struct WallRect {
    /// Extent of the wall on the x axis.
    pub width: i64,
    /// Extent of the wall on the y axis.
    pub height: i64,
    /// Center of the wall on the x axis.
    pub x: i64,
    /// Center of the wall on the y axis.
    pub y: i64,
}

/// The four walls around an arena, in the order left, top, right, bottom.
#[derive(Clone, Copy, Debug, PartialEq, Eq, Structural)]
pub struct Walls {
    pub left: WallRect,
    pub top: WallRect,
    pub right: WallRect,
    pub bottom: WallRect,
}

/// Compute the four wall rectangles of an arena: the side walls are
/// `thickness` wide and `height` tall, centered on the vertical edges; the top
/// and bottom walls are `width + thickness` wide and `thickness` tall,
/// centered on the horizontal edges.
pub fn wall_rects(b: &Boundary) -> (r: Walls)
    requires
        b.wf(),
    ensures
        r.left == (WallRect {
            width: b.thickness,
            height: b.height,
            x: (b.left() as i64),
            y: b.y,
        }),
        r.top == (WallRect {
            width: (b.width + b.thickness) as i64,
            height: b.thickness,
            x: b.x,
            y: (b.top() as i64),
        }),
        r.right == (WallRect {
            width: b.thickness,
            height: b.height,
            x: (b.right() as i64),
            y: b.y,
        }),
        r.bottom == (WallRect {
            width: (b.width + b.thickness) as i64,
            height: b.thickness,
            x: b.x,
            y: (b.bottom() as i64),
        }),
{
    Walls {
        left: WallRect { width: b.thickness, height: b.height, x: -(b.width / 2) + b.x, y: b.y },
        top: WallRect {
            width: b.width + b.thickness,
            height: b.thickness,
            x: b.x,
            y: b.height / 2 + b.y,
        },
        right: WallRect { width: b.thickness, height: b.height, x: b.width / 2 + b.x, y: b.y },
        bottom: WallRect {
            width: b.width + b.thickness,
            height: b.thickness,
            x: b.x,
            y: -(b.height / 2) + b.y,
        },
    }
}

} // verus!
