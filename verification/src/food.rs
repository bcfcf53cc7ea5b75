//! The food pickup: exactly one instance, repositioned within the arena's
//! interior box when the actor comes within the fixed contact distance.

use vstd::prelude::*;

use crate::boundary::Boundary;
use crate::coord_ok;
use crate::rng::sample_in_range;

verus! {

/// The pickup. Repositioned on contact, never destroyed or recreated.
#[derive(Clone, Copy, Debug, PartialEq, Eq, Structural)]
pub struct Food {
    /// Position on the x axis.
    pub x: i64,
    /// Position on the y axis.
    pub y: i64,
}

impl Food {
    /// The food lies within the arena's interior box
    /// `[-width/2 + x, width/2 + x] * [-height/2 + y, height/2 + y]`,
    /// inclusive of its edges.
    pub open spec fn in_box(self, b: Boundary) -> bool {
        &&& b.left() <= self.x as int <= b.right()
        &&& b.bottom() <= self.y as int <= b.top()
    }

    /// Relocate the food to a random point within the arena's interior box,
    /// inclusive of its edges.
    pub fn relocate(&mut self, b: &Boundary)
        requires
            b.wf(),
        ensures
            final(self).in_box(*b),
            coord_ok(final(self).x as int, final(self).y as int),
    {
        let lo_x = -(b.width / 2) + b.x;
        let hi_x = b.width / 2 + b.x;
        let lo_y = -(b.height / 2) + b.y;
        let hi_y = b.height / 2 + b.y;
        self.x = sample_in_range(lo_x, hi_x);
        self.y = sample_in_range(lo_y, hi_y);
    }
}

/// Contact: the squared planar distance between the two points is under the
/// square of the fixed threshold of 10 units (independent of actor size).
pub open spec fn spec_near(ax: int, ay: int, fx: int, fy: int) -> bool {
    (ax - fx) * (ax - fx) + (ay - fy) * (ay - fy) < 100
}

/// Whether the actor position is within the contact distance of the food.
pub fn near(ax: i64, ay: i64, f: &Food) -> (r: bool)
    requires
        coord_ok(ax as int, ay as int),
        coord_ok(f.x as int, f.y as int),
    ensures
        r == spec_near(ax as int, ay as int, f.x as int, f.y as int),
{
    let dx = ax - f.x;
    let dy = ay - f.y;
    if dx <= -10 || dx >= 10 || dy <= -10 || dy >= 10 {
        proof {
            assert((dx as int) * (dx as int) >= 100 || (dy as int) * (dy as int) >= 100)
                by (nonlinear_arith)
                requires
                    dx <= -10 || dx >= 10 || dy <= -10 || dy >= 10,
            ;
            assert((dx as int) * (dx as int) >= 0 && (dy as int) * (dy as int) >= 0)
                by (nonlinear_arith);
        }
        false
    } else {
        proof {
            assert(0 <= (dx as int) * (dx as int) < 100 && 0 <= (dy as int) * (dy as int) < 100)
                by (nonlinear_arith)
                requires
                    -10 < dx < 10,
                    -10 < dy < 10,
            ;
        }
        dx * dx + dy * dy < 100
    }
}

} // verus!
