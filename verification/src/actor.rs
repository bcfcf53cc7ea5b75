//! The moving actor: per-tick motion along its heading with an edge-triggered
//! turn at the arena walls, and the containment law that motion obeys.

use vstd::prelude::*;

use crate::boundary::Boundary;
use crate::heading::Heading;
use crate::{coord_ok, MAX_COORD, MAX_PARAM};

verus! {

/// The primary moving entity: the bouncing square, or the snake head.
/// Mutated once per tick.
#[derive(Clone, Copy, Debug, PartialEq, Eq, Structural)]
pub struct Actor {
    /// Position on the x axis.
    pub x: i64,
    /// Position on the y axis.
    pub y: i64,
    /// Current axis-aligned direction of motion.
    pub heading: Heading,
    /// Desired total body length (head plus segments); at least 1.
    pub target_length: usize,
}

impl Actor {
    pub open spec fn wf(self) -> bool {
        &&& coord_ok(self.x as int, self.y as int)
        &&& self.target_length >= 1
    }

    /// Build an actor of target length 1, checking the coordinate bounds.
    pub fn new(x: i64, y: i64, heading: Heading) -> (r: Actor)
        requires
            coord_ok(x as int, y as int),
        ensures
            r == (Actor { x, y, heading, target_length: 1usize }),
            r.wf(),
    {
        Actor { x, y, heading, target_length: 1 }
    }
}

/// Whether the actor's position already lies at or beyond the wall it is
/// heading for, less the actor's half-size `offset`. Walls sit at plus and
/// minus half the arena extent on each axis.
pub open spec fn spec_at_wall(a: Actor, b: Boundary, offset: int) -> bool {
    match a.heading {
        Heading::Left => a.x as int - offset <= -(b.width as int / 2),
        Heading::Right => a.x as int + offset >= b.width as int / 2,
        Heading::Up => a.y as int + offset >= b.height as int / 2,
        Heading::Down => a.y as int - offset <= -(b.height as int / 2),
    }
}

/// Heading after one tick: turned one step along the fixed cycle when a wall
/// is reached, kept otherwise.
pub open spec fn spec_step_heading(a: Actor, b: Boundary, offset: int) -> Heading {
    if spec_at_wall(a, b, offset) {
        a.heading.spec_turned()
    } else {
        a.heading
    }
}

/// X position after one tick: displaced by `step` along a horizontal heading
/// when no wall is reached, kept otherwise. The turn tick itself never moves.
pub open spec fn spec_step_x(a: Actor, b: Boundary, offset: int, step: int) -> int {
    if spec_at_wall(a, b, offset) {
        a.x as int
    } else {
        match a.heading {
            Heading::Left => a.x as int - step,
            Heading::Right => a.x as int + step,
            Heading::Up => a.x as int,
            Heading::Down => a.x as int,
        }
    }
}

/// Y position after one tick, the vertical counterpart of `spec_step_x`.
pub open spec fn spec_step_y(a: Actor, b: Boundary, offset: int, step: int) -> int {
    if spec_at_wall(a, b, offset) {
        a.y as int
    } else {
        match a.heading {
            Heading::Left => a.y as int,
            Heading::Right => a.y as int,
            Heading::Up => a.y as int + step,
            Heading::Down => a.y as int - step,
        }
    }
}

/// The whole actor after one motion tick; the target length is untouched by
/// motion.
pub open spec fn spec_step_actor(a: Actor, b: Boundary, offset: int, step: int) -> Actor {
    Actor {
        x: spec_step_x(a, b, offset, step) as i64,
        y: spec_step_y(a, b, offset, step) as i64,
        heading: spec_step_heading(a, b, offset),
        target_length: a.target_length,
    }
}

impl Actor {
    /// One motion tick: if the position already lies at or beyond the wall the
    /// heading points to (less the half-size `offset`), rotate the heading one
    /// step along the fixed cycle and do not move; otherwise displace the
    /// position by `step` along the heading. The turn is edge-triggered: the
    /// heading changes exactly once per wall crossing, and the actor may sit
    /// beyond the trigger line by less than one displacement before turning.
    pub fn step(&mut self, b: &Boundary, offset: i64, step: i64)
        requires
            old(self).wf(),
            b.wf(),
            0 <= offset <= MAX_PARAM,
            0 < step <= MAX_PARAM,
        ensures
            final(self).heading == spec_step_heading(*old(self), *b, offset as int),
            final(self).x as int == spec_step_x(*old(self), *b, offset as int, step as int),
            final(self).y as int == spec_step_y(*old(self), *b, offset as int, step as int),
            final(self).target_length == old(self).target_length,
            final(self).wf(),
            *final(self) == spec_step_actor(*old(self), *b, offset as int, step as int),
    {
        match self.heading {
            Heading::Left => {
                if self.x - offset <= -(b.width / 2) {
                    self.heading = self.heading.turned();
                } else {
                    self.x = self.x - step;
                }
            },
            Heading::Right => {
                if self.x + offset >= b.width / 2 {
                    self.heading = self.heading.turned();
                } else {
                    self.x = self.x + step;
                }
            },
            Heading::Up => {
                if self.y + offset >= b.height / 2 {
                    self.heading = self.heading.turned();
                } else {
                    self.y = self.y + step;
                }
            },
            Heading::Down => {
                if self.y - offset <= -(b.height / 2) {
                    self.heading = self.heading.turned();
                } else {
                    self.y = self.y - step;
                }
            },
        }
    }
}

/// The actor sits within `extent/2 - offset + slack` of the arena center line
/// on the x axis.
pub open spec fn contained_x(x: int, b: Boundary, offset: int, slack: int) -> bool {
    -(b.width as int / 2) + offset - slack <= x <= b.width as int / 2 - offset + slack
}

/// The actor sits within `extent/2 - offset + slack` of the arena center line
/// on the y axis.
pub open spec fn contained_y(y: int, b: Boundary, offset: int, slack: int) -> bool {
    -(b.height as int / 2) + offset - slack <= y <= b.height as int / 2 - offset + slack
}

/// Containment region the motion never leaves: within `extent/2 - offset +
/// slack` on both axes, where `slack` bounds the displacement of any single
/// tick.
pub open spec fn contained(a: Actor, b: Boundary, offset: int, slack: int) -> bool {
    &&& contained_x(a.x as int, b, offset, slack)
    &&& contained_y(a.y as int, b, offset, slack)
}

/// Containment is inductive: one motion tick whose displacement is at most
/// `slack` keeps the actor inside the containment region.
pub proof fn lemma_step_containment(a: Actor, b: Boundary, offset: int, step: int, slack: int)
    requires
        b.wf(),
        0 <= offset,
        0 < step <= slack,
        contained(a, b, offset, slack),
    ensures
        contained_x(spec_step_x(a, b, offset, step), b, offset, slack),
        contained_y(spec_step_y(a, b, offset, step), b, offset, slack),
{
}

/// With single-tick displacements of at most twice the half-size offset, the
/// containment region lies within `extent/2` plus `offset` of the arena center
/// line on both axes: the actor never leaves the arena by more than its own
/// half size.
pub proof fn lemma_contained_within_extent(a: Actor, b: Boundary, offset: int, slack: int)
    requires
        b.wf(),
        0 <= slack <= 2 * offset,
        contained(a, b, offset, slack),
    ensures
        -(b.width as int / 2) - offset <= a.x as int <= b.width as int / 2 + offset,
        -(b.height as int / 2) - offset <= a.y as int <= b.height as int / 2 + offset,
{
}

} // verus!
