//! Axis-aligned headings: the four-state direction machine of the actor, the
//! fixed turn cycle used when a wall is reached, the last-wins key mapping,
//! and the offset table used when a new tail segment is placed.

use vstd::prelude::*;

verus! {

/// Current axis-aligned direction of motion.
#[derive(Clone, Copy, Debug, PartialEq, Eq, Structural)]
pub enum Heading {
    Left,
    Right,
    Up,
    Down,
}

impl Heading {
    /// The fixed turn cycle applied when the actor reaches a wall:
    /// Left -> Down -> Right -> Up -> Left.
    pub open spec fn spec_turned(self) -> Heading {
        match self {
            Heading::Left => Heading::Down,
            Heading::Down => Heading::Right,
            Heading::Right => Heading::Up,
            Heading::Up => Heading::Left,
        }
    }

    /// Rotate the heading one step along the fixed wall-bounce cycle.
    pub fn turned(self) -> (r: Heading)
        ensures
            r == self.spec_turned(),
    {
        match self {
            Heading::Left => Heading::Down,
            Heading::Down => Heading::Right,
            Heading::Right => Heading::Up,
            Heading::Up => Heading::Left,
        }
    }
}

/// The heading cycle is deterministic and four-periodic: from Right it visits
/// Up, Left, Down and returns to Right, and from any heading four turns come
/// back around, never skipping or reversing.
pub proof fn lemma_turn_cycle(h: Heading)
    ensures
        Heading::Right.spec_turned() == Heading::Up,
        Heading::Up.spec_turned() == Heading::Left,
        Heading::Left.spec_turned() == Heading::Down,
        Heading::Down.spec_turned() == Heading::Right,
        h.spec_turned().spec_turned().spec_turned().spec_turned() == h,
        h.spec_turned() != h,
{
}

/// What the last-wins key scan yields: each pressed key overwrites the heading
/// in the fixed scan order up, down, left, right, so the last one scanned
/// wins; with no key pressed the heading is kept. Pressing the opposite of
/// the current heading is allowed and produces an instant U-turn.
pub open spec fn spec_input_heading(
    current: Heading,
    up: bool,
    down: bool,
    left: bool,
    right: bool,
) -> Heading {
    if right {
        Heading::Right
    } else if left {
        Heading::Left
    } else if down {
        Heading::Down
    } else if up {
        Heading::Up
    } else {
        current
    }
}

/// Map the polled state of the four direction keys onto the current heading.
pub fn input_heading(current: Heading, up: bool, down: bool, left: bool, right: bool) -> (r:
    Heading)
    ensures
        r == spec_input_heading(current, up, down, left, right),
{
    let mut h = current;
    if up {
        h = Heading::Up;
    }
    if down {
        h = Heading::Down;
    }
    if left {
        h = Heading::Left;
    }
    if right {
        h = Heading::Right;
    }
    h
}

} // verus!
