//! The whole simulation state and the per-tick orchestration: input steering,
//! actor motion, chain shift and growth, food contact, and the score
//! projection, in that fixed order within each tick.

use vstd::prelude::*;

use crate::actor::{contained, lemma_step_containment, spec_step_actor, Actor};
use crate::boundary::Boundary;
use crate::chain::{
    grow_chain, indices_ok, lemma_shift_preserves, segs_coords_grown, shift_chain, spec_grown,
    spec_shift, Pose, Segment,
};
use crate::food::{near, spec_near, Food};
use crate::heading::{input_heading, spec_input_heading};
use crate::MAX_PARAM;

verus! {

/// The explicit registry of everything one run owns: the arena, the actor,
/// the follower chain and the food. Mutated only through `tick`.
pub struct Sim {
    pub boundary: Boundary,
    pub actor: Actor,
    pub segments: Vec<Segment>,
    pub food: Food,
}

impl Sim {
    /// Well-formed state: a well-formed arena and actor, contiguous chain
    /// indices, chain coordinates within the arena bound (the freshly grown
    /// tail may sit one unit past it), at most `target_length - 1` segments,
    /// and the food inside the arena's interior box.
    pub open spec fn wf(self) -> bool {
        &&& self.boundary.wf()
        &&& self.actor.wf()
        &&& indices_ok(self.segments@)
        &&& segs_coords_grown(self.segments@)
        &&& self.segments@.len() + 1 <= self.actor.target_length
        &&& self.food.in_box(self.boundary)
    }

    /// Start a run: the given arena, actor and food, and an empty chain.
    pub fn new(boundary: Boundary, actor: Actor, food: Food) -> (r: Sim)
        requires
            boundary.wf(),
            actor.wf(),
            food.in_box(boundary),
        ensures
            r.boundary == boundary,
            r.actor == actor,
            r.food == food,
            r.segments@ == Seq::<Segment>::empty(),
            r.wf(),
    {
        let r = Sim { boundary, actor, segments: Vec::new(), food };
        proof {
            assert(r.segments@ =~= Seq::<Segment>::empty());
        }
        r
    }

    /// Score displayed beside the arena: the target length less one.
    pub fn score(&self) -> (r: usize)
        requires
            self.actor.target_length >= 1,
        ensures
            r == self.actor.target_length - 1,
    {
        self.actor.target_length - 1
    }

    /// The actor as steered by this tick's key state, before it moves.
    pub open spec fn spec_steered(self, up: bool, down: bool, left: bool, right: bool) -> Actor {
        Actor {
            x: self.actor.x,
            y: self.actor.y,
            heading: spec_input_heading(self.actor.heading, up, down, left, right),
            target_length: self.actor.target_length,
        }
    }

    /// The actor after this tick's steering and motion.
    pub open spec fn spec_moved(
        self,
        offset: int,
        step: int,
        up: bool,
        down: bool,
        left: bool,
        right: bool,
    ) -> Actor {
        spec_step_actor(self.spec_steered(up, down, left, right), self.boundary, offset, step)
    }

    /// The chain after this tick: shifted by the head's pre-move pose (under
    /// the steered heading), then grown by at most one tail segment.
    pub open spec fn spec_chain_after(
        self,
        offset: int,
        step: int,
        up: bool,
        down: bool,
        left: bool,
        right: bool,
    ) -> Seq<Segment> {
        let pre = Pose {
            x: self.actor.x,
            y: self.actor.y,
            heading: spec_input_heading(self.actor.heading, up, down, left, right),
        };
        let shifted = spec_shift(pre, self.segments@);
        let moved = self.spec_moved(offset, step, up, down, left, right);
        if shifted.len() + 1 < moved.target_length {
            shifted.push(spec_grown(shifted, moved))
        } else {
            shifted
        }
    }

    /// Whether this tick's moved actor makes contact with the (old) food.
    pub open spec fn spec_eats(
        self,
        offset: int,
        step: int,
        up: bool,
        down: bool,
        left: bool,
        right: bool,
    ) -> bool {
        let moved = self.spec_moved(offset, step, up, down, left, right);
        spec_near(moved.x as int, moved.y as int, self.food.x as int, self.food.y as int)
    }

    /// One simulation tick, in the fixed order: steer the heading by the
    /// polled key state (last-wins), move or turn the actor, shift the chain
    /// by the head's pre-move pose, grow the chain by at most one segment,
    /// then check food contact; on contact the food relocates to a random
    /// point of the arena's interior box and the target length grows by one.
    ///
    /// The target length never decreases, and the chain length changes by at
    /// most one per tick.
    pub fn tick(&mut self, offset: i64, step: i64, up: bool, down: bool, left: bool, right: bool)
        -> (ate: bool)
        requires
            old(self).wf(),
            0 <= offset <= MAX_PARAM,
            0 < step <= MAX_PARAM,
            old(self).actor.target_length < usize::MAX,
        ensures
            final(self).wf(),
            final(self).boundary == old(self).boundary,
            ({
                let moved = old(self).spec_moved(offset as int, step as int, up, down, left, right);
                &&& final(self).actor.x == moved.x
                &&& final(self).actor.y == moved.y
                &&& final(self).actor.heading == moved.heading
            }),
            final(self).segments@ == old(self).spec_chain_after(
                offset as int,
                step as int,
                up,
                down,
                left,
                right,
            ),
            ate == old(self).spec_eats(offset as int, step as int, up, down, left, right),
            !ate ==> {
                &&& final(self).food == old(self).food
                &&& final(self).actor.target_length == old(self).actor.target_length
            },
            ate ==> {
                &&& final(self).food.in_box(old(self).boundary)
                &&& final(self).actor.target_length == old(self).actor.target_length + 1
            },
            final(self).actor.target_length >= old(self).actor.target_length,
            old(self).segments@.len() <= final(self).segments@.len() <= old(self).segments@.len()
                + 1,
    {
        let h = input_heading(self.actor.heading, up, down, left, right);
        self.actor.heading = h;
        let pre = Pose { x: self.actor.x, y: self.actor.y, heading: h };
        self.actor.step(&self.boundary, offset, step);
        shift_chain(&mut self.segments, pre);
        proof {
            lemma_shift_preserves(pre, old(self).segments@);
        }
        grow_chain(&mut self.segments, &self.actor);
        let ate = near(self.actor.x, self.actor.y, &self.food);
        if ate {
            self.food.relocate(&self.boundary);
            self.actor.target_length = self.actor.target_length + 1;
        }
        ate
    }
}

/// Containment holds tick by tick for the whole simulation: steering never
/// moves the actor, so an actor inside the containment region of its arena is
/// still inside it after any tick whose displacement is at most `slack`; and
/// `lemma_contained_within_extent` places that region within `extent/2` plus
/// the half-size offset on both axes whenever `slack` is at most twice the
/// offset.
pub proof fn lemma_tick_containment(
    s: Sim,
    offset: int,
    step: int,
    slack: int,
    up: bool,
    down: bool,
    left: bool,
    right: bool,
)
    requires
        s.boundary.wf(),
        s.actor.wf(),
        0 <= offset <= MAX_PARAM,
        0 < step <= slack <= MAX_PARAM,
        contained(s.actor, s.boundary, offset, slack),
    ensures
        contained(
            s.spec_moved(offset, step, up, down, left, right),
            s.boundary,
            offset,
            slack,
        ),
{
    let steered = s.spec_steered(up, down, left, right);
    lemma_step_containment(steered, s.boundary, offset, step, slack);
}

} // verus!
