//! The segmented follower chain: an ordered list of body segments that traces
//! the head's path with a one-tick lag per slot, and grows by at most one
//! segment per tick toward the head's target length.

use vstd::prelude::*;

use crate::actor::Actor;
use crate::heading::Heading;
use crate::{coord_ok, MAX_COORD};

verus! {

/// One body unit of the follower chain, trailing the head. The index says
/// which slot of the chain the segment occupies, strictly increasing from the
/// head-adjacent segment to the tail; segments are never removed or reordered.
#[derive(Clone, Copy, Debug, PartialEq, Eq, Structural)]
pub struct Segment {
    /// Position on the x axis.
    pub x: i64,
    /// Position on the y axis.
    pub y: i64,
    /// Stored heading, relayed down the chain like the position.
    pub heading: Heading,
    /// Slot of this segment, counted from the head.
    pub index: usize,
}

/// Position and heading of one chain slot or of the head: what the shift
/// relay passes down the chain (the slot index stays put).
#[derive(Clone, Copy, Debug, PartialEq, Eq, Structural)]
pub struct Pose {
    pub x: i64,
    pub y: i64,
    pub heading: Heading,
}

/// Segment indices are contiguous from 0 in chain order.
pub open spec fn indices_ok(segs: Seq<Segment>) -> bool {
    forall|i: int| 0 <= i < segs.len() ==> (#[trigger] segs[i].index) == i
}

/// Every segment coordinate is small enough for the arena arithmetic.
pub open spec fn segs_coords_ok(segs: Seq<Segment>) -> bool {
    forall|i: int| 0 <= i < segs.len() ==> coord_ok(
        (#[trigger] segs[i]).x as int,
        segs[i].y as int,
    )
}

/// Segment coordinates as a growth step leaves them: every slot is small
/// enough for the arena arithmetic, and the tail, freshly placed one unit
/// from its neighbour, may exceed the bound by that one unit until the next
/// shift discards its pose.
pub open spec fn segs_coords_grown(segs: Seq<Segment>) -> bool {
    &&& forall|i: int|
        0 <= i < segs.len() - 1 ==> coord_ok((#[trigger] segs[i]).x as int, segs[i].y as int)
    &&& segs.len() > 0 ==> {
        let t = segs.last();
        &&& -(MAX_COORD + 1) <= t.x as int <= MAX_COORD + 1
        &&& -(MAX_COORD + 1) <= t.y as int <= MAX_COORD + 1
    }
}

/// The chain after one shift relay: slot 0 takes the head's pose, every other
/// slot takes the pose its predecessor held, the old tail pose is discarded,
/// and each slot keeps its index.
pub open spec fn spec_shift(head: Pose, segs: Seq<Segment>) -> Seq<Segment> {
    Seq::new(
        segs.len(),
        |i: int|
            Segment {
                x: if i == 0 {
                    head.x
                } else {
                    segs[i - 1].x
                },
                y: if i == 0 {
                    head.y
                } else {
                    segs[i - 1].y
                },
                heading: if i == 0 {
                    head.heading
                } else {
                    segs[i - 1].heading
                },
                index: segs[i].index,
            },
    )
}

/// Shift state down the chain by one slot: the head's pre-move pose becomes
/// the pose of slot 0, slot 0's old pose becomes slot 1's, and so on; the old
/// tail pose falls off the end. The chain therefore always traces the head's
/// path with a fixed one-tick lag per slot, independent of chain length.
pub fn shift_chain(segs: &mut Vec<Segment>, head: Pose)
    ensures
        final(segs)@ == spec_shift(head, old(segs)@),
{
    let mut carry = head;
    let n = segs.len();
    let mut i: usize = 0;
    while i < n
        invariant
            n == segs@.len(),
            segs@.len() == old(segs)@.len(),
            i <= n,
            forall|j: int| 0 <= j < i ==> segs@[j] == spec_shift(head, old(segs)@)[j],
            forall|j: int| i <= j < n ==> segs@[j] == old(segs)@[j],
            i == 0 ==> carry == head,
            i > 0 ==> carry == (Pose {
                x: old(segs)@[i - 1].x,
                y: old(segs)@[i - 1].y,
                heading: old(segs)@[i - 1].heading,
            }),
        decreases n - i,
    {
        let next = Pose { x: segs[i].x, y: segs[i].y, heading: segs[i].heading };
        let idx = segs[i].index;
        segs.set(i, Segment { x: carry.x, y: carry.y, heading: carry.heading, index: idx });
        carry = next;
        i = i + 1;
    }
    proof {
        assert(segs@ =~= spec_shift(head, old(segs)@));
    }
}

/// Offset table for placing a new tail segment, one unit from the tail along
/// its heading: Left gives +x, Right gives -x, Up gives -y and Down gives +y.
/// The table is deliberately not the motion table: it is kept as the rule
/// stands, and the Down row is covered by a regression test.
pub open spec fn spec_growth_dx(h: Heading) -> int {
    match h {
        Heading::Left => 1,
        Heading::Right => -1,
        Heading::Up => 0,
        Heading::Down => 0,
    }
}

/// Vertical part of the tail-growth offset table; see `spec_growth_dx`.
pub open spec fn spec_growth_dy(h: Heading) -> int {
    match h {
        Heading::Left => 0,
        Heading::Right => 0,
        Heading::Up => -1,
        Heading::Down => 1,
    }
}

/// The growth offset for a tail heading, as an executable pair.
pub fn growth_offset(h: Heading) -> (r: (i64, i64))
    ensures
        r.0 as int == spec_growth_dx(h),
        r.1 as int == spec_growth_dy(h),
{
    match h {
        Heading::Left => (1i64, 0i64),
        Heading::Right => (-1i64, 0i64),
        Heading::Up => (0i64, -1i64),
        Heading::Down => (0i64, 1i64),
    }
}

/// The segment one growth step appends: placed one unit from the current tail
/// of the body (the last segment, or the head itself while the chain is
/// empty) along the growth offset table, carrying that tail's heading, in the
/// next chain slot.
pub open spec fn spec_grown(segs: Seq<Segment>, head: Actor) -> Segment {
    let tx = if segs.len() == 0 {
        head.x as int
    } else {
        segs.last().x as int
    };
    let ty = if segs.len() == 0 {
        head.y as int
    } else {
        segs.last().y as int
    };
    let th = if segs.len() == 0 {
        head.heading
    } else {
        segs.last().heading
    };
    Segment {
        x: (tx + spec_growth_dx(th)) as i64,
        y: (ty + spec_growth_dy(th)) as i64,
        heading: th,
        index: segs.len() as usize,
    }
}

/// Reconcile the chain's length with the head's target length by at most one
/// segment: when fewer segments exist than the target length requires (the
/// target counts the head), append exactly one new tail segment, and never
/// more, however far the chain lags behind. Existing segments are untouched;
/// no segment is ever removed.
pub fn grow_chain(segs: &mut Vec<Segment>, head: &Actor) -> (grew: bool)
    requires
        head.wf(),
        indices_ok(old(segs)@),
        segs_coords_ok(old(segs)@),
    ensures
        grew == (old(segs)@.len() + 1 < head.target_length),
        grew ==> final(segs)@ == old(segs)@.push(spec_grown(old(segs)@, *head)),
        !grew ==> final(segs)@ == old(segs)@,
        final(segs)@.len() <= old(segs)@.len() + 1,
        indices_ok(final(segs)@),
        segs_coords_grown(final(segs)@),
{
    if segs.len() < head.target_length - 1 {
        let (tx, ty, th, ti) = if segs.len() == 0 {
            (head.x, head.y, head.heading, 0usize)
        } else {
            let tail = &segs[segs.len() - 1];
            (tail.x, tail.y, tail.heading, tail.index + 1)
        };
        let (dx, dy) = growth_offset(th);
        segs.push(Segment { x: tx + dx, y: ty + dy, heading: th, index: ti });
        true
    } else {
        false
    }
}

/// One shift relay keeps the slot indices contiguous and brings every
/// coordinate back under the arena bound: the one coordinate a growth step
/// may have placed a unit beyond it is the old tail pose, which the relay
/// discards.
pub proof fn lemma_shift_preserves(head: Pose, segs: Seq<Segment>)
    requires
        coord_ok(head.x as int, head.y as int),
        indices_ok(segs),
        segs_coords_grown(segs),
    ensures
        indices_ok(spec_shift(head, segs)),
        segs_coords_ok(spec_shift(head, segs)),
{
    let shifted = spec_shift(head, segs);
    assert forall|i: int| 0 <= i < shifted.len() implies coord_ok(
        (#[trigger] shifted[i]).x as int,
        shifted[i].y as int,
    ) by {
        if i > 0 {
            assert(shifted[i].x == segs[i - 1].x && shifted[i].y == segs[i - 1].y);
            assert(i - 1 < segs.len() - 1);
        }
    }
}

/// The shift relay applied over a whole run of ticks: the pose at slot 0 of
/// `heads` is fed to the chain first, the last pose of `heads` most recently.
pub open spec fn spec_shift_run(heads: Seq<Pose>, segs: Seq<Segment>) -> Seq<Segment>
    decreases heads.len(),
{
    if heads.len() == 0 {
        segs
    } else {
        spec_shift_run(heads.subrange(1, heads.len() as int), spec_shift(heads[0], segs))
    }
}

/// The follower-delay law: a chain fed by the shift relay traces the head's
/// pose sequence exactly, each slot delayed by its index plus one. After the
/// run `heads`, slot `i` holds the pose fed `i + 1` ticks before the end of
/// the run; a slot the run has not yet reached still holds a correspondingly
/// older pose of the initial chain. Slot indices and the chain length never
/// change under shifting.
pub proof fn lemma_shift_run_delay(heads: Seq<Pose>, segs: Seq<Segment>, i: int)
    requires
        0 <= i < segs.len(),
    ensures
        spec_shift_run(heads, segs).len() == segs.len(),
        i < heads.len() ==> {
            let s = spec_shift_run(heads, segs)[i];
            let h = heads[heads.len() - 1 - i];
            s.x == h.x && s.y == h.y && s.heading == h.heading
        },
        i >= heads.len() ==> {
            let s = spec_shift_run(heads, segs)[i];
            let s0 = segs[i - heads.len()];
            s.x == s0.x && s.y == s0.y && s.heading == s0.heading
        },
        spec_shift_run(heads, segs)[i].index == segs[i].index,
    decreases heads.len(),
{
    if heads.len() == 0 {
    } else {
        let segs1 = spec_shift(heads[0], segs);
        let rest = heads.subrange(1, heads.len() as int);
        lemma_shift_run_delay(rest, segs1, i);
    }
}

} // verus!
