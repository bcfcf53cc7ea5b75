use snake_sim::actor::Actor;
use snake_sim::boundary::{wall_rects, Boundary};
use snake_sim::chain::{grow_chain, growth_offset, shift_chain, Pose, Segment};
use snake_sim::food::{near, Food};
use snake_sim::heading::{input_heading, Heading};
use snake_sim::sim::Sim;

fn arena_400() -> Boundary {
    Boundary::new(0, 0, 400, 400, 5)
}

fn quiet_sim() -> Sim {
    // Food far in a corner so motion tests never touch it.
    Sim::new(arena_400(), Actor::new(0, 0, Heading::Right), Food { x: 190, y: 190 })
}

#[test]
fn heading_turn_cycle() {
    assert_eq!(Heading::Right.turned(), Heading::Up);
    assert_eq!(Heading::Up.turned(), Heading::Left);
    assert_eq!(Heading::Left.turned(), Heading::Down);
    assert_eq!(Heading::Down.turned(), Heading::Right);
    // Four turns come back around.
    let h = Heading::Right.turned().turned().turned().turned();
    assert_eq!(h, Heading::Right);
}

#[test]
fn input_mapping_last_wins() {
    // No key pressed keeps the heading.
    assert_eq!(input_heading(Heading::Left, false, false, false, false), Heading::Left);
    // A single key sets the heading.
    assert_eq!(input_heading(Heading::Left, true, false, false, false), Heading::Up);
    // The scan order is up, down, left, right: right wins over all.
    assert_eq!(input_heading(Heading::Left, true, true, true, true), Heading::Right);
    // Left wins over up and down.
    assert_eq!(input_heading(Heading::Right, true, true, true, false), Heading::Left);
    // Down wins over up.
    assert_eq!(input_heading(Heading::Right, true, true, false, false), Heading::Down);
}

#[test]
fn input_u_turn_allowed() {
    // Pressing the opposite of the current heading produces an instant U-turn.
    assert_eq!(input_heading(Heading::Right, false, false, true, false), Heading::Left);
    let mut sim = quiet_sim();
    sim.actor.x = -50;
    // Heading Right, press left: the actor moves left this very tick.
    sim.tick(10, 5, false, false, true, false);
    assert_eq!(sim.actor.heading, Heading::Left);
    assert_eq!(sim.actor.x, -55);
}

#[test]
fn motion_moves_along_heading() {
    let b = arena_400();
    let mut a = Actor::new(0, 0, Heading::Right);
    a.step(&b, 10, 5);
    assert_eq!((a.x, a.y, a.heading), (5, 0, Heading::Right));
    let mut a = Actor::new(0, 0, Heading::Left);
    a.step(&b, 10, 5);
    assert_eq!((a.x, a.y, a.heading), (-5, 0, Heading::Left));
    let mut a = Actor::new(0, 0, Heading::Up);
    a.step(&b, 10, 5);
    assert_eq!((a.x, a.y, a.heading), (0, 5, Heading::Up));
    let mut a = Actor::new(0, 0, Heading::Down);
    a.step(&b, 10, 5);
    assert_eq!((a.x, a.y, a.heading), (0, -5, Heading::Down));
}

#[test]
fn turn_tick_does_not_move() {
    let b = arena_400();
    // 195 + 10 >= 200: at the right wall, so the tick only turns.
    let mut a = Actor::new(195, 0, Heading::Right);
    a.step(&b, 10, 5);
    assert_eq!((a.x, a.y), (195, 0));
    assert_eq!(a.heading, Heading::Up);
}

#[test]
fn crossing_right_edge_turns_up_not_left_or_down() {
    // Arena 400 by 400 centered at the origin, actor from the origin heading
    // Right at 300 units per second: once x + offset reaches 200 the heading
    // flips to Up.
    let mut sim = quiet_sim();
    let mut turned = None;
    for _ in 0..200 {
        sim.tick(10, 5, false, false, false, false);
        if sim.actor.heading != Heading::Right {
            turned = Some(sim.actor.heading);
            break;
        }
    }
    assert_eq!(turned, Some(Heading::Up));
    // The turn was edge-triggered at x = 190 (190 + 10 >= 200).
    assert_eq!(sim.actor.x, 190);
}

#[test]
fn containment_over_many_ticks() {
    // The actor stays within extent/2 plus the offset on both axes, here with
    // displacement 5 and offset 10 per tick, through several full circuits.
    let mut sim = quiet_sim();
    for _ in 0..2000 {
        sim.tick(10, 5, false, false, false, false);
        assert!(sim.actor.x.abs() <= 200 + 10);
        assert!(sim.actor.y.abs() <= 200 + 10);
    }
}

#[test]
fn heading_cycle_across_walls() {
    // Over a long free run the bounce heading cycles Right, Up, Left, Down,
    // Right, ... never skipping or reversing.
    let mut sim = quiet_sim();
    let mut seen = vec![sim.actor.heading];
    for _ in 0..2000 {
        sim.tick(10, 5, false, false, false, false);
        if *seen.last().unwrap() != sim.actor.heading {
            seen.push(sim.actor.heading);
        }
    }
    assert!(seen.len() >= 5);
    for w in seen.windows(2) {
        assert_eq!(w[1], w[0].turned());
    }
}

#[test]
fn shift_relays_poses_and_keeps_indices() {
    let mut segs = vec![
        Segment { x: 1, y: 2, heading: Heading::Left, index: 0 },
        Segment { x: 3, y: 4, heading: Heading::Up, index: 1 },
    ];
    shift_chain(&mut segs, Pose { x: 9, y: 8, heading: Heading::Down });
    assert_eq!((segs[0].x, segs[0].y, segs[0].heading, segs[0].index), (9, 8, Heading::Down, 0));
    assert_eq!((segs[1].x, segs[1].y, segs[1].heading, segs[1].index), (1, 2, Heading::Left, 1));
    assert_eq!(segs.len(), 2);
}

#[test]
fn chain_traces_head_with_one_tick_lag() {
    // After each tick, segment i holds the head's pre-move position of
    // i + 1 ticks ago.
    let mut sim = quiet_sim();
    sim.actor.target_length = 4;
    let mut heads: Vec<(i64, i64)> = Vec::new();
    for t in 0..40 {
        let prev_len = sim.segments.len();
        heads.push((sim.actor.x, sim.actor.y));
        sim.tick(10, 5, false, false, false, false);
        // Every slot that existed before this tick was relayed this tick;
        // a slot freshly grown this tick has not been fed a head pose yet.
        for i in 0..prev_len {
            assert_eq!((sim.segments[i].x, sim.segments[i].y), heads[t - i]);
        }
    }
}

#[test]
fn growth_is_rate_limited_and_monotone() {
    // Target length jumps straight to 4: the chain still grows by exactly one
    // segment per tick.
    let mut sim = quiet_sim();
    sim.actor.target_length = 4;
    assert_eq!(sim.segments.len(), 0);
    sim.tick(10, 5, false, false, false, false);
    assert_eq!(sim.segments.len(), 1);
    sim.tick(10, 5, false, false, false, false);
    assert_eq!(sim.segments.len(), 2);
    sim.tick(10, 5, false, false, false, false);
    assert_eq!(sim.segments.len(), 3);
    // Settled: head plus three segments is the target of 4.
    sim.tick(10, 5, false, false, false, false);
    assert_eq!(sim.segments.len(), 3);
    // Indices are contiguous from 0 and the target never decreased.
    for (i, seg) in sim.segments.iter().enumerate() {
        assert_eq!(seg.index, i);
    }
    assert_eq!(sim.actor.target_length, 4);
}

#[test]
fn growth_offset_table() {
    assert_eq!(growth_offset(Heading::Left), (1, 0));
    assert_eq!(growth_offset(Heading::Right), (-1, 0));
    assert_eq!(growth_offset(Heading::Up), (0, -1));
    assert_eq!(growth_offset(Heading::Down), (0, 1));
}

#[test]
fn growth_down_offsets_plus_y() {
    // Regression cover for the asymmetric row of the growth table: a tail
    // heading Down grows a segment one unit toward +y.
    let mut segs = vec![Segment { x: 5, y: 7, heading: Heading::Down, index: 0 }];
    let head = Actor { x: 0, y: 0, heading: Heading::Right, target_length: 3 };
    let grew = grow_chain(&mut segs, &head);
    assert!(grew);
    assert_eq!(segs.len(), 2);
    assert_eq!((segs[1].x, segs[1].y, segs[1].heading, segs[1].index), (5, 8, Heading::Down, 1));
}

#[test]
fn growth_from_empty_chain_uses_head() {
    let mut segs: Vec<Segment> = Vec::new();
    let head = Actor { x: 10, y: 20, heading: Heading::Left, target_length: 2 };
    let grew = grow_chain(&mut segs, &head);
    assert!(grew);
    assert_eq!(segs.len(), 1);
    // Left-heading tail grows one unit toward +x.
    assert_eq!((segs[0].x, segs[0].y, segs[0].heading, segs[0].index), (11, 20, Heading::Left, 0));
}

#[test]
fn near_threshold_is_strict() {
    let f = Food { x: 100, y: 100 };
    // Distance 9 triggers contact, distance 10 does not.
    assert!(near(109, 100, &f));
    assert!(!near(110, 100, &f));
    assert!(near(100, 91, &f));
    assert!(!near(100, 110, &f));
    // Diagonal: 7^2 + 7^2 = 98 < 100, 8^2 + 7^2 = 113 >= 100.
    assert!(near(107, 107, &f));
    assert!(!near(108, 107, &f));
}

#[test]
fn eating_relocates_food_and_grows_target_by_one() {
    // Food at (100, 100); the actor moves to distance 9 of it: the food
    // repositions inside the arena box and the target length grows by exactly
    // one that tick.
    let mut sim = Sim::new(arena_400(), Actor::new(86, 100, Heading::Right), Food {
        x: 100,
        y: 100,
    });
    let ate = sim.tick(10, 5, false, false, false, false);
    assert_eq!(sim.actor.x, 91);
    assert!(ate);
    assert_eq!(sim.actor.target_length, 2);
    assert!(-200 <= sim.food.x && sim.food.x <= 200);
    assert!(-200 <= sim.food.y && sim.food.y <= 200);
}

#[test]
fn no_contact_leaves_food_and_target_alone() {
    let mut sim = Sim::new(arena_400(), Actor::new(85, 100, Heading::Right), Food {
        x: 100,
        y: 100,
    });
    // Post-move distance is exactly 10: no contact.
    let ate = sim.tick(10, 5, false, false, false, false);
    assert_eq!(sim.actor.x, 90);
    assert!(!ate);
    assert_eq!(sim.actor.target_length, 1);
    assert_eq!((sim.food.x, sim.food.y), (100, 100));
}

#[test]
fn relocation_lands_inside_offset_box() {
    // A one-point interior box pins the relocation exactly.
    let b = Boundary::new(500, -300, 2, 2, 1);
    let mut food = Food { x: 0, y: 0 };
    food.relocate(&b);
    assert!(499 <= food.x && food.x <= 501);
    assert!(-301 <= food.y && food.y <= -299);
    // A zero-extent-after-halving box centered off origin.
    let b = Boundary::new(7, 9, 1, 1, 0);
    food.relocate(&b);
    assert_eq!((food.x, food.y), (7, 9));
}

#[test]
fn score_is_target_length_less_one() {
    let mut sim = quiet_sim();
    assert_eq!(sim.actor.target_length, 1);
    assert_eq!(sim.score(), 0);
    sim.actor.target_length = 5;
    assert_eq!(sim.score(), 4);
}

#[test]
fn wall_rects_frame_the_arena() {
    let b = arena_400();
    let w = wall_rects(&b);
    assert_eq!((w.left.width, w.left.height, w.left.x, w.left.y), (5, 400, -200, 0));
    assert_eq!((w.top.width, w.top.height, w.top.x, w.top.y), (405, 5, 0, 200));
    assert_eq!((w.right.width, w.right.height, w.right.x, w.right.y), (5, 400, 200, 0));
    assert_eq!((w.bottom.width, w.bottom.height, w.bottom.x, w.bottom.y), (405, 5, 0, -200));
}

#[test]
fn wall_rects_follow_the_center() {
    let b = Boundary::new(50, -30, 100, 60, 4);
    let w = wall_rects(&b);
    assert_eq!((w.left.x, w.left.y), (0, -30));
    assert_eq!((w.right.x, w.right.y), (100, -30));
    assert_eq!((w.top.x, w.top.y), (50, 0));
    assert_eq!((w.bottom.x, w.bottom.y), (50, -60));
}
