//! Core logic of a bounded 2D arena simulation: an actor that walks in
//! axis-aligned headings and turns at the arena walls, a segmented follower
//! chain that traces the actor's path with a one-tick lag, a food pickup that
//! relocates on contact and grows the chain, and a score projection.
//!
//! Coordinates are integers; the host that drives the ticks converts its own
//! time deltas into an integer displacement per tick.

use vstd::prelude::*;

pub mod actor;
pub mod boundary;
pub mod chain;
pub mod food;
pub mod heading;
pub mod rng;
pub mod sim;

verus! {

/// Largest magnitude allowed for a boundary extent or center coordinate.
pub const MAX_EXTENT: i64 = 0x4000_0000;

/// Largest magnitude allowed for the per-tick displacement and the actor's
/// half-size offset.
pub const MAX_PARAM: i64 = 0x4000_0000;

/// Largest magnitude allowed for an entity coordinate; wide enough that a
/// coordinate plus a displacement, an offset or a growth unit never leaves
/// `i64`.
pub const MAX_COORD: i64 = 0x4_0000_0000_0000;

/// A coordinate pair small enough for the arena arithmetic.
pub open spec fn coord_ok(x: int, y: int) -> bool {
    &&& -MAX_COORD <= x <= MAX_COORD
    &&& -MAX_COORD <= y <= MAX_COORD
}

} // verus!
