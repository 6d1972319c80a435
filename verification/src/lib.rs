//! A commit-reveal game engine for a hidden-information grid game.
//!
//! One party (the gardener) secretly places plants on a 5x5 grid and commits
//! to the layout with a hash; the other party (the creature) advances across
//! the grid one row per turn. After each move the gardener proves what the
//! entered cell holds, and a verification gate checks the proof against the
//! stored commitment before damage is resolved.

use vstd::prelude::*;

pub mod codec;
pub mod damage;
pub mod engine;
pub mod garden;
pub mod hashing;
pub mod moon;
pub mod movement;
pub mod plant;
pub mod prover;
pub mod session;

verus! {

/// Side length of the square garden grid.
pub const GRID_SIZE: u32 = 5;

} // verus!
