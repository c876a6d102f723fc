use vstd::prelude::*;

pub mod game;
pub mod obstacle;
pub mod player;

verus! {

/// Width of the playfield, in cells.
pub const SCREEN_WIDTH: i32 = 80;

/// Height of the playfield, in cells; a player below it has fallen out.
pub const SCREEN_HEIGHT: i32 = 50;

} // verus!
