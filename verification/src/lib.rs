//! A small screen-oriented text editor core: a line buffer, a cursor, a
//! scrolling viewport and the key dispatch that ties them together.

use vstd::prelude::*;

pub mod buffer;
pub mod editor;
pub mod key;
pub mod laws;
pub mod screen;
pub mod state;
pub mod text;
pub mod viewport;

verus! {

/// A column (`x`) and a row (`y`), both counted from zero.
#[derive(Clone, Copy, Debug, PartialEq, Eq, Structural)]
pub struct Position {
    pub x: usize,
    pub y: usize,
}

impl Default for Position {
    fn default() -> (p: Position)
        ensures
            p.x == 0,
            p.y == 0,
    {
        Position { x: 0, y: 0 }
    }
}

} // verus!
