//! One body cell of the snake: a grid position, the direction the cell was
//! facing when it last advanced (used only to pick straight or corner glyphs
//! at render time), and an explicit active flag.

use crate::engine::coords::Coords;
use crate::state::directions::Directions;
use vstd::prelude::*;

verus! {

#[derive(Debug, Copy, Clone, PartialEq, Eq, Structural)]
pub struct SnakeCoords {
    pub coords: Coords,
    pub facing: Directions,
    pub active: bool,
}

/// The sentinel segment a fresh snake is born with: the inactive coordinate,
/// no facing, not in play.
pub open spec fn spec_sentinel_segment() -> SnakeCoords {
    SnakeCoords { coords: Coords { x: -1i16, y: -1i16 }, facing: Directions::Unset, active: false }
}

impl SnakeCoords {
    pub fn new(x: i16, y: i16, facing: Directions, active: bool) -> (r: Self)
        ensures
            r == (SnakeCoords { coords: Coords { x, y }, facing, active }),
    {
        SnakeCoords { coords: Coords::new(x, y), facing, active }
    }
}

impl Default for SnakeCoords {
    fn default() -> (r: Self)
        ensures
            r == spec_sentinel_segment(),
    {
        SnakeCoords::new(-1, -1, Directions::Unset, false)
    }
}

} // verus!
