//! A grid position that also records a facing. Kept alongside the plain
//! engine coordinate: only the snake needs position-plus-facing, and older
//! callers still hold this form.

use crate::state::directions::Directions;
use vstd::prelude::*;

verus! {

#[derive(Debug, Copy, Clone)]
pub struct Coords {
    pub x: i16,
    pub y: i16,
    pub facing: Directions,
}

/// The render form: `(0, 0)` when either component is negative, the
/// unsigned equivalent otherwise.
pub open spec fn spec_to_unsigned_facing(c: Coords) -> (u16, u16) {
    if c.x <= -1 || c.y <= -1 {
        (0u16, 0u16)
    } else {
        (c.x as u16, c.y as u16)
    }
}

impl Coords {
    fn new(x: i16, y: i16, facing: Directions) -> (r: Self)
        ensures
            r == (Coords { x, y, facing }),
    {
        Coords { x, y, facing }
    }

    /// Converts x and y in the given `Coords` struct to unsigned.
    /// If either value is negative (which is expected when e.g. the snake's
    /// body parts are inactive), then x and y are both reported as 0, an
    /// off-limits render position.
    pub fn to_unsigned_tuple(&self) -> (r: (u16, u16))
        ensures
            r == spec_to_unsigned_facing(*self),
    {
        if self.x <= -1 || self.y <= -1 {
            (0, 0)
        } else {
            (self.x as u16, self.y as u16)
        }
    }
}

impl Default for Coords {
    /// The default is the inactive sentinel with no facing.
    fn default() -> (r: Self)
        ensures
            r == (Coords { x: -1i16, y: -1i16, facing: Directions::Unset }),
    {
        Coords::new(-1, -1, Directions::Unset)
    }
}

} // verus!
