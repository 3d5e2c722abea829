//! A signed grid position with a sentinel "inactive" value.
//!
//! A coordinate is active when both components are at least zero; any
//! negative component marks the sentinel used for unplaced food and for
//! body slots that are not in play. The render form maps the sentinel to
//! `(0, 0)`, which the renderer treats as "skip".

use vstd::prelude::*;

verus! {

#[derive(Debug, Clone, Copy, PartialEq, Eq, Structural)]
pub struct Coords {
    pub x: i16,
    pub y: i16,
}

/// An active coordinate names a real grid cell: both components are >= 0.
pub open spec fn spec_is_active(c: Coords) -> bool {
    c.x >= 0 && c.y >= 0
}

/// The render form of a coordinate: `(0, 0)` for the inactive sentinel,
/// the unsigned equivalent otherwise.
pub open spec fn spec_to_unsigned(c: Coords) -> (u16, u16) {
    if c.x <= -1 || c.y <= -1 {
        (0u16, 0u16)
    } else {
        (c.x as u16, c.y as u16)
    }
}

impl Coords {
    pub fn new(x: i16, y: i16) -> (r: Self)
        ensures
            r == (Coords { x, y }),
    {
        Coords { x, y }
    }

    /// Converts x and y in the given `Coords` struct to unsigned.
    /// If either value is negative (which is expected when e.g. the snake's
    /// body parts are inactive), then x and y are both reported as 0, an
    /// off-limits render position.
    pub fn to_unsigned_tuple(&self) -> (r: (u16, u16))
        ensures
            r == spec_to_unsigned(*self),
            !spec_is_active(*self) ==> r == (0u16, 0u16),
            spec_is_active(*self) ==> r == (self.x as u16, self.y as u16),
    {
        if self.x <= -1 || self.y <= -1 {
            (0, 0)
        } else {
            (self.x as u16, self.y as u16)
        }
    }

    /// Returns true if the given x and y are both greater than -1.
    pub fn is_active(&self) -> (r: bool)
        ensures
            r == spec_is_active(*self),
            !r <==> (self.x <= -1 || self.y <= -1),
    {
        self.x > -1 && self.y > -1
    }
}

impl Default for Coords {
    /// The default coordinate is the inactive sentinel `(-1, -1)`.
    fn default() -> (r: Self)
        ensures
            r == (Coords { x: -1i16, y: -1i16 }),
            !spec_is_active(r),
    {
        Coords::new(-1, -1)
    }
}

/// The render form never exposes the sentinel: an inactive coordinate maps
/// to `(0, 0)`, and an active one to the direct unsigned cast of its parts.
pub proof fn lemma_render_form(c: Coords)
    ensures
        !spec_is_active(c) ==> spec_to_unsigned(c) == (0u16, 0u16),
        spec_is_active(c) ==> spec_to_unsigned(c) == (c.x as u16, c.y as u16),
        spec_to_unsigned(c).0 <= 0x7fff && spec_to_unsigned(c).1 <= 0x7fff,
{
}

} // verus!
