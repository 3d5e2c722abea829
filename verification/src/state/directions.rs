//! The four movement directions, plus `Unset` for a snake that has not
//! started moving. `opposite` is the single place that knows which pairs
//! of directions are 180-degree reversals of each other.

use vstd::prelude::*;

verus! {

#[derive(Debug, Clone, Copy, PartialEq, Eq, Structural)]
pub enum Directions {
    Unset,
    Up,
    Down,
    Right,
    Left,
}

/// The reversal of a direction: `Left` and `Right` are mutually opposite,
/// as are `Up` and `Down`; `Unset` has no reversal.
pub open spec fn spec_opposite(d: Directions) -> Directions {
    match d {
        Directions::Unset => Directions::Unset,
        Directions::Up => Directions::Down,
        Directions::Down => Directions::Up,
        Directions::Right => Directions::Left,
        Directions::Left => Directions::Right,
    }
}

impl Directions {
    /// The direction a snake moving along `self` must not turn into:
    /// setting the opposite of the current direction is a no-op.
    pub fn opposite(&self) -> (r: Directions)
        ensures
            r == spec_opposite(*self),
    {
        match self {
            Directions::Unset => Directions::Unset,
            Directions::Up => Directions::Down,
            Directions::Down => Directions::Up,
            Directions::Right => Directions::Left,
            Directions::Left => Directions::Right,
        }
    }
}

/// Reversal is symmetric and self-inverse: taking the opposite twice gives
/// the direction back, and no moving direction is its own opposite.
pub proof fn lemma_opposite_involution(d: Directions)
    ensures
        spec_opposite(spec_opposite(d)) == d,
        d != Directions::Unset ==> spec_opposite(d) != d,
{
}

} // verus!
