//! The library-level error type. Game outcomes (hitting a wall, hitting
//! yourself) are ordinary state, not errors; this type covers genuine
//! failures such as an arena queried before it has any positions, or food
//! placement finding no free cell.

use crate::engine::snengine_error::SnengineError;
use vstd::prelude::*;

verus! {

pub enum SnakeError {
    SnengineError(Option<SnengineError>),
}

} // verus!
