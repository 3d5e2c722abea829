//! Game state: the snake and its segments, movement directions, the arena,
//! food placement, and the aggregate per-tick state.

pub mod arena;
pub mod coords;
pub mod directions;
pub mod food;
pub mod gamestate;
pub mod snake;
pub mod snake_coords;
