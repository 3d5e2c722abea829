//! Movement, collision and growth engine for a terminal snake game.
//!
//! The library holds the verified game logic: the snake body as an ordered
//! sequence of segments, the step and growth algorithms, the self- and
//! wall-collision tests, food placement, and the glyph tables used when the
//! body is rendered. Terminal plumbing (raw mode, non-blocking input, cursor
//! addressing) lives outside the library and hands it plain values.

pub mod engine;
pub mod error;
pub mod random;
pub mod state;
