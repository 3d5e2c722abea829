//! Turns a polled input buffer into a direction change. The caller reads
//! the raw bytes from the terminal; this module only decides. Reversal of
//! the current direction is silently ignored: a snake cannot go back on
//! itself within a single tick.

use crate::state::directions::{spec_opposite, Directions};
use crate::state::gamestate::GameState;
use vstd::prelude::*;

verus! {

pub struct InputHandler {}

/// The direction an arrow-key escape sequence requests, if any: the bytes
/// ESC, '[', then one of 'A' (up), 'B' (down), 'C' (right), 'D' (left).
pub open spec fn spec_requested_direction(buffer: Seq<u8>) -> Option<Directions>
    recommends
        buffer.len() == 3,
{
    if buffer[0] == 0x1b && buffer[1] == 0x5b {
        if buffer[2] == 0x44 {
            Some(Directions::Left)
        } else if buffer[2] == 0x43 {
            Some(Directions::Right)
        } else if buffer[2] == 0x41 {
            Some(Directions::Up)
        } else if buffer[2] == 0x42 {
            Some(Directions::Down)
        } else {
            None
        }
    } else {
        None
    }
}

/// The snake's direction after one polled buffer: a requested direction
/// turns the snake unless it would reverse the current direction; any
/// other buffer (including an empty read) leaves the direction alone.
pub open spec fn spec_direction_after_input(current: Directions, buffer: Seq<u8>) -> Directions {
    match spec_requested_direction(buffer) {
        Some(d) => if current == spec_opposite(d) {
            current
        } else {
            d
        },
        None => current,
    }
}

impl InputHandler {
    /// Applies one polled input buffer to the game state. Only the snake's
    /// direction can change; everything else comes back as it went in.
    pub fn apply_input(state: GameState, buffer: &[u8; 3]) -> (r: GameState)
        ensures
            r.snake.direction == spec_direction_after_input(state.snake.direction, buffer@),
            r.snake.positions == state.snake.positions,
            r.snake.x_x == state.snake.x_x,
            r.food == state.food,
            r.arena == state.arena,
            r.score == state.score,
            r.c_dimensions == state.c_dimensions,
    {
        let mut state = state;

        if buffer[0] == 0x1b && buffer[1] == 0x5b {
            // Left Arrow
            if buffer[2] == 0x44 {
                state.snake.set_direction(Directions::Left);
            } else if buffer[2] == 0x43 {
                // Right Arrow
                state.snake.set_direction(Directions::Right);
            } else if buffer[2] == 0x41 {
                // Up Arrow
                state.snake.set_direction(Directions::Up);
            } else if buffer[2] == 0x42 {
                // Down Arrow
                state.snake.set_direction(Directions::Down);
            }
        }

        state
    }
}

} // verus!
