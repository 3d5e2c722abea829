//! Food: a small fixed bank of coordinates, at most one of which is in
//! play. Placement is rejection sampling inside the arena bounds, avoiding
//! the snake body, with a bounded number of attempts.

use crate::engine::coords::{spec_is_active, Coords};
use crate::error::SnakeError;
use crate::random::random::Random;
use crate::state::arena::{spec_max_ux, spec_max_uy, Arena};
use crate::state::gamestate::GameState;
use crate::state::snake::spec_occupies;
use crate::state::snake_coords::SnakeCoords;
use vstd::prelude::*;

verus! {

/// How many times placement retries before reporting that no free cell
/// was found.
pub const FOOD_PLACEMENT_ATTEMPTS: usize = 1000;

#[derive(Debug)]
pub struct Food {
    /// The food bank; a sentinel coordinate marks an unused slot. Only
    /// index 0 is populated in the current design.
    pub positions: [Coords; 3],
}

/// An active food item sits on the cell `c`.
pub open spec fn spec_food_at(f: Food, c: Coords) -> bool {
    exists|i: int| 0 <= i < f.positions@.len() && spec_is_active(f.positions@[i])
        && f.positions@[i] == c
}

/// The whole draw rectangle food may land in — columns 2 to `max_x - 1`,
/// rows 4 to `max_y - 1` — is free of the snake body `s`.
pub open spec fn spec_draw_rect_free(s: Seq<SnakeCoords>, max_x: u16, max_y: u16) -> bool {
    forall|x: i16, y: i16|
        2 <= x <= max_x - 1 && 4 <= y <= max_y - 1 ==> !spec_occupies(s, x, y)
}

impl Food {
    /// True if an active food item sits on `c`.
    pub fn is_at(&self, c: Coords) -> (r: bool)
        ensures
            r == spec_food_at(*self, c),
    {
        let mut i: usize = 0;
        while i < 3
            invariant
                0 <= i <= 3,
                self.positions@.len() == 3,
                forall|j: int|
                    0 <= j < i ==> !(spec_is_active(self.positions@[j]) && self.positions@[j]
                        == c),
            decreases 3 - i,
        {
            let p = self.positions[i];
            if p.is_active() && p == c {
                return true;
            }
            i = i + 1;
        }
        false
    }

    /// Draws a random cell inside the arena bounds (with the border margin
    /// the level layout leaves) until one free of the snake body comes up,
    /// and places the single food item there. Everything else in the state
    /// is unchanged. Errs when the arena has no positions yet, when `count`
    /// exceeds the food bank, when the arena is too small to hold food, or
    /// when no free cell was found within the bounded number of attempts;
    /// when the whole draw rectangle is free of the snake, the very first
    /// draw is accepted, so success is certain whatever the clock gave.
    #[verifier::loop_isolation(false)]
    pub fn new_random(state: GameState, count: i8) -> (r: Result<GameState, SnakeError>)
        ensures
            r matches Ok(g) ==> {
                &&& g.snake == state.snake
                &&& g.arena == state.arena
                &&& g.score == state.score
                &&& g.c_dimensions == state.c_dimensions
                &&& g.food.positions@.len() == 3
                &&& g.food.positions@[1] == state.food.positions@[1]
                &&& g.food.positions@[2] == state.food.positions@[2]
                &&& 2 <= g.food.positions@[0].x <= spec_max_ux(state.arena.positions@) - 1
                &&& 4 <= g.food.positions@[0].y <= spec_max_uy(state.arena.positions@) - 1
                &&& !spec_occupies(
                    state.snake.positions@,
                    g.food.positions@[0].x,
                    g.food.positions@[0].y,
                )
            },
            state.arena.positions@.len() == 0 ==> r is Err,
            count < 0 || count > 3 ==> r is Err,
            state.arena.positions@.len() >= 1 && (spec_max_ux(state.arena.positions@) < 3
                || spec_max_uy(state.arena.positions@) < 5) ==> r is Err,
            state.arena.positions@.len() >= 1 && 0 <= count <= 3 && spec_max_ux(
                state.arena.positions@,
            ) >= 3 && spec_max_uy(state.arena.positions@) >= 5 && spec_draw_rect_free(
                state.snake.positions@,
                spec_max_ux(state.arena.positions@),
                spec_max_uy(state.arena.positions@),
            ) ==> r is Ok,
    {
        let ghost st0 = state;
        let mut state = state;

        let bounds = match Arena::max_arena_coords(&state.arena) {
            Ok(t) => t,
            Err(e) => {
                return Err(e);
            },
        };
        let cols = bounds.0;
        let rows = bounds.1;

        if count < 0 || count as usize > 3 {
            return Err(SnakeError::SnengineError(None));
        }

        // The draw ranges below need at least one column at or right of 2
        // and one row at or below 4.
        if cols < 3 || rows < 5 {
            return Err(SnakeError::SnengineError(None));
        }

        let mut attempts: usize = 0;
        while attempts < FOOD_PLACEMENT_ATTEMPTS
            invariant
                state == st0,
                attempts > 0 ==> !spec_draw_rect_free(
                    st0.snake.positions@,
                    spec_max_ux(st0.arena.positions@),
                    spec_max_uy(st0.arena.positions@),
                ),
            decreases FOOD_PLACEMENT_ATTEMPTS - attempts,
        {
            let mut col_rng = Random::time_seed();
            let rand_cols = col_rng.get(2, (cols - 1) as u32) as i16;
            let mut row_rng = Random::time_seed();
            let rand_rows = row_rng.get(4, (rows - 1) as u32) as i16;

            // Tried to spawn food on top of part of the snake: draw again.
            if !state.snake.occupies(rand_cols, rand_rows) {
                let mut item = state.food.positions[0];
                item.x = rand_cols;
                item.y = rand_rows;
                state.food.positions[0] = item;
                return Ok(state);
            }

            proof {
                // The draw landed inside the rectangle and on the snake,
                // so the rectangle is not free of it.
                assert(2 <= rand_cols <= spec_max_ux(st0.arena.positions@) - 1);
                assert(4 <= rand_rows <= spec_max_uy(st0.arena.positions@) - 1);
                assert(spec_occupies(st0.snake.positions@, rand_cols, rand_rows));
            }
            attempts = attempts + 1;
        }

        // No free cell found within the attempt budget.
        Err(SnakeError::SnengineError(None))
    }
}

} // verus!
