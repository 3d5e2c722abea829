//! The aggregate game state, owned by the game loop and threaded through
//! pure transformations: the snake, the food bank, the arena, the score and
//! the cached terminal dimensions. Each per-tick transformation takes the
//! state by value and returns the next state.

use crate::engine::coords::Coords;
use crate::error::SnakeError;
use crate::state::arena::{spec_max_ux, spec_max_uy, spec_wall_at, Arena};
use crate::state::food::{spec_food_at, Food};
use crate::state::snake::{spec_hit_self, Snake};
use crate::state::snake_coords::{spec_sentinel_segment, SnakeCoords};
use vstd::prelude::*;

verus! {

#[derive(Debug)]
pub struct GameState {
    pub snake: Snake,
    pub food: Food,
    pub arena: Arena,
    pub score: i16,
    /// Console dimensions, cached at game start.
    pub c_dimensions: Coords,
}

impl GameState {
    /// A fresh game: a sentinel snake, an empty food bank, no arena yet,
    /// no score, and unknown terminal dimensions.
    pub fn new() -> (r: Self)
        ensures
            r.snake.positions@.len() == 1,
            r.snake.positions@[0] == spec_sentinel_segment(),
            r.snake.direction == crate::state::directions::Directions::Unset,
            r.snake.x_x == false,
            r.food.positions@.len() == 3,
            forall|i: int| 0 <= i < 3 ==> r.food.positions@[i] == (Coords { x: -1i16, y: -1i16 }),
            r.arena.positions@.len() == 0,
            r.score == 0,
            r.c_dimensions == (Coords { x: 0i16, y: 0i16 }),
    {
        let r = GameState {
            snake: Snake::new(),
            food: Food {
                positions: [Coords::new(-1, -1), Coords::new(-1, -1), Coords::new(-1, -1)],
            },
            arena: Arena::new(),
            score: 0,
            c_dimensions: Coords::new(0, 0),
        };
        r
    }

    /// Starts a new game's snake off at the arena's centre: the head is
    /// teleported there, and nothing else changes. Errs when the arena has
    /// no positions yet.
    pub fn place_snake_middle(self) -> (r: Result<GameState, SnakeError>)
        requires
            self.snake.positions@.len() >= 1,
        ensures
            self.arena.positions@.len() == 0 ==> r is Err,
            self.arena.positions@.len() >= 1 ==> (r matches Ok(g) && {
                let mx = (spec_max_ux(self.arena.positions@) + 1) as int / 2;
                let my = (spec_max_uy(self.arena.positions@) + 1) as int / 2;
                &&& g.snake.positions@ == self.snake.positions@.update(
                    0,
                    (SnakeCoords {
                        coords: Coords { x: mx as i16, y: my as i16 },
                        ..self.snake.positions@[0]
                    }),
                )
                &&& g.snake.direction == self.snake.direction
                &&& g.snake.x_x == self.snake.x_x
                &&& g.food == self.food
                &&& g.arena == self.arena
                &&& g.score == self.score
                &&& g.c_dimensions == self.c_dimensions
            }),
    {
        proof {
            crate::state::arena::lemma_max_bounds(self.arena.positions@);
        }
        let middle = match Arena::middle_coords(&self.arena) {
            Ok(t) => t,
            Err(e) => {
                return Err(e);
            },
        };
        let mut state = self;
        let mut head = state.snake.positions[0];
        head.coords.x = middle.0 as i16;
        head.coords.y = middle.1 as i16;
        state.snake.positions.set(0, head);
        Ok(state)
    }

    /// One tick's collision pass, run after the snake has stepped. Hitting
    /// a wall or the snake's own body sets the death flag; the head resting
    /// on an active food cell scores one point and is reported back, so the
    /// caller can grow the snake and place new food. Nothing else changes.
    pub fn resolve_collisions(self) -> (r: (GameState, bool))
        requires
            self.snake.positions@.len() >= 1,
            self.score < i16::MAX,
        ensures
            r.1 == spec_food_at(self.food, self.snake.positions@[0].coords),
            r.0.score == self.score + if r.1 {
                1int
            } else {
                0int
            },
            r.0.snake.x_x == (self.snake.x_x || spec_wall_at(
                self.arena.positions@,
                self.snake.positions@[0].coords,
            ) || spec_hit_self(self.snake.positions@)),
            r.0.snake.positions == self.snake.positions,
            r.0.snake.direction == self.snake.direction,
            r.0.food == self.food,
            r.0.arena == self.arena,
            r.0.c_dimensions == self.c_dimensions,
    {
        let mut state = self;
        let head = state.snake.positions[0];

        let hit_wall = state.arena.contains_wall(head.coords);
        let hit_self = state.snake.has_hit_self();
        if hit_wall || hit_self {
            state.snake.x_x = true;
        }

        let eaten = state.food.is_at(head.coords);
        if eaten {
            state.score = state.score + 1;
        }

        (state, eaten)
    }
}

impl Default for GameState {
    fn default() -> (r: Self)
        ensures
            r.snake.positions@.len() == 1,
            r.snake.positions@[0] == spec_sentinel_segment(),
            r.arena.positions@.len() == 0,
            r.score == 0,
    {
        Self::new()
    }
}

} // verus!
