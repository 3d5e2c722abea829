//! The arena: the wall cells of the one supported level, a rectangular
//! border with rounded corners computed from the terminal dimensions, plus
//! queries for the arena's extreme coordinates and centre.

use crate::engine::coords::{spec_to_unsigned, Coords};
use crate::engine::unicode::Unicode;
use crate::error::SnakeError;
use crate::state::gamestate::GameState;
use vstd::prelude::*;

verus! {

#[derive(Debug)]
pub struct Arena {
    /// Wall cells: each position paired with the glyph drawn there.
    pub positions: Vec<(Coords, Unicode)>,
}

/// The largest render-form column among the walls.
pub open spec fn spec_max_ux(s: Seq<(Coords, Unicode)>) -> u16
    recommends
        s.len() >= 1,
    decreases s.len(),
{
    if s.len() <= 1 {
        spec_to_unsigned(s[0].0).0
    } else {
        let rest = spec_max_ux(s.drop_last());
        let last = spec_to_unsigned(s.last().0).0;
        if last > rest {
            last
        } else {
            rest
        }
    }
}

/// The largest render-form row among the walls.
pub open spec fn spec_max_uy(s: Seq<(Coords, Unicode)>) -> u16
    recommends
        s.len() >= 1,
    decreases s.len(),
{
    if s.len() <= 1 {
        spec_to_unsigned(s[0].0).1
    } else {
        let rest = spec_max_uy(s.drop_last());
        let last = spec_to_unsigned(s.last().0).1;
        if last > rest {
            last
        } else {
            rest
        }
    }
}

/// Render forms come from i16 coordinates, so neither maximum can exceed
/// the i16 range.
pub proof fn lemma_max_bounds(s: Seq<(Coords, Unicode)>)
    ensures
        spec_max_ux(s) <= 0x7fff,
        spec_max_uy(s) <= 0x7fff,
    decreases s.len(),
{
    if s.len() > 1 {
        lemma_max_bounds(s.drop_last());
    }
}

/// A wall sits on the cell `c`.
pub open spec fn spec_wall_at(s: Seq<(Coords, Unicode)>, c: Coords) -> bool {
    exists|i: int| 0 <= i < s.len() && s[i].0 == c
}

/// The four rounded corners of the level border, for a terminal folded to
/// `cols` by `rows` half-cells: top row 3 to bottom row `rows - 1`, left
/// column 1 to right column `cols - 1`.
pub open spec fn spec_corner_walls(cols: int, rows: int) -> Seq<(Coords, Unicode)> {
    seq![
        (Coords { x: (cols - 1) as i16, y: 3i16 }, Unicode::BoxLightArcDownAndLeft),
        (Coords { x: (cols - 1) as i16, y: (rows - 1) as i16 }, Unicode::BoxLightArcUpAndLeft),
        (Coords { x: 1i16, y: (rows - 1) as i16 }, Unicode::BoxLightArcUpAndRight),
        (Coords { x: 1i16, y: 3i16 }, Unicode::BoxLightArcDownAndRight),
    ]
}

/// The top and bottom border lines from column `i` rightwards, one pair of
/// cells per column.
pub open spec fn spec_horiz_walls(cols: int, rows: int, i: int) -> Seq<(Coords, Unicode)>
    decreases cols - 1 - i,
{
    if i >= cols - 1 {
        Seq::empty()
    } else {
        seq![
            (Coords { x: i as i16, y: 3i16 }, Unicode::BoxLightHorizontal),
            (Coords { x: i as i16, y: (rows - 1) as i16 }, Unicode::BoxLightHorizontal),
        ] + spec_horiz_walls(cols, rows, i + 1)
    }
}

/// The right and left border lines from row `i` downwards, one pair of
/// cells per row.
pub open spec fn spec_vert_walls(cols: int, rows: int, i: int) -> Seq<(Coords, Unicode)>
    decreases rows - 1 - i,
{
    if i >= rows - 1 {
        Seq::empty()
    } else {
        seq![
            (Coords { x: (cols - 1) as i16, y: i as i16 }, Unicode::BoxLightVertical),
            (Coords { x: 1i16, y: i as i16 }, Unicode::BoxLightVertical),
        ] + spec_vert_walls(cols, rows, i + 1)
    }
}

/// Every wall cell of the level border, in the order they are laid down:
/// corners, then the top and bottom lines, then the sides.
pub open spec fn spec_level_1_walls(cols: int, rows: int) -> Seq<(Coords, Unicode)> {
    spec_corner_walls(cols, rows) + spec_horiz_walls(cols, rows, 2) + spec_vert_walls(
        cols,
        rows,
        4,
    )
}

impl Arena {
    pub fn new() -> (r: Self)
        ensures
            r.positions@.len() == 0,
    {
        Arena { positions: Vec::new() }
    }

    /// Lays down the border of the one supported level, computed from the
    /// cached terminal dimensions folded in half, and appends it to the
    /// arena's positions. Nothing else in the state changes.
    pub fn create_level_1(state: GameState) -> (r: GameState)
        requires
            state.c_dimensions.x >= 0,
            state.c_dimensions.y >= 0,
        ensures
            r.arena.positions@ == state.arena.positions@ + spec_level_1_walls(
                state.c_dimensions.x / 2,
                state.c_dimensions.y / 2,
            ),
            r.snake == state.snake,
            r.food == state.food,
            r.score == state.score,
            r.c_dimensions == state.c_dimensions,
    {
        let mut state = state;
        let cols: i16 = state.c_dimensions.x / 2;
        let rows: i16 = state.c_dimensions.y / 2;

        let mut walls: Vec<(Coords, Unicode)> = Vec::new();

        // Corners
        walls.push((Coords::new(cols - 1, 3), Unicode::BoxLightArcDownAndLeft));
        walls.push((Coords::new(cols - 1, rows - 1), Unicode::BoxLightArcUpAndLeft));
        walls.push((Coords::new(1, rows - 1), Unicode::BoxLightArcUpAndRight));
        walls.push((Coords::new(1, 3), Unicode::BoxLightArcDownAndRight));

        proof {
            assert(walls@ =~= spec_corner_walls(cols as int, rows as int));
        }

        let ghost with_horiz = spec_corner_walls(cols as int, rows as int) + spec_horiz_walls(
            cols as int,
            rows as int,
            2,
        );

        // Top and bottom lines
        let mut i: i16 = 2;
        while i < cols - 1
            invariant
                2 <= i <= 0x4000,
                0 <= cols <= 0x4000,
                0 <= rows <= 0x4000,
                walls@ + spec_horiz_walls(cols as int, rows as int, i as int) == with_horiz,
            decreases cols - 1 - i,
        {
            walls.push((Coords::new(i, 3), Unicode::BoxLightHorizontal));
            walls.push((Coords::new(i, rows - 1), Unicode::BoxLightHorizontal));
            proof {
                assert(walls@ + spec_horiz_walls(cols as int, rows as int, i + 1) =~= with_horiz);
            }
            i = i + 1;
        }
        proof {
            assert(walls@ =~= with_horiz);
        }

        let ghost with_vert = with_horiz + spec_vert_walls(cols as int, rows as int, 4);

        // Right and left lines
        let mut i: i16 = 4;
        while i < rows - 1
            invariant
                4 <= i <= 0x4000,
                0 <= cols <= 0x4000,
                0 <= rows <= 0x4000,
                walls@ + spec_vert_walls(cols as int, rows as int, i as int) == with_vert,
            decreases rows - 1 - i,
        {
            walls.push((Coords::new(cols - 1, i), Unicode::BoxLightVertical));
            walls.push((Coords::new(1, i), Unicode::BoxLightVertical));
            proof {
                assert(walls@ + spec_vert_walls(cols as int, rows as int, i + 1) =~= with_vert);
            }
            i = i + 1;
        }
        proof {
            assert(walls@ =~= with_vert);
            assert(walls@ =~= spec_level_1_walls(cols as int, rows as int));
        }

        state.arena.positions.append(&mut walls);
        state
    }

    /// The centre of the arena, as render coordinates: half the extreme
    /// column and row, rounded up. Errs when the arena has no positions.
    pub fn middle_coords(arena: &Arena) -> (r: Result<(u16, u16), SnakeError>)
        ensures
            arena.positions@.len() == 0 ==> r is Err,
            arena.positions@.len() >= 1 ==> r == Ok::<(u16, u16), SnakeError>(
                (
                    (((spec_max_ux(arena.positions@) + 1) as int / 2) as u16),
                    (((spec_max_uy(arena.positions@) + 1) as int / 2) as u16),
                ),
            ),
    {
        proof {
            lemma_max_bounds(arena.positions@);
        }
        let x_max = match Arena::max_x(arena) {
            Ok(v) => v,
            Err(e) => {
                return Err(e);
            },
        };
        let y_max = match Arena::max_y(arena) {
            Ok(v) => v,
            Err(e) => {
                return Err(e);
            },
        };

        let x_middle = (x_max + 1) / 2;
        let y_middle = (y_max + 1) / 2;

        Ok((x_middle, y_middle))
    }

    /// The extreme render coordinates among the walls. Errs when the arena
    /// has no positions. Both values fit the i16 grid.
    pub fn max_arena_coords(arena: &Arena) -> (r: Result<(u16, u16), SnakeError>)
        ensures
            arena.positions@.len() == 0 ==> r is Err,
            arena.positions@.len() >= 1 ==> r == Ok::<(u16, u16), SnakeError>(
                (spec_max_ux(arena.positions@), spec_max_uy(arena.positions@)),
            ),
            r matches Ok(t) ==> t.0 <= 0x7fff && t.1 <= 0x7fff,
    {
        proof {
            lemma_max_bounds(arena.positions@);
        }
        let max_x = match Arena::max_x(arena) {
            Ok(v) => v,
            Err(e) => {
                return Err(e);
            },
        };
        let max_y = match Arena::max_y(arena) {
            Ok(v) => v,
            Err(e) => {
                return Err(e);
            },
        };

        Ok((max_x, max_y))
    }

    fn max_x(arena: &Arena) -> (r: Result<u16, SnakeError>)
        ensures
            arena.positions@.len() == 0 ==> r == Err::<u16, SnakeError>(
                SnakeError::SnengineError(None),
            ),
            arena.positions@.len() >= 1 ==> r == Ok::<u16, SnakeError>(
                spec_max_ux(arena.positions@),
            ),
    {
        if arena.positions.len() == 0 {
            return Err(SnakeError::SnengineError(None));
        }
        let first = arena.positions[0].0.to_unsigned_tuple();
        let mut best: u16 = first.0;
        let mut i: usize = 1;
        proof {
            assert(arena.positions@.subrange(0, 1)[0] == arena.positions@[0]);
        }
        while i < arena.positions.len()
            invariant
                1 <= i <= arena.positions@.len(),
                best == spec_max_ux(arena.positions@.subrange(0, i as int)),
            decreases arena.positions@.len() - i,
        {
            let cell = arena.positions[i].0.to_unsigned_tuple();
            if cell.0 > best {
                best = cell.0;
            }
            proof {
                let sub = arena.positions@.subrange(0, i + 1);
                assert(sub.drop_last() =~= arena.positions@.subrange(0, i as int));
                assert(sub.last() == arena.positions@[i as int]);
            }
            i = i + 1;
        }
        proof {
            assert(arena.positions@.subrange(0, arena.positions@.len() as int)
                =~= arena.positions@);
        }
        Ok(best)
    }

    fn max_y(arena: &Arena) -> (r: Result<u16, SnakeError>)
        ensures
            arena.positions@.len() == 0 ==> r == Err::<u16, SnakeError>(
                SnakeError::SnengineError(None),
            ),
            arena.positions@.len() >= 1 ==> r == Ok::<u16, SnakeError>(
                spec_max_uy(arena.positions@),
            ),
    {
        if arena.positions.len() == 0 {
            return Err(SnakeError::SnengineError(None));
        }
        let first = arena.positions[0].0.to_unsigned_tuple();
        let mut best: u16 = first.1;
        let mut i: usize = 1;
        proof {
            assert(arena.positions@.subrange(0, 1)[0] == arena.positions@[0]);
        }
        while i < arena.positions.len()
            invariant
                1 <= i <= arena.positions@.len(),
                best == spec_max_uy(arena.positions@.subrange(0, i as int)),
            decreases arena.positions@.len() - i,
        {
            let cell = arena.positions[i].0.to_unsigned_tuple();
            if cell.1 > best {
                best = cell.1;
            }
            proof {
                let sub = arena.positions@.subrange(0, i + 1);
                assert(sub.drop_last() =~= arena.positions@.subrange(0, i as int));
                assert(sub.last() == arena.positions@[i as int]);
            }
            i = i + 1;
        }
        proof {
            assert(arena.positions@.subrange(0, arena.positions@.len() as int)
                =~= arena.positions@);
        }
        Ok(best)
    }

    /// True if any wall cell sits on `c`.
    pub fn contains_wall(&self, c: Coords) -> (r: bool)
        ensures
            r == spec_wall_at(self.positions@, c),
    {
        let mut i: usize = 0;
        while i < self.positions.len()
            invariant
                0 <= i <= self.positions@.len(),
                forall|j: int| 0 <= j < i ==> self.positions@[j].0 != c,
            decreases self.positions@.len() - i,
        {
            let p = self.positions[i].0;
            if p == c {
                return true;
            }
            i = i + 1;
        }
        false
    }
}

impl Default for Arena {
    fn default() -> (r: Self)
        ensures
            r.positions@.len() == 0,
    {
        Arena::new()
    }
}

} // verus!
