//! The snake itself: an ordered sequence of body segments, the direction the
//! next step will take, and a terminal death flag.
//!
//! Stepping is strict follow-the-leader: the head advances one cell and every
//! other segment takes its predecessor's place. Growth appends behind the
//! current tail, extrapolating from the tail's facing. Self-collision compares
//! the head against every other active segment.

use crate::engine::coords::{spec_to_unsigned, Coords};
use crate::engine::graphics::{spec_snake_glyph, Graphics};
use crate::engine::unicode::Unicode;
use crate::state::directions::{spec_opposite, Directions};
use crate::state::snake_coords::{spec_sentinel_segment, SnakeCoords};
use vstd::prelude::*;

verus! {

#[derive(Debug)]
pub struct Snake {
    /// The position of each block making up the body of the snake.
    /// The head is index 0.
    pub positions: Vec<SnakeCoords>,

    /// Holds the direction the snake's head is currently facing.
    pub direction: Directions,

    /// Snake is dead x_x
    pub x_x: bool,
}

/// Whether the head can advance one cell along `d` without leaving the grid.
pub open spec fn spec_step_in_bounds(c: Coords, d: Directions) -> bool {
    match d {
        Directions::Up => c.y > i16::MIN,
        Directions::Down => c.y < i16::MAX,
        Directions::Left => c.x > i16::MIN,
        Directions::Right => c.x < i16::MAX,
        Directions::Unset => true,
    }
}

/// The coordinate one cell along `d` from `c`; `Unset` moves nowhere.
/// Up is one row less, down one row more, left one column less, right one
/// column more.
pub open spec fn spec_offset_coords(c: Coords, d: Directions) -> Coords {
    match d {
        Directions::Up => Coords { x: c.x, y: (c.y - 1) as i16 },
        Directions::Down => Coords { x: c.x, y: (c.y + 1) as i16 },
        Directions::Left => Coords { x: (c.x - 1) as i16, y: c.y },
        Directions::Right => Coords { x: (c.x + 1) as i16, y: c.y },
        Directions::Unset => c,
    }
}

/// The head after one step along `d`: moved one cell, now facing `d`,
/// keeping its active flag.
pub open spec fn spec_stepped_head(head: SnakeCoords, d: Directions) -> SnakeCoords {
    SnakeCoords { coords: spec_offset_coords(head.coords, d), facing: d, active: head.active }
}

/// The whole body after one step along `d`: the head advances, and every
/// segment at index i > 0 becomes what its predecessor was, coordinate,
/// facing and active flag alike. The length never changes.
pub open spec fn spec_stepped(s: Seq<SnakeCoords>, d: Directions) -> Seq<SnakeCoords> {
    Seq::new(s.len(), |i: int| if i == 0 { spec_stepped_head(s[0], d) } else { s[i - 1] })
}

/// The coordinate one cell behind `c` for a segment facing `facing`: an
/// up-facing tail grows downward, and so on; `Unset` extrapolates nowhere.
pub open spec fn spec_behind_coords(c: Coords, facing: Directions) -> Coords {
    match facing {
        Directions::Up => Coords { x: c.x, y: (c.y + 1) as i16 },
        Directions::Down => Coords { x: c.x, y: (c.y - 1) as i16 },
        Directions::Left => Coords { x: (c.x + 1) as i16, y: c.y },
        Directions::Right => Coords { x: (c.x - 1) as i16, y: c.y },
        Directions::Unset => c,
    }
}

/// The segment growth appends behind `tail`: one cell behind it, inheriting
/// the tail's facing and active flag.
pub open spec fn spec_grown_segment(tail: SnakeCoords) -> SnakeCoords {
    SnakeCoords {
        coords: spec_behind_coords(tail.coords, tail.facing),
        facing: tail.facing,
        active: tail.active,
    }
}

/// The body after growing by `amount` segments, appended one at a time
/// behind the current tail.
pub open spec fn spec_grown(s: Seq<SnakeCoords>, amount: nat) -> Seq<SnakeCoords>
    decreases amount,
{
    if amount == 0 {
        s
    } else {
        let prev = spec_grown(s, (amount - 1) as nat);
        prev.push(spec_grown_segment(prev.last()))
    }
}

/// Whether a trail of `amount` cells behind `tail` stays on the i16 grid.
pub open spec fn spec_grow_in_bounds(tail: SnakeCoords, amount: int) -> bool {
    match tail.facing {
        Directions::Up => tail.coords.y + amount <= i16::MAX,
        Directions::Down => tail.coords.y - amount >= i16::MIN,
        Directions::Left => tail.coords.x + amount <= i16::MAX,
        Directions::Right => tail.coords.x - amount >= i16::MIN,
        Directions::Unset => true,
    }
}

/// The head has hit the body: some active segment other than the head
/// shares the head's coordinate. Only active segments count, so two
/// sentinel segments never register a collision.
pub open spec fn spec_hit_self(s: Seq<SnakeCoords>) -> bool {
    exists|i: int| 1 <= i < s.len() && s[i].active && s[i].coords == s[0].coords
}

/// A segment counts towards the active length when it is in play and has
/// a facing.
pub open spec fn spec_is_live(p: SnakeCoords) -> bool {
    p.active && p.facing != Directions::Unset
}

/// How many segments of the body are live.
pub open spec fn spec_live_count(s: Seq<SnakeCoords>) -> nat
    decreases s.len(),
{
    if s.len() == 0 {
        0
    } else {
        spec_live_count(s.drop_last()) + if spec_is_live(s.last()) {
            1nat
        } else {
            0nat
        }
    }
}

/// Whether the segment at index `i` is blanked when the body is cleared
/// from the screen: everything but never-placed slots past the head.
pub open spec fn spec_keep_for_clear(i: int, p: SnakeCoords) -> bool {
    !(p.facing == Directions::Unset && !p.active && i > 0)
}

/// The render cells a clearing pass blanks, in body order.
pub open spec fn spec_clear_cells(s: Seq<SnakeCoords>) -> Seq<(u16, u16)>
    decreases s.len(),
{
    if s.len() == 0 {
        Seq::empty()
    } else {
        let prefix = spec_clear_cells(s.drop_last());
        if spec_keep_for_clear(s.len() - 1, s.last()) {
            prefix.push(spec_to_unsigned(s.last().coords))
        } else {
            prefix
        }
    }
}

/// The draw list for the body, in body order: each segment whose render
/// form is on screen (neither axis 0), with the glyph picked from its
/// predecessor's facing and its own; the head is drawn from its own facing
/// alone.
pub open spec fn spec_render_cells(s: Seq<SnakeCoords>) -> Seq<(u16, u16, Unicode)>
    decreases s.len(),
{
    if s.len() == 0 {
        Seq::empty()
    } else {
        let prefix = spec_render_cells(s.drop_last());
        let i = s.len() - 1;
        let p = s.last();
        let cell = spec_to_unsigned(p.coords);
        if cell.0 == 0 || cell.1 == 0 {
            prefix
        } else {
            let prev = if i >= 1 {
                s[i - 1].facing
            } else {
                p.facing
            };
            prefix.push((cell.0, cell.1, spec_snake_glyph(prev, p.facing)))
        }
    }
}

/// A snake occupies a cell when any of its segments sits on it.
pub open spec fn spec_occupies(s: Seq<SnakeCoords>, x: i16, y: i16) -> bool {
    exists|i: int| 0 <= i < s.len() && s[i].coords.x == x && s[i].coords.y == y
}

impl Snake {
    /// A fresh snake: one sentinel segment, no direction, alive. The first
    /// tick of a new game replaces the sentinel with the arena's centre.
    pub fn new() -> (r: Self)
        ensures
            r.positions@.len() == 1,
            r.positions@[0] == spec_sentinel_segment(),
            r.direction == Directions::Unset,
            r.x_x == false,
    {
        Snake {
            positions: vec![SnakeCoords::default()],
            direction: Directions::Unset,
            x_x: false,
        }
    }

    /// Steps the snake one block in the direction it is facing. The head
    /// advances one cell and takes the current direction as its facing;
    /// every other segment becomes a copy of its predecessor, so inactive
    /// segments stay inactive. The body length is unchanged.
    pub fn step(&mut self) -> (r: &mut Snake)
        requires
            old(self).positions@.len() >= 1,
            spec_step_in_bounds(old(self).positions@[0].coords, old(self).direction),
        ensures
            r.positions@ == spec_stepped(old(self).positions@, old(self).direction),
            r.positions@.len() == old(self).positions@.len(),
            r.direction == old(self).direction,
            r.x_x == old(self).x_x,
            *final(self) == *final(r),
    {
        let current_head = self.positions[0];
        let mut head = current_head;
        head.facing = self.direction;
        match self.direction {
            Directions::Up => {
                head.coords.y = head.coords.y - 1;
            }
            Directions::Down => {
                head.coords.y = head.coords.y + 1;
            }
            Directions::Left => {
                head.coords.x = head.coords.x - 1;
            }
            Directions::Right => {
                head.coords.x = head.coords.x + 1;
            }
            Directions::Unset => {}
        }

        let mut new_positions: Vec<SnakeCoords> = Vec::new();
        new_positions.push(head);

        let mut i: usize = 1;
        while i < self.positions.len()
            invariant
                *self == *old(self),
                self.positions@.len() >= 1,
                1 <= i <= self.positions@.len(),
                new_positions@.len() == i,
                new_positions@[0] == spec_stepped_head(
                    old(self).positions@[0],
                    old(self).direction,
                ),
                forall|j: int| 1 <= j < i ==> new_positions@[j] == old(self).positions@[j - 1],
            decreases self.positions@.len() - i,
        {
            let seg = self.positions[i - 1];
            new_positions.push(seg);
            i = i + 1;
        }

        self.positions = new_positions;
        proof {
            assert(self.positions@ =~= spec_stepped(old(self).positions@, old(self).direction));
        }
        self
    }

    /// Grows the snake by `amount` blocks. Each new block is appended one
    /// cell behind the current tail, extrapolated from the tail's facing,
    /// and inherits that facing; existing segments are never relocated.
    /// Growing by zero is a no-op.
    pub fn grow(&mut self, amount: usize) -> (r: &mut Snake)
        requires
            old(self).positions@.len() >= 1,
            old(self).positions@.len() + amount <= usize::MAX,
            spec_grow_in_bounds(old(self).positions@.last(), amount as int),
        ensures
            r.positions@ == spec_grown(old(self).positions@, amount as nat),
            r.positions@.len() == old(self).positions@.len() + amount,
            forall|i: int|
                0 <= i < old(self).positions@.len() ==> r.positions@[i] == old(
                    self,
                ).positions@[i],
            r.direction == old(self).direction,
            r.x_x == old(self).x_x,
            *final(self) == *final(r),
    {
        let ghost s0 = old(self).positions@;
        let mut a: usize = 0;
        while a < amount
            invariant
                a <= amount,
                s0 == old(self).positions@,
                s0.len() >= 1,
                s0.len() + amount <= usize::MAX,
                spec_grow_in_bounds(s0.last(), amount as int),
                self.positions@ == spec_grown(s0, a as nat),
                self.direction == old(self).direction,
                self.x_x == old(self).x_x,
            decreases amount - a,
        {
            proof {
                lemma_grown_tail(s0, a as nat, amount as int);
            }
            let idx = self.positions.len() - 1;
            let previous_tail = self.positions[idx];

            let mut new_position = previous_tail;
            match previous_tail.facing {
                Directions::Up => {
                    new_position.coords.y = previous_tail.coords.y + 1;
                }
                Directions::Down => {
                    new_position.coords.y = previous_tail.coords.y - 1;
                }
                Directions::Left => {
                    new_position.coords.x = previous_tail.coords.x + 1;
                }
                Directions::Right => {
                    new_position.coords.x = previous_tail.coords.x - 1;
                }
                Directions::Unset => {}
            }

            self.positions.push(new_position);
            a = a + 1;
        }
        proof {
            lemma_grow_appends(s0, amount as nat);
        }
        self
    }

    /// The render cells a caller blanks to erase the body from the screen,
    /// in body order: every segment except never-placed slots past the head.
    /// The head's slot is always included so the starting piece is cleared.
    pub fn clear(&self) -> (r: Vec<(u16, u16)>)
        ensures
            r@ == spec_clear_cells(self.positions@),
    {
        let mut out: Vec<(u16, u16)> = Vec::new();
        let mut i: usize = 0;
        while i < self.positions.len()
            invariant
                0 <= i <= self.positions@.len(),
                out@ == spec_clear_cells(self.positions@.subrange(0, i as int)),
            decreases self.positions@.len() - i,
        {
            let p = self.positions[i];
            let keep = !(matches!(p.facing, Directions::Unset) && !p.active && i > 0);
            if keep {
                let cell = p.coords.to_unsigned_tuple();
                out.push(cell);
            }
            proof {
                let sub = self.positions@.subrange(0, i + 1);
                assert(sub.drop_last() =~= self.positions@.subrange(0, i as int));
                assert(sub.last() == self.positions@[i as int]);
            }
            i = i + 1;
        }
        proof {
            assert(self.positions@.subrange(0, self.positions@.len() as int) =~= self.positions@);
        }
        out
    }

    /// The number of live (active, with a facing) blocks in the snake, or
    /// `None` when there is none.
    pub fn active_length(&self) -> (r: Option<usize>)
        ensures
            spec_live_count(self.positions@) == 0 ==> r is None,
            spec_live_count(self.positions@) > 0 ==> r == Some(
                spec_live_count(self.positions@) as usize,
            ),
    {
        proof {
            lemma_live_count_le_len(self.positions@);
        }
        let mut count: usize = 0;
        let mut i: usize = 0;
        while i < self.positions.len()
            invariant
                0 <= i <= self.positions@.len(),
                count == spec_live_count(self.positions@.subrange(0, i as int)),
                count <= i,
            decreases self.positions@.len() - i,
        {
            let p = self.positions[i];
            if p.active && !matches!(p.facing, Directions::Unset) {
                count = count + 1;
            }
            proof {
                let sub = self.positions@.subrange(0, i + 1);
                assert(sub.drop_last() =~= self.positions@.subrange(0, i as int));
                assert(sub.last() == self.positions@[i as int]);
            }
            i = i + 1;
        }
        proof {
            assert(self.positions@.subrange(0, self.positions@.len() as int) =~= self.positions@);
        }
        if count > 0 {
            Some(count)
        } else {
            None
        }
    }

    /// True if the snake has at least one live block.
    pub fn is_active(&self) -> (r: bool)
        ensures
            r == (spec_live_count(self.positions@) > 0),
    {
        self.active_length().is_some()
    }

    /// True if the snake's head block has hit any active part of its body.
    /// A single-segment snake can never hit itself.
    pub fn has_hit_self(&self) -> (r: bool)
        requires
            self.positions@.len() >= 1,
        ensures
            r == spec_hit_self(self.positions@),
    {
        let head = self.positions[0];
        let mut found = false;
        let mut i: usize = 1;
        while i < self.positions.len()
            invariant
                self.positions@.len() >= 1,
                1 <= i <= self.positions@.len() || i == 1,
                head == self.positions@[0],
                found == (exists|j: int|
                    1 <= j < i && self.positions@[j].active && self.positions@[j].coords
                        == self.positions@[0].coords),
            decreases self.positions@.len() - i,
        {
            let p = self.positions[i];
            if p.active && p.coords == head.coords {
                found = true;
                proof {
                    assert(self.positions@[i as int].active && self.positions@[i as int].coords
                        == self.positions@[0].coords);
                }
            }
            i = i + 1;
        }
        found
    }

    /// Marks the head block as in play. Called once a movement direction
    /// exists: a directed snake is moving, so its head must be active.
    pub fn activate_head(&mut self)
        requires
            old(self).positions@.len() >= 1,
        ensures
            final(self).direction == old(self).direction,
            final(self).x_x == old(self).x_x,
            old(self).direction != Directions::Unset ==> final(self).positions@ == old(
                self,
            ).positions@.update(
                0,
                (SnakeCoords {
                    active: true,
                    ..old(self).positions@[0]
                }),
            ),
            old(self).direction == Directions::Unset ==> *final(self) == *old(self),
    {
        if !matches!(self.direction, Directions::Unset) {
            let mut head = self.positions[0];
            head.active = true;
            self.positions.set(0, head);
        }
    }

    /// Applies a requested direction change, refusing a 180-degree
    /// reversal: setting the opposite of the current direction is a no-op.
    pub fn set_direction(&mut self, d: Directions)
        ensures
            final(self).positions == old(self).positions,
            final(self).x_x == old(self).x_x,
            final(self).direction == (if old(self).direction == spec_opposite(d) {
                old(self).direction
            } else {
                d
            }),
    {
        let blocked = self.direction == d.opposite();
        if !blocked {
            self.direction = d;
        }
    }

    /// The draw list for the body: the render cell and glyph of every
    /// on-screen segment, corner pieces and pipes chosen by the corner
    /// table. The caller draws each glyph at its cell.
    pub fn render_cells(&self) -> (r: Vec<(u16, u16, Unicode)>)
        ensures
            r@ == spec_render_cells(self.positions@),
    {
        let mut out: Vec<(u16, u16, Unicode)> = Vec::new();
        let mut i: usize = 0;
        while i < self.positions.len()
            invariant
                0 <= i <= self.positions@.len(),
                out@ == spec_render_cells(self.positions@.subrange(0, i as int)),
            decreases self.positions@.len() - i,
        {
            let p = self.positions[i];
            let cell = p.coords.to_unsigned_tuple();
            if !(cell.0 == 0 || cell.1 == 0) {
                let previous_block_facing = if i >= 1 {
                    self.positions[i - 1].facing
                } else {
                    p.facing
                };
                let glyph = Graphics::snake_glyph(&previous_block_facing, &p.facing);
                out.push((cell.0, cell.1, glyph));
            }
            proof {
                let sub = self.positions@.subrange(0, i + 1);
                assert(sub.drop_last() =~= self.positions@.subrange(0, i as int));
                assert(sub.last() == self.positions@[i as int]);
            }
            i = i + 1;
        }
        proof {
            assert(self.positions@.subrange(0, self.positions@.len() as int) =~= self.positions@);
        }
        out
    }

    /// True if any segment of the body sits on the cell `(x, y)`.
    pub fn occupies(&self, x: i16, y: i16) -> (r: bool)
        ensures
            r == spec_occupies(self.positions@, x, y),
    {
        let mut i: usize = 0;
        while i < self.positions.len()
            invariant
                0 <= i <= self.positions@.len(),
                forall|j: int|
                    0 <= j < i ==> !(self.positions@[j].coords.x == x
                        && self.positions@[j].coords.y == y),
            decreases self.positions@.len() - i,
        {
            let p = self.positions[i];
            if p.coords.x == x && p.coords.y == y {
                return true;
            }
            i = i + 1;
        }
        false
    }
}

impl Default for Snake {
    fn default() -> (r: Self)
        ensures
            r.positions@.len() == 1,
            r.positions@[0] == spec_sentinel_segment(),
            r.direction == Directions::Unset,
            r.x_x == false,
    {
        Self::new()
    }
}

/// A live count never exceeds the body length.
proof fn lemma_live_count_le_len(s: Seq<SnakeCoords>)
    ensures
        spec_live_count(s) <= s.len(),
    decreases s.len(),
{
    if s.len() > 0 {
        lemma_live_count_le_len(s.drop_last());
    }
}

/// Growth only appends: the grown body keeps every existing segment, the
/// head among them, at its place, and is longer by exactly `amount`;
/// growing by zero changes nothing.
pub proof fn lemma_grow_appends(s: Seq<SnakeCoords>, amount: nat)
    ensures
        spec_grown(s, 0) == s,
        spec_grown(s, amount).len() == s.len() + amount,
        forall|i: int| 0 <= i < s.len() ==> spec_grown(s, amount)[i] == s[i],
    decreases amount,
{
    if amount > 0 {
        lemma_grow_appends(s, (amount - 1) as nat);
    }
}

/// Where the tail of a grown body sits: growth inherits the original
/// tail's facing and active flag, and after `a` appended segments the tail
/// has moved `a` cells behind the original tail, with no wrap-around as
/// long as a trail of `amount >= a` cells stays on the grid.
pub proof fn lemma_grown_tail(s: Seq<SnakeCoords>, a: nat, amount: int)
    requires
        s.len() >= 1,
        a <= amount,
        spec_grow_in_bounds(s.last(), amount),
    ensures
        spec_grown(s, a).len() == s.len() + a,
        spec_grown(s, a).last().facing == s.last().facing,
        spec_grown(s, a).last().active == s.last().active,
        s.last().facing == Directions::Up ==> spec_grown(s, a).last().coords.x == s.last().coords.x
            && spec_grown(s, a).last().coords.y == s.last().coords.y + a,
        s.last().facing == Directions::Down ==> spec_grown(s, a).last().coords.x
            == s.last().coords.x && spec_grown(s, a).last().coords.y == s.last().coords.y - a,
        s.last().facing == Directions::Left ==> spec_grown(s, a).last().coords.y
            == s.last().coords.y && spec_grown(s, a).last().coords.x == s.last().coords.x + a,
        s.last().facing == Directions::Right ==> spec_grown(s, a).last().coords.y
            == s.last().coords.y && spec_grown(s, a).last().coords.x == s.last().coords.x - a,
        s.last().facing == Directions::Unset ==> spec_grown(s, a).last().coords
            == s.last().coords,
    decreases a,
{
    if a > 0 {
        lemma_grown_tail(s, (a - 1) as nat, amount);
    }
}

/// Stepping a single-segment snake moves only the head, by exactly one
/// cell in the step direction, and sets its facing to that direction;
/// there are no other segments to move.
pub proof fn lemma_step_single_segment(s: Seq<SnakeCoords>, d: Directions)
    requires
        s.len() == 1,
        d != Directions::Unset,
        spec_step_in_bounds(s[0].coords, d),
    ensures
        spec_stepped(s, d).len() == 1,
        spec_stepped(s, d)[0].facing == d,
        spec_stepped(s, d)[0].active == s[0].active,
        d == Directions::Up ==> spec_stepped(s, d)[0].coords.x == s[0].coords.x && spec_stepped(
            s,
            d,
        )[0].coords.y == s[0].coords.y - 1,
        d == Directions::Down ==> spec_stepped(s, d)[0].coords.x == s[0].coords.x && spec_stepped(
            s,
            d,
        )[0].coords.y == s[0].coords.y + 1,
        d == Directions::Left ==> spec_stepped(s, d)[0].coords.y == s[0].coords.y && spec_stepped(
            s,
            d,
        )[0].coords.x == s[0].coords.x - 1,
        d == Directions::Right ==> spec_stepped(s, d)[0].coords.y == s[0].coords.y && spec_stepped(
            s,
            d,
        )[0].coords.x == s[0].coords.x + 1,
{
}

/// Stepping a column snake (thirteen active segments stacked at x = 20,
/// y = 10..22, all facing up): the head moves to (20, 9) and every other
/// segment takes over its predecessor's coordinate and facing.
pub proof fn lemma_step_column(s: Seq<SnakeCoords>)
    requires
        s.len() == 13,
        forall|i: int|
            0 <= i < s.len() ==> s[i] == (SnakeCoords {
                coords: Coords { x: 20i16, y: (10 + i) as i16 },
                facing: Directions::Up,
                active: true,
            }),
    ensures
        spec_stepped(s, Directions::Up).len() == 13,
        spec_stepped(s, Directions::Up)[0].coords == (Coords { x: 20i16, y: 9i16 }),
        spec_stepped(s, Directions::Up)[0].facing == Directions::Up,
        forall|i: int| 1 <= i < s.len() ==> spec_stepped(s, Directions::Up)[i] == s[i - 1],
{
    assert(s[0] == (SnakeCoords {
        coords: Coords { x: 20i16, y: 10i16 },
        facing: Directions::Up,
        active: true,
    }));
}

/// Growing a snake of one active segment lays a straight trail behind it:
/// after `grow(amount)` from a single segment at (x0, y0) facing right,
/// segment k sits at (x0 - k, y0), faces right and is active, for every
/// k up to `amount`; the original segment is untouched.
pub proof fn lemma_grow_right_trail(s: Seq<SnakeCoords>, amount: nat)
    requires
        s.len() == 1,
        s[0].facing == Directions::Right,
        s[0].active,
        s[0].coords.x - amount >= i16::MIN,
    ensures
        spec_grown(s, amount).len() == 1 + amount,
        spec_grown(s, amount)[0] == s[0],
        forall|k: int|
            1 <= k <= amount ==> spec_grown(s, amount)[k] == (SnakeCoords {
                coords: Coords { x: (s[0].coords.x - k) as i16, y: s[0].coords.y },
                facing: Directions::Right,
                active: true,
            }),
    decreases amount,
{
    if amount > 0 {
        lemma_grow_right_trail(s, (amount - 1) as nat);
    }
}

/// A single-segment snake has never hit itself, wherever it sits.
pub proof fn lemma_single_segment_no_self_hit(s: Seq<SnakeCoords>)
    requires
        s.len() == 1,
    ensures
        !spec_hit_self(s),
{
}

} // verus!
