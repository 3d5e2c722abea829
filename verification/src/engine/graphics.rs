//! Render-side logic with no terminal attached: which draw targets are
//! valid (both cursor axes are 1-indexed, so 0 is out of bounds), and which
//! glyph a snake block is drawn with. The caller performs the actual
//! cursor-addressed output.

use crate::engine::snengine_error::SnengineError;
use crate::engine::unicode::Unicode;
use crate::state::directions::Directions;
use vstd::prelude::*;
use vstd::string::StringExecFns;

verus! {

pub struct Graphics;

/// The decimal digit character for `d` in 0..10.
pub open spec fn spec_digit_char(d: int) -> char {
    if d == 0 {
        '0'
    } else if d == 1 {
        '1'
    } else if d == 2 {
        '2'
    } else if d == 3 {
        '3'
    } else if d == 4 {
        '4'
    } else if d == 5 {
        '5'
    } else if d == 6 {
        '6'
    } else if d == 7 {
        '7'
    } else if d == 8 {
        '8'
    } else {
        '9'
    }
}

/// The decimal representation of a non-negative number, most significant
/// digit first.
pub open spec fn spec_decimal(n: int) -> Seq<char>
    recommends
        n >= 0,
    decreases n,
{
    if n < 10 {
        seq![spec_digit_char(n)]
    } else {
        spec_decimal(n / 10) + seq![spec_digit_char(n % 10)]
    }
}

/// The message reported for a draw aimed at column `x`, row `y` when either
/// is 0.
pub open spec fn spec_cannot_draw_msg(x: int, y: int) -> Seq<char> {
    "Cannot draw at "@ + spec_decimal(x) + ", "@ + spec_decimal(y)
}

/// The single-character string for a decimal digit.
fn digit_str(d: u16) -> (r: &'static str)
    requires
        d < 10,
    ensures
        r@ == seq![spec_digit_char(d as int)],
{
    if d == 0 {
        proof {
            reveal_strlit("0");
            assert("0"@ =~= seq![spec_digit_char(0)]);
        }
        "0"
    } else if d == 1 {
        proof {
            reveal_strlit("1");
            assert("1"@ =~= seq![spec_digit_char(1)]);
        }
        "1"
    } else if d == 2 {
        proof {
            reveal_strlit("2");
            assert("2"@ =~= seq![spec_digit_char(2)]);
        }
        "2"
    } else if d == 3 {
        proof {
            reveal_strlit("3");
            assert("3"@ =~= seq![spec_digit_char(3)]);
        }
        "3"
    } else if d == 4 {
        proof {
            reveal_strlit("4");
            assert("4"@ =~= seq![spec_digit_char(4)]);
        }
        "4"
    } else if d == 5 {
        proof {
            reveal_strlit("5");
            assert("5"@ =~= seq![spec_digit_char(5)]);
        }
        "5"
    } else if d == 6 {
        proof {
            reveal_strlit("6");
            assert("6"@ =~= seq![spec_digit_char(6)]);
        }
        "6"
    } else if d == 7 {
        proof {
            reveal_strlit("7");
            assert("7"@ =~= seq![spec_digit_char(7)]);
        }
        "7"
    } else if d == 8 {
        proof {
            reveal_strlit("8");
            assert("8"@ =~= seq![spec_digit_char(8)]);
        }
        "8"
    } else {
        proof {
            reveal_strlit("9");
            assert("9"@ =~= seq![spec_digit_char(9)]);
        }
        "9"
    }
}

/// The decimal text of a number, built digit by digit.
fn u16_string(x: u16) -> (r: String)
    ensures
        r@ == spec_decimal(x as int),
    decreases x,
{
    if x < 10 {
        let s = digit_str(x);
        let r = s.to_owned();
        proof {
            assert(r@ =~= spec_decimal(x as int));
        }
        r
    } else {
        let mut s = u16_string(x / 10);
        let d = digit_str(x % 10);
        s.append(d);
        proof {
            assert(s@ =~= spec_decimal(x as int));
        }
        s
    }
}

/// The corner table: the glyph for one body block, chosen from the previous
/// block's facing and the current block's. The four 90-degree turn pairs map
/// to the four corner pieces, straight horizontal movement to the horizontal
/// pipe, and every other pair (vertical movement and unset facings) to the
/// vertical pipe. The choice depends on the two facings alone.
pub open spec fn spec_snake_glyph(previous: Directions, current: Directions) -> Unicode {
    match (previous, current) {
        (Directions::Down, Directions::Left) | (
            Directions::Right,
            Directions::Up,
        ) => Unicode::BoxDoubleDownAndRight,
        (Directions::Up, Directions::Left) | (
            Directions::Right,
            Directions::Down,
        ) => Unicode::BoxDoubleUpAndRight,
        (Directions::Down, Directions::Right) | (
            Directions::Left,
            Directions::Up,
        ) => Unicode::BoxDoubleDownAndLeft,
        (Directions::Left, Directions::Down) | (
            Directions::Up,
            Directions::Right,
        ) => Unicode::BoxDoubleUpAndLeft,
        (Directions::Left, Directions::Left) | (
            Directions::Right,
            Directions::Right,
        ) => Unicode::BoxDoubleHorizontal,
        _ => Unicode::BoxDoubleVertical,
    }
}

impl Graphics {
    /// A draw target is valid when neither coordinate is 0; cursor
    /// addressing is 1-indexed, so 0 means a terminal smaller than assumed.
    /// An invalid target is reported as an error naming the bad cell.
    pub fn is_valid(x: u16, y: u16) -> (r: Result<bool, SnengineError>)
        ensures
            x != 0 && y != 0 ==> r == Ok::<bool, SnengineError>(true),
            x == 0 || y == 0 ==> (r matches Err(e) && e@ == spec_cannot_draw_msg(
                x as int,
                y as int,
            )),
    {
        if x == 0 || y == 0 {
            let mut m = "Cannot draw at ".to_owned();
            let xs = u16_string(x);
            m.append(xs.as_str());
            m.append(", ");
            let ys = u16_string(y);
            m.append(ys.as_str());
            proof {
                assert(m@ =~= spec_cannot_draw_msg(x as int, y as int));
            }
            return Err(SnengineError::new(m.as_str()));
        }
        Ok(true)
    }

    /// Picks the glyph to draw one snake block with; see
    /// [`spec_snake_glyph`] for the table.
    pub fn snake_glyph(previous: &Directions, current: &Directions) -> (r: Unicode)
        ensures
            r == spec_snake_glyph(*previous, *current),
    {
        match (previous, current) {
            (Directions::Down, Directions::Left) | (
                Directions::Right,
                Directions::Up,
            ) => Unicode::BoxDoubleDownAndRight,
            (Directions::Up, Directions::Left) | (
                Directions::Right,
                Directions::Down,
            ) => Unicode::BoxDoubleUpAndRight,
            (Directions::Down, Directions::Right) | (
                Directions::Left,
                Directions::Up,
            ) => Unicode::BoxDoubleDownAndLeft,
            (Directions::Left, Directions::Down) | (
                Directions::Up,
                Directions::Right,
            ) => Unicode::BoxDoubleUpAndLeft,
            (Directions::Left, Directions::Left) | (
                Directions::Right,
                Directions::Right,
            ) => Unicode::BoxDoubleHorizontal,
            _ => Unicode::BoxDoubleVertical,
        }
    }
}

} // verus!
