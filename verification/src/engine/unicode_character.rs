//! An older, smaller glyph set kept for compatibility: the double-line
//! box-drawing pieces and the food circle, without the light arcs.

use vstd::prelude::*;

verus! {

#[derive(Clone, Copy, Debug, PartialEq, Eq, Structural)]
pub enum UnicodeCharacter {
    HeavyCircleWithCircleInside,
    BoxDoubleHorizontal,
    BoxDoubleVertical,
    BoxDoubleDownAndRight,
    BoxDoubleDownAndLeft,
    BoxDoubleUpAnRight,
    BoxDoubleUpAndLeft,
}

/// The character each glyph prints as.
pub open spec fn spec_unicode_character_char(u: UnicodeCharacter) -> char {
    match u {
        UnicodeCharacter::HeavyCircleWithCircleInside => '\u{2B57}',
        UnicodeCharacter::BoxDoubleHorizontal => '\u{2550}',
        UnicodeCharacter::BoxDoubleVertical => '\u{2551}',
        UnicodeCharacter::BoxDoubleDownAndRight => '\u{2554}',
        UnicodeCharacter::BoxDoubleDownAndLeft => '\u{2557}',
        UnicodeCharacter::BoxDoubleUpAnRight => '\u{255A}',
        UnicodeCharacter::BoxDoubleUpAndLeft => '\u{255D}',
    }
}

impl UnicodeCharacter {
    pub fn to_char(&self) -> (r: char)
        ensures
            r == spec_unicode_character_char(*self),
    {
        match self {
            UnicodeCharacter::HeavyCircleWithCircleInside => '\u{2B57}', // ⭗
            UnicodeCharacter::BoxDoubleHorizontal => '\u{2550}',         // ═
            UnicodeCharacter::BoxDoubleVertical => '\u{2551}',           // ║
            UnicodeCharacter::BoxDoubleDownAndRight => '\u{2554}',       // ╔
            UnicodeCharacter::BoxDoubleDownAndLeft => '\u{2557}',        // ╗
            UnicodeCharacter::BoxDoubleUpAnRight => '\u{255A}',          // ╚
            UnicodeCharacter::BoxDoubleUpAndLeft => '\u{255D}',          // ╝
        }
    }
}

} // verus!
