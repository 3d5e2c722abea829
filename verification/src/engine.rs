//! Value types and render-side helpers: grid coordinates, glyphs, drawing
//! validity, input decoding and the engine's error type.

pub mod coords;
pub mod graphics;
pub mod inputhandler;
pub mod snengine_error;
pub mod unicode;
pub mod unicode_character;
