//! A verified model of the I Ching divination procedure.
//!
//! A hexagram is a stack of six solid or broken lines.  Its identity
//! (Unicode glyph, traditional King Wen number, Chinese name) is derived
//! from the lines through a 6-bit binary encoding and a fixed 64-entry
//! table.  A generator simulates the traditional three-coin method and
//! derives a pair of hexagrams ("present" and "future") from one shared
//! sequence of eighteen coin tosses.

pub mod generator;
pub mod hexagram;
pub mod model;
pub mod table;
