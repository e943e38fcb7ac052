//! Character property tables derived from the Unicode character database.

pub mod grapheme;
pub mod sentence;
