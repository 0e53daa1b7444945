//! Text as sequences of characters: decoding, scanning and numbers.

pub mod chars;
pub mod number;
pub mod scan;
