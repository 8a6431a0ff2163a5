//! Formatting a decoded class as text.

pub mod ferro;
pub mod opcode;
pub mod output;
pub mod text;


pub use output::{Glyph, OutputPiece};

pub use ferro::{FerroFormatter, Formatter};
