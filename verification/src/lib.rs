//! Reader for the binary layout of a TrueType/OpenType font: the sfnt table
//! directory, the maximum-profile (`maxp`) table, and per-glyph outline
//! records of the `glyf` table, decoded big-endian from an in-memory byte
//! source. Every parsing operation is fallible: short input, a missing
//! table, an out-of-range seek and a composite glyph each surface as an
//! error value, never as a panic.

pub mod config;
pub mod cursor;
pub mod directory;
pub mod encoding;
pub mod error;
pub mod flag_bit;
pub mod font;
pub mod glyph;
pub mod maxp;
