//! Layout of the text in a page's content stream.
//!
//! A content stream arrives as a sequence of operators with typed operands;
//! the page's fonts arrive as reference-resolved dictionary data.  From
//! those this crate produces the page's text: an ordered list of text
//! objects, each a list of fragments carrying a placement transform, font
//! name, font size, line height and per-character glyph placements with
//! exact advance widths.  Reading the document's bytes, rasterizing glyphs
//! and putting pixels on a surface are left to the callers.

pub mod differences;
pub mod encoding;
pub mod errors;
pub mod fixnum;
pub mod font;
pub mod glyph_names;
pub mod graphics;
pub mod laws;
pub mod matrix;
pub mod object;
pub mod text;
pub mod type1;
