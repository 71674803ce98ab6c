//! Reads PSF (PC Screen Font) console bitmap fonts from an in-memory byte
//! buffer and exposes per-glyph, per-pixel access.
//!
//! The caller hands [`Font::parse_font_data`] a raw byte buffer; on success a
//! [`Font`] descriptor gives the glyph geometry and [`Font::get_char`] yields
//! a [`Glyph`] whose [`Glyph::get`] answers bit-level pixel queries.

pub mod bytes;
pub mod font;
pub mod laws;

pub use font::Error;
pub use font::Font;
pub use font::Glyph;
