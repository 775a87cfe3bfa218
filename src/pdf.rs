//! Report composition, styles, and the choice of glyph source.
pub mod font_config;
pub mod generator;
pub mod style;
