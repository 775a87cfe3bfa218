//! Settings read when locating glyph sources.
pub mod env_vars;
