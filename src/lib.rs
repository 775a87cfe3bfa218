//! Converts CycloneDX VEX documents into paginated PDF reports.
//!
//! The library holds the parts of the conversion that decide what the report
//! says and how it is laid out:
//! - `lib_utils::version_shim`: reconciles a document that declares the next
//!   minor schema version with the version the parser understands;
//! - `model`: the parsed document, as the report reads it;
//! - `pdf::generator`: composes a document into an ordered sequence of
//!   report blocks;
//! - `pdf::style`: the fixed style of each kind of block, and the running
//!   header;
//! - `pdf::font_config` and `run_utils`: the fallback order of glyph sources;
//! - `lib_utils`: configuration flags, file types and output paths.
//!
//! Parsing the document and drawing the PDF are left to the caller.
pub mod lib_utils;
pub mod model;
pub mod pdf;
pub mod run_utils;
