//! The in-memory form of a parsed CycloneDX VEX document.
pub mod cyclonedx;
