//! Configuration, file types, output paths and the version shim.
pub mod config;
pub mod env_vars;
pub mod input_file_type;
pub mod run_utils;
pub mod version_shim;
