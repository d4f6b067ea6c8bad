//! Generators for the library's data modules.
pub mod emoji;
pub mod xml;
