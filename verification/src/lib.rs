//! Skeleton: renders the public structural outline of parsed source files.
//!
//! The library holds the data model for top-level declarations (functions,
//! structs, enums, traits, impl blocks) and a verified pretty-printer that
//! turns one parsed file into its skeleton: signatures, visibility, generic
//! parameters and doc comments, with every body omitted. Reading directories,
//! parsing source text and writing to the output stream live outside the
//! library; callers hand it plain values and print the lines it returns.

pub mod model;
pub mod render;
pub mod laws;
