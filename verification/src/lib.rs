//! A file locator: a cached snapshot of file paths, and regular-expression
//! queries answered from the snapshot instead of from the disk.
//!
//! The crate holds the index model and the query engine. Walking the file
//! system, reading and writing the snapshot and printing results are left to
//! the program that drives the library; it hands over plain values.

pub mod clock;
pub mod index;
pub mod paths;
pub mod pattern;
pub mod search;
pub mod text;
