//! Batch image-format conversion library.
//!
//! The library models file paths as plain Unix-style strings (`/` as the
//! separator) and verifies the logic of a batch converter: mapping extension
//! strings to format tags, computing destination paths, selecting candidate
//! files from a directory listing, and planning the per-item work of a batch
//! so that one item's failure cannot affect another.

pub mod batch;
pub mod invocation;
pub mod paths;
pub mod registry;
pub mod resolve;
pub mod select;
