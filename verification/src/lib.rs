//! Verified formatting core for a transit-line status tool.
//!
//! The library turns a raw JSON status payload into a renderable,
//! colour-coded table: it classifies severity codes, extracts one display
//! row per line record, resolves the wrap width for the free-text reason
//! column, wraps that text, and assembles the table. Fetching the payload
//! and printing the table are left to the surrounding binary.

pub mod classify;
pub mod format;
pub mod json;
pub mod model;
pub mod rows;
pub mod table;
pub mod wrap;
