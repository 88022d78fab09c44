//! Per-row-group structural statistics of a Parquet file.
//!
//! The library parses a Parquet footer through the `parquet` crate, projects
//! each row-group descriptor onto a flat [`stats::BasicRowGroupStats`] record,
//! and serializes the records as concatenated compact JSON objects.

pub mod footer;
pub mod json;
pub mod metadata;
pub mod stats;
