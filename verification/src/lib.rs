//! Parser for sectioned market-data CSV exports.
//!
//! The input format interleaves control rows, header (information) rows and
//! data rows in one flat file.  This crate classifies rows, matches header
//! keys against a registry of known schemas, dispatches data rows to the
//! matching schema and emits typed record variants, normalizing local
//! timestamps to UTC instants along the way.

pub mod batch;
pub mod civil;
pub mod collection;
pub mod numbers;
pub mod records;
pub mod reportpath;
pub mod rows;
pub mod scan;
pub mod schema;
pub mod sections;
pub mod text;
pub mod timegrid;
