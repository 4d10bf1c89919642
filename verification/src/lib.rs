//! Ingestion of map data from a query-based map service: query text,
//! decoding of the two wire formats, and reconciliation of the decoded
//! records into identifier-keyed stores of points, paths and relations.
//! The sprite model of the accompanying viewer lives here as well.

pub mod sprite;
pub mod input;
pub mod query;
pub mod text;
pub mod tags;
pub mod records;
pub mod json;
pub mod xml;
pub mod osm;
pub mod ingest;
pub mod laws;
