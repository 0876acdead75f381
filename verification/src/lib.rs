//! Event-ingestion sink core: translation of a loosely structured event
//! envelope (fixed attributes, typed extensions, optional payload) into the
//! ordered column values of a fixed relational schema, together with the
//! idempotent table-provisioning statement and the decision logic that maps
//! database outcomes to HTTP responses.

pub mod config;
pub mod envelope;
pub mod ingest;
pub mod json;
pub mod laws;
pub mod normalize;
pub mod num;
pub mod respond;
pub mod sql;
mod text;
