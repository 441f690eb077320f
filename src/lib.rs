//! Ingestion-and-query benchmark logic for a relational JSON-document store and
//! a search engine: synthetic corpus generation, batch planning, the decision
//! logic of both bulk loaders, schema provisioning, query translation and the
//! aggregation of latency measurements.

pub mod text;
pub mod document;
pub mod generator;
pub mod error;
pub mod batching;
pub mod search_load;
pub mod copy_load;
pub mod query;
pub mod evaluate;
pub mod report;
pub mod schema;
pub mod json;
