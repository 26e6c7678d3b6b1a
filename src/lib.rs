//! A schema-driven typed graph stored in a partitioned, transactional key-value store.
//!
//! The library holds the logic of the graph: identifiers and the partition they name,
//! the compilation of a schema into its per-kind vocabulary, typed node and edge records
//! with their reference sets, and the engine, which turns every operation into the
//! exact set of store writes that one atomic transaction must carry.

pub mod engine;
pub mod error;
pub mod ident;
pub mod laws;
pub mod lookup;
pub mod record;
pub mod registry;
pub mod schema;
