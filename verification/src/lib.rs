//! Dataset profiling over a tabular query engine: per-column descriptive
//! statistics, assembled into one summary table.

pub mod aggregation;
pub mod aggregator;
pub mod assembly;
pub mod cli;
pub mod describe;
pub mod engine;
pub mod error;
pub mod laws;
pub mod projection;
pub mod schema;
pub mod text;
