//! Unified error types for a query engine and its distributed scheduler
//! embedded in a Python host, and their conversion into host exceptions.

pub mod errors;
pub mod laws;
pub mod upstream;

pub use errors::{BallistaError, DataFusionError};
