//! Verified core of a transaction relayer: queue processing decisions,
//! configuration checks, transaction and webhook models.

pub mod process_result;
pub mod primitives;
pub mod transaction;
pub mod text;
pub mod queue;
pub mod editing;
pub mod sending;
pub mod config;
pub mod startup;
pub mod top_up;
pub mod webhooks;
pub mod errors;
