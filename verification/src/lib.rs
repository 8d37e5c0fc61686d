//! Usage accounting for a local model-usage monitor: log-line normalisation,
//! the JSON-RPC protocol vocabulary, error taxonomy, display formatting and
//! the terminal dashboard's navigation state.

pub mod text;
pub mod format;
pub mod models;
pub mod errors;
pub mod protocol;
pub mod json;
pub mod collector;
pub mod tui;
pub mod paths;
pub mod ipc;
pub mod queries;
pub mod chart;
pub mod schema;
