//! In-memory transaction store, a per-second rate counter, and transaction
//! metrics exported in the Prometheus text format.
pub mod labels;
pub mod store;
pub mod rate;
pub mod metrics;
pub mod service;
pub mod ids;
