//! Reachability and latency monitoring: per-target probing decisions, the
//! sample schema, a bounded live broadcast hub and the translation of
//! historical range requests.
pub mod config;
pub mod database;
pub mod history;
pub mod hub;
pub mod prober;
pub mod routes;
pub mod sample;
pub mod supervisor;
pub mod target;
pub mod text;
