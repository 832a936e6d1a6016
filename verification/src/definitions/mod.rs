//! What functions are configured with, and how configuration becomes deployments.
pub mod bindings;
pub mod config;
pub mod monitor;
pub mod triggers;
