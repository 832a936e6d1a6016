//! What functions do to the world through the host.
pub mod blob;
pub mod exposition;
pub mod fetch;
pub mod kv;
pub mod logs;
pub mod metrics;
pub mod sql;
