//! What a function asks of the host, call by call.
pub mod env;
pub mod fetch;
pub mod futures;
pub mod http;
pub mod kv;
pub mod metrics;
pub mod sql;
pub mod system;
