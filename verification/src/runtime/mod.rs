//! The engine that runs functions by name: their contexts, their calls, and what they call.
pub mod api;
pub mod calls;
pub mod engine;
pub mod error;
pub mod future;
pub mod memory;
pub mod metrics;
pub mod queue;
